use ilemu::expression::Expr;
use ilemu::program::{Block, Function, If, Inst, LlilInst, Program, SetReg};
use ilemu::taint_tracker::{TaintState, TaintTracker};

fn inst(addr: u64, llil: LlilInst) -> Inst {
    Inst { addr, llil, disass: String::new() }
}

fn set_reg(addr: u64, reg: &str, e: Expr) -> Inst {
    inst(addr, LlilInst::SetReg(SetReg { expr: e, reg: reg.to_owned() }))
}

fn val(v: u64) -> Expr {
    Expr::Value(v)
}

fn reg(name: &str) -> Expr {
    Expr::Reg(ilemu::expression::Reg { name: name.to_owned() })
}

fn one_block_fn(name: &str, addr: u64, insts: Vec<Inst>) -> Function {
    Function { name: name.to_owned(), addr, blocks: vec![Block { addr, insts }] }
}

fn tainted(t: &TaintState, name: &str) -> bool {
    t.regs_tainted.iter().any(|r| r == name)
}

#[test]
fn declared_source_taints_and_assignment_propagates() {
    // a register source for rax at site (0x400812, 1); the instruction
    // there copies rax into rdi, so rdi picks the taint up
    let prog = Program::new(vec![one_block_fn(
        "main",
        0x400812,
        vec![
            set_reg(0x400812, "rdi", reg("rax")),
            set_reg(0x400816, "rdi", val(0)),
            inst(0x40081a, LlilInst::Nop),
        ],
    )]);
    let mut tracker = TaintTracker::main(&prog);
    TaintTracker::taint_reg(&mut tracker.states[0], "rax".to_owned(), 0x400812, 1);
    tracker.step();
    assert!(tainted(&tracker.states[0], "rax"));
    assert!(tainted(&tracker.states[0], "rdi"));
    // the next assignment writes a constant: the taint washes off again,
    // flow-sensitively rather than growing forever
    tracker.step();
    assert!(tainted(&tracker.states[0], "rax"));
    assert!(!tainted(&tracker.states[0], "rdi"));
}

#[test]
fn conditional_branch_forks_the_path_set() {
    let prog = Program::new(vec![one_block_fn(
        "main",
        0x400900,
        vec![inst(
            0x400900,
            LlilInst::If(If { condition: reg("rax"), target_true: 0x401000, target_false: 0x402000 }),
        )],
    )]);
    let mut tracker = TaintTracker::main(&prog);
    TaintTracker::taint_reg(&mut tracker.states[0], "rax".to_owned(), 0x400900, 1);
    assert_eq!(tracker.states.len(), 1);
    tracker.step();
    assert_eq!(tracker.states.len(), 2);
    assert_eq!(tracker.states[0].addr, 0x401000);
    assert_eq!(tracker.states[1].addr, 0x402000);
    assert_eq!(tracker.states[1].index, 1);
    // both paths carry identical taint sets immediately after the fork
    assert!(tainted(&tracker.states[0], "rax"));
    assert!(tainted(&tracker.states[1], "rax"));
    assert_eq!(tracker.states[0].regs_tainted.len(), tracker.states[1].regs_tainted.len());
    assert_eq!(tracker.states[0].stack_tainted, tracker.states[1].stack_tainted);
}

#[test]
fn expression_taint_is_the_or_over_operands() {
    let prog = Program::new(vec![]);
    let mut tracker = TaintTracker::main(&prog);
    tracker.states[0].regs_tainted.push("rax".to_owned());
    let t = &tracker.states[0];
    let add = Expr::Add(ilemu::expression::Arithmetic {
        left: Box::new(reg("rax")),
        right: Box::new(val(1)),
    });
    assert!(TaintTracker::expression_tainted(t, &add, 0));
    let clean = Expr::Add(ilemu::expression::Arithmetic {
        left: Box::new(reg("rbx")),
        right: Box::new(val(1)),
    });
    assert!(!TaintTracker::expression_tainted(t, &clean, 0));
    assert!(!TaintTracker::expression_tainted(t, &val(7), 0));
    // a node outside the vocabulary is deliberately not tainted
    let undef = Expr::Undef(ilemu::expression::Undef { expr: String::new() });
    assert!(!TaintTracker::expression_tainted(t, &undef, 0));
    // a load is tainted through its address expression
    let load = Expr::Load(ilemu::expression::Load { source_mem: Box::new(reg("rax")) });
    assert!(TaintTracker::load_tainted(t, &load, 0));
}

#[test]
fn stack_sources_seed_stack_taint() {
    let prog = Program::new(vec![one_block_fn(
        "main",
        0x400a00,
        vec![inst(0x400a00, LlilInst::Nop), inst(0x400a04, LlilInst::Nop)],
    )]);
    let mut tracker = TaintTracker::main(&prog);
    TaintTracker::taint_stack(&mut tracker.states[0], 0x7fff_0000, 0x400a00, 1);
    tracker.step();
    assert!(tracker.states[0].stack_tainted.contains(&0x7fff_0000));
}

#[test]
fn a_path_that_resolves_nothing_halts_unchanged() {
    let prog = Program::new(vec![]);
    let mut tracker = TaintTracker::main(&prog);
    let before_addr = tracker.states[0].addr;
    tracker.step();
    assert_eq!(tracker.states.len(), 1);
    assert_eq!(tracker.states[0].addr, before_addr);
}

#[test]
fn tracker_parks_at_the_named_function() {
    let prog = Program::new(vec![
        one_block_fn("main", 0x1000, vec![inst(0x1000, LlilInst::Nop)]),
        one_block_fn("checker", 0x2000, vec![inst(0x2000, LlilInst::Nop)]),
    ]);
    let tracker = TaintTracker::track_fun(&prog, "checker".to_owned());
    assert_eq!(tracker.states[0].addr, 0x2000);
    assert_eq!(tracker.states[0].index, 1);
    let tracker = TaintTracker::entry(&prog);
    assert_eq!(tracker.states[0].addr, 0);
}
