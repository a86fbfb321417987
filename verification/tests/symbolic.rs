use ilemu::bitvector::{BV, BVS, BVV};
use ilemu::expression::Expr;
use ilemu::program::{Block, Call, Function, If, Inst, LlilInst, Program, SetReg, Store};
use ilemu::symbolic_executor::{eval_symbolic, SymbolicExecutor};
use ilemu::symbolic_state::SymbolicState;

fn inst(addr: u64, llil: LlilInst) -> Inst {
    Inst { addr, llil, disass: String::new() }
}

fn val(v: u64) -> Expr {
    Expr::Value(v)
}

fn reg(name: &str) -> Expr {
    Expr::Reg(ilemu::expression::Reg { name: name.to_owned() })
}

fn one_block_fn(name: &str, addr: u64, insts: Vec<Inst>) -> Function {
    Function { name: name.to_owned(), addr, blocks: vec![Block { addr, insts }] }
}

fn concrete_value(b: &BV) -> Option<u64> {
    match b {
        BV::Concrete(c) => Some(c.value),
        _ => None,
    }
}

#[test]
fn bitvector_constructors_record_width_and_value() {
    let v = BVV::new(32);
    assert_eq!(v.size, 32);
    assert_eq!(v.value, 0);
    let v = BVV::from_u64(1234);
    assert_eq!(v.size, 64);
    assert_eq!(v.value, 1234);
    let s = BVS::new(16);
    assert_eq!(s.size, 16);
    let s = BVS::from_u64(99);
    assert_eq!(s.size, 64);
}

#[test]
fn concrete_operands_compute_concretely() {
    let s = SymbolicState::new();
    let e = Expr::Add(ilemu::expression::Arithmetic {
        left: Box::new(val(2)),
        right: Box::new(val(3)),
    });
    assert_eq!(concrete_value(&eval_symbolic(&e, &s)), Some(5));
    let e = Expr::Mul(ilemu::expression::Arithmetic {
        left: Box::new(val(1u64 << 63)),
        right: Box::new(val(2)),
    });
    assert_eq!(concrete_value(&eval_symbolic(&e, &s)), Some(0));
}

#[test]
fn a_symbolic_operand_never_downgrades_to_concrete() {
    let mut s = SymbolicState::new();
    s.regs.set("rax".to_owned(), BV::Symbolic(BVS::new(64)));
    let e = Expr::Add(ilemu::expression::Arithmetic {
        left: Box::new(reg("rax")),
        right: Box::new(val(1)),
    });
    assert!(concrete_value(&eval_symbolic(&e, &s)).is_none());
    let e = Expr::CmpE(ilemu::expression::Cmp {
        left: Box::new(val(1)),
        right: Box::new(reg("rax")),
    });
    assert!(concrete_value(&eval_symbolic(&e, &s)).is_none());
}

#[test]
fn branch_on_symbolic_condition_records_a_constraint() {
    let prog = Program::new(vec![one_block_fn(
        "main",
        0x1000,
        vec![inst(
            0x1000,
            LlilInst::If(If { condition: reg("rax"), target_true: 0x2000, target_false: 0x3000 }),
        )]
    )]);
    let mut exec = SymbolicExecutor::get_main(&prog);
    exec.state.regs.set("rax".to_owned(), BV::Symbolic(BVS::new(64)));
    assert!(exec.step().is_ok());
    assert_eq!(exec.state.addr, 0x2000);
    assert_eq!(exec.state.constraints.len(), 1);
}

#[test]
fn branch_on_concrete_condition_picks_its_side() {
    let prog = Program::new(vec![one_block_fn(
        "main",
        0x1000,
        vec![inst(
            0x1000,
            LlilInst::If(If { condition: val(0), target_true: 0x2000, target_false: 0x3000 }),
        )]
    )]);
    let mut exec = SymbolicExecutor::get_main(&prog);
    assert!(exec.step().is_ok());
    assert_eq!(exec.state.addr, 0x3000);
    assert!(exec.state.constraints.is_empty());
}

#[test]
fn store_through_a_symbolic_address_is_skipped() {
    let prog = Program::new(vec![one_block_fn(
        "main",
        0x1000,
        vec![
            inst(
                0x1000,
                LlilInst::Store(Store { dest_mem_expr: reg("rax"), source_expr: val(5) }),
            ),
            inst(0x1004, LlilInst::Nop),
        ],
    )]);
    let mut exec = SymbolicExecutor::get_main(&prog);
    exec.state.regs.set("rax".to_owned(), BV::Symbolic(BVS::new(64)));
    assert!(exec.step().is_ok());
    assert!(exec.state.memory.map.is_empty());
}

#[test]
fn store_through_a_concrete_address_lands() {
    let prog = Program::new(vec![one_block_fn(
        "main",
        0x1000,
        vec![
            inst(
                0x1000,
                LlilInst::Store(Store { dest_mem_expr: val(0x80), source_expr: val(5) }),
            ),
            inst(0x1004, LlilInst::Nop),
        ],
    )]);
    let mut exec = SymbolicExecutor::get_main(&prog);
    assert!(exec.step().is_ok());
    assert_eq!(exec.state.memory.load(0x80), 5);
}

#[test]
fn symbolic_register_assignment_carries_the_value() {
    let prog = Program::new(vec![one_block_fn(
        "main",
        0x1000,
        vec![
            inst(0x1000, LlilInst::SetReg(SetReg { expr: val(5), reg: "rbx".to_owned() })),
            inst(0x1004, LlilInst::Nop),
        ],
    )]);
    let mut exec = SymbolicExecutor::get_main(&prog);
    assert!(exec.step().is_ok());
    assert_eq!(concrete_value(&exec.state.regs.get("rbx".to_owned())), Some(5));
}

#[test]
fn stub_call_writes_a_concrete_result() {
    let prog = Program::new(vec![
        one_block_fn(
            "main",
            0x1000,
            vec![
                inst(0x1000, LlilInst::Call(Call { target: val(0x5000) })),
                inst(0x1004, LlilInst::Nop),
            ],
        ),
        one_block_fn("strlen", 0x5000, vec![]),
    ]);
    let mut exec = SymbolicExecutor::get_main(&prog);
    assert!(exec.step().is_ok());
    assert_eq!(concrete_value(&exec.state.regs.get("rax".to_owned())), Some(4));
    assert_eq!(exec.state.addr, 0x1004);
}

#[test]
fn executor_parks_at_the_entry_function() {
    let prog = Program::new(vec![
        one_block_fn("_start", 0x400, vec![inst(0x400, LlilInst::Nop)]),
        one_block_fn("main", 0x800, vec![inst(0x800, LlilInst::Nop)]),
    ]);
    let exec = SymbolicExecutor::get_entry(&prog);
    assert_eq!(exec.state.addr, 0x400);
    let exec = SymbolicExecutor::get_main(&prog);
    assert_eq!(exec.state.addr, 0x800);
    assert_eq!(exec.state.stdin, "Here is some test stdin");
}

#[test]
fn overflow_names_hold_bitvectors_too() {
    let mut s = SymbolicState::new();
    s.regs.set("xmm1".to_owned(), BV::Concrete(BVV::from_u64(17)));
    assert_eq!(concrete_value(&s.regs.get("xmm1".to_owned())), Some(17));
    // a name never written falls back to the accumulator's value
    let fallback = s.regs.get("never_written".to_owned());
    assert_eq!(concrete_value(&fallback), concrete_value(&s.regs.get("rax".to_owned())));
}
