use ilemu::emulator::{Emulator, StepError};
use ilemu::expression::Expr;
use ilemu::procedures;
use ilemu::program::{Block, Call, Function, Goto, If, Inst, LlilInst, Program, Push, Ret, SetReg, SetRegSplit, Store};
use ilemu::state::{Arch, Convert_Arch_To_Enum, Memory, Regsx64, State, ARCH_X86_64};

fn inst(addr: u64, llil: LlilInst) -> Inst {
    Inst { addr, llil, disass: String::new() }
}

fn set_reg(addr: u64, reg: &str, e: Expr) -> Inst {
    inst(addr, LlilInst::SetReg(SetReg { expr: e, reg: reg.to_owned() }))
}

fn val(v: u64) -> Expr {
    Expr::Value(v)
}

fn reg(name: &str) -> Expr {
    Expr::Reg(ilemu::expression::Reg { name: name.to_owned() })
}

fn one_block_fn(name: &str, addr: u64, insts: Vec<Inst>) -> Function {
    Function { name: name.to_owned(), addr, blocks: vec![Block { addr, insts }] }
}

#[test]
fn registers_set_then_get_round_trips() {
    let mut regs = Regsx64::new();
    regs.set("rax".to_owned(), 5);
    assert_eq!(regs.get("rax".to_owned()), 5);
    // an unmodeled register name round-trips through the overflow list
    regs.set("xmm0".to_owned(), 7);
    assert_eq!(regs.get("xmm0".to_owned()), 7);
    // an unmodeled name never written reads as 0
    assert_eq!(regs.get("ymm3".to_owned()), 0);
}

#[test]
fn register_aliases_share_storage() {
    let mut regs = Regsx64::new();
    regs.set("eax".to_owned(), 9);
    assert_eq!(regs.get("rax".to_owned()), 9);
    regs.set("rsp".to_owned(), 0x2000);
    assert_eq!(regs.get("esp".to_owned()), 0x2000);
}

#[test]
fn fsbase_always_reads_zero() {
    let mut regs = Regsx64::new();
    regs.set("fsbase".to_owned(), 42);
    assert_eq!(regs.get("fsbase".to_owned()), 0);
}

#[test]
fn architecture_tags_decode() {
    assert_eq!(Convert_Arch_To_Enum("x86_64".to_owned()), ARCH_X86_64);
    assert_eq!(Convert_Arch_To_Enum("arm".to_owned()), u64::MAX);
    assert_eq!(Arch::from_u64(0), Arch::X86_64);
    assert_eq!(Arch::from_u64(1), Arch::Arm);
    assert_eq!(Arch::from_u64(2), Arch::Aarch64);
    assert_eq!(Arch::from_u64(77), Arch::Unknown);
}

#[test]
fn memory_is_write_populated() {
    let mut m = Memory::new();
    assert_eq!(m.load(0x1000), 0);
    m.store(0x1000, 99);
    assert_eq!(m.load(0x1000), 99);
    m.store(0x1000, 100);
    assert_eq!(m.load(0x1000), 100);
}

#[test]
fn fresh_state_is_empty() {
    let s = State::new("x86_64".to_owned());
    assert_eq!(s.addr, 0);
    assert_eq!(s.index, 0);
    assert_eq!(s.arch, ARCH_X86_64);
    assert!(s.call_stack.is_empty());
    assert_eq!(s.stdin, "");
    assert!(s.regs.x64.is_some());
}

#[test]
fn unknown_architecture_reads_zero() {
    let s = State::new("powerpc".to_owned());
    assert!(s.regs.x64.is_none());
    assert_eq!(s.regs.get("rax".to_owned(), s.arch), 0);
}

#[test]
fn set_register_then_read_through_engine() {
    let prog = Program::new(vec![one_block_fn(
        "main",
        0x1000,
        vec![set_reg(0x1000, "rax", val(5)), inst(0x1004, LlilInst::Nop)],
    )]);
    let mut emu = Emulator::main(&prog);
    assert_eq!(emu.state.addr, 0x1000);
    assert!(emu.step().is_ok());
    assert_eq!(emu.state.regs.get("rax".to_owned(), emu.state.arch), 5);
    assert_eq!(emu.state.addr, 0x1004);
}

#[test]
fn push_stores_at_old_stack_pointer_and_drops_it_by_eight() {
    let prog = Program::new(vec![one_block_fn(
        "main",
        0x1000,
        vec![
            inst(0x1000, LlilInst::Push(Push { expr: reg("rbx") })),
            inst(0x1004, LlilInst::Nop),
        ],
    )]);
    let mut emu = Emulator::main(&prog);
    emu.state.regs.set("rsp".to_owned(), 0x1000, emu.state.arch);
    emu.state.regs.set("rbx".to_owned(), 1234, emu.state.arch);
    assert!(emu.step().is_ok());
    assert_eq!(emu.state.memory.load(0x1000), 1234);
    assert_eq!(emu.state.regs.get("rsp".to_owned(), emu.state.arch), 0x0FF8);
}

#[test]
fn goto_lands_exactly_on_its_index() {
    let prog = Program::new(vec![one_block_fn(
        "main",
        0x2000,
        vec![
            inst(0x2000, LlilInst::Nop),
            inst(0x2000, LlilInst::Goto(Goto { target: 3 })),
            inst(0x2000, LlilInst::Nop),
            inst(0x2000, LlilInst::Nop),
        ],
    )]);
    let mut emu = Emulator::main(&prog);
    assert!(emu.step().is_ok()); // the leading Nop
    assert_eq!(emu.state.index, 1);
    assert!(emu.step().is_ok()); // the Goto plus the automatic advance
    assert_eq!(emu.state.index, 3);
    assert_eq!(emu.state.addr, 0x2000);
}

#[test]
fn conditional_branch_routes_on_the_condition() {
    let branch = |cond: Expr| {
        Program::new(vec![one_block_fn(
            "main",
            0x3000,
            vec![inst(
                0x3000,
                LlilInst::If(If { condition: cond, target_true: 0x4000, target_false: 0x5000 }),
            )],
        )])
    };
    let prog = branch(val(0));
    let mut emu = Emulator::main(&prog);
    assert!(emu.step().is_ok());
    assert_eq!(emu.state.addr, 0x5000);

    let prog = branch(val(3));
    let mut emu = Emulator::main(&prog);
    assert!(emu.step().is_ok());
    assert_eq!(emu.state.addr, 0x4000);
}

#[test]
fn store_writes_memory() {
    let prog = Program::new(vec![one_block_fn(
        "main",
        0x1000,
        vec![
            inst(0x1000, LlilInst::Store(Store { dest_mem_expr: val(0x40), source_expr: val(99) })),
            inst(0x1004, LlilInst::Nop),
        ],
    )]);
    let mut emu = Emulator::main(&prog);
    assert!(emu.step().is_ok());
    assert_eq!(emu.state.memory.load(0x40), 99);
}

#[test]
fn split_assignment_writes_both_halves() {
    let prog = Program::new(vec![one_block_fn(
        "main",
        0x1000,
        vec![
            inst(
                0x1000,
                LlilInst::SetRegSplit(SetRegSplit {
                    dest_reg_high: "rdx".to_owned(),
                    dest_reg_low: "rax".to_owned(),
                    source_expr: val(0x1_0000_0002),
                }),
            ),
            inst(0x1004, LlilInst::Nop),
        ],
    )]);
    let mut emu = Emulator::main(&prog);
    assert!(emu.step().is_ok());
    assert_eq!(emu.state.regs.get("rax".to_owned(), emu.state.arch), 2);
    assert_eq!(emu.state.regs.get("rdx".to_owned(), emu.state.arch), 1);
}

#[test]
fn call_to_stub_applies_its_effect_in_place() {
    let prog = Program::new(vec![
        one_block_fn(
            "main",
            0x3000,
            vec![
                inst(0x3000, LlilInst::Call(Call { target: val(0x5000) })),
                inst(0x3004, LlilInst::Nop),
            ],
        ),
        one_block_fn("strlen", 0x5000, vec![]),
    ]);
    let mut emu = Emulator::main(&prog);
    emu.state.regs.set("rax".to_owned(), 111, emu.state.arch);
    assert!(emu.step().is_ok());
    // the stub's fixed result lands in the return-value register,
    // whatever was there before
    assert_eq!(emu.state.regs.get("rax".to_owned(), emu.state.arch), 4);
    assert_eq!(emu.state.addr, 0x3004);
    assert!(emu.state.call_stack.is_empty());
}

#[test]
fn call_to_plain_function_pushes_and_jumps_past_the_entry() {
    let prog = Program::new(vec![
        one_block_fn(
            "main",
            0x3000,
            vec![
                inst(0x3000, LlilInst::Call(Call { target: val(0x6000) })),
                inst(0x3004, LlilInst::Nop),
            ],
        ),
        one_block_fn("helper", 0x6000, vec![inst(0x6000, LlilInst::Nop)]),
    ]);
    let mut emu = Emulator::main(&prog);
    assert!(emu.step().is_ok());
    assert_eq!(emu.state.call_stack, vec![0x3004]);
    assert_eq!(emu.state.addr, 0x6004);
}

#[test]
fn call_to_nowhere_is_reported() {
    let prog = Program::new(vec![one_block_fn(
        "main",
        0x3000,
        vec![
            inst(0x3000, LlilInst::Call(Call { target: val(0x9999) })),
            inst(0x3004, LlilInst::Nop),
        ],
    )]);
    let mut emu = Emulator::main(&prog);
    assert_eq!(emu.step(), Err(StepError::CallTargetUnresolved));
}

#[test]
fn return_with_empty_stack_blocks() {
    let prog = Program::new(vec![one_block_fn(
        "main",
        0x3000,
        vec![inst(0x3000, LlilInst::Ret(Ret { addr: 0 }))],
    )]);
    let mut emu = Emulator::main(&prog);
    assert_eq!(emu.step(), Err(StepError::Blocked));
}

#[test]
fn return_resumes_at_the_pushed_address() {
    let prog = Program::new(vec![one_block_fn(
        "main",
        0x3000,
        vec![inst(0x3000, LlilInst::Ret(Ret { addr: 0 }))],
    )]);
    let mut emu = Emulator::main(&prog);
    emu.state.call_stack.push(0x7777);
    assert!(emu.step().is_ok());
    assert_eq!(emu.state.addr, 0x7777);
    assert_eq!(emu.state.index, 0);
    assert!(emu.state.call_stack.is_empty());
}

#[test]
fn stepping_nowhere_is_a_lookup_failure() {
    let prog = Program::new(vec![]);
    let state = State::new("x86_64".to_owned());
    let mut emu = Emulator::new(&prog, state);
    assert_eq!(emu.step(), Err(StepError::LookupFailure));
}

#[test]
fn entry_without_start_symbol_parks_at_zero() {
    let prog = Program::new(vec![one_block_fn("main", 0x1000, vec![inst(0x1000, LlilInst::Nop)])]);
    let emu = Emulator::entry(&prog);
    assert_eq!(emu.state.addr, 0);
    let emu = Emulator::main(&prog);
    assert_eq!(emu.state.addr, 0x1000);
}

#[test]
fn stub_table_dispatches_by_name() {
    let mut s = State::new("x86_64".to_owned());
    procedures::call("strlen".to_owned(), &mut s);
    assert_eq!(s.regs.get("rax".to_owned(), s.arch), 4);
    procedures::call("atoi".to_owned(), &mut s);
    assert_eq!(s.regs.get("rax".to_owned(), s.arch), 6);
    procedures::call("puts".to_owned(), &mut s);
    assert_eq!(s.regs.get("rax".to_owned(), s.arch), 0);
    procedures::call("fgets".to_owned(), &mut s);
    assert_eq!(s.stdin, "1234");
    assert_eq!(s.regs.get("rax".to_owned(), s.arch), 0);
}

#[test]
fn unknown_callee_mutates_nothing() {
    let mut s = State::new("x86_64".to_owned());
    s.regs.set("rax".to_owned(), 123, s.arch);
    s.regs.set("rdi".to_owned(), 456, s.arch);
    procedures::call("bogus".to_owned(), &mut s);
    assert_eq!(s.regs.get("rax".to_owned(), s.arch), 123);
    assert_eq!(s.regs.get("rdi".to_owned(), s.arch), 456);
    assert_eq!(s.stdin, "");
}

#[test]
fn program_lookups_find_instructions() {
    let prog = Program::new(vec![one_block_fn(
        "main",
        0x1000,
        vec![
            set_reg(0x1000, "rax", val(1)),
            set_reg(0x1000, "rbx", val(2)),
            inst(0x1008, LlilInst::Nop),
        ],
    )]);
    let group = prog.insts_at_addr(0x1000).unwrap();
    assert_eq!(group.len(), 2);
    assert_eq!(group[0].index, 0);
    assert_eq!(group[1].index, 1);
    assert_eq!(prog.inst_at(0x1000).unwrap().addr, 0x1000);
    assert_eq!(prog.inst_after(0x1000).unwrap().addr, 0x1008);
    assert!(prog.inst_at(0x4444).is_err());
    assert!(prog.inst_after(0x1008).is_err());
    let f = prog.function_containing(0x1008).unwrap();
    assert_eq!(f.name, "main");
    assert_eq!(f.llil_start(), 0x1000);
    assert_eq!(f.length(), 3);
    assert_eq!(f.llil_at_index(2).unwrap().addr, 0x1008);
    assert!(f.llil_at_index(3).is_err());
    let b = prog.block_at(0x1000).unwrap();
    assert_eq!(b.llil().len(), 3);
    assert!(prog.function_at(0x1000).is_ok());
    assert!(prog.function_at(0x2000).is_err());
}
