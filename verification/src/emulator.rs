//! The concrete step engine: fetches the IR instruction the state's
//! address and index select, applies its effect to the state, and
//! advances control — sequentially, through a branch, through a call, or
//! back through the call-return stack.

use crate::expression::add64;
use crate::expression::eval_expression;
use crate::expression::spec_eval;
use crate::expression::sub64;
use crate::expression::wrap_add;
use crate::expression::wrap_sub;
use crate::procedures::is_stub_name;
use crate::procedures::is_stub_name_exec;
use crate::procedures::spec_call_effect;
use crate::program::func_at_from;
use crate::program::spec_inst_after;
use crate::program::spec_insts_at;
use crate::program::spec_llil_start;
use crate::program::func_named_from;
use crate::program::Inst;
use crate::program::LlilInst;
use crate::program::Program;
use crate::state::registers_set_rel;
use crate::state::spec_registers_get;
use crate::state::string_is;
use crate::state::Registers;
use crate::state::State;
use crate::state::ARCH_X86_64;
use vstd::prelude::*;

verus! {

/// Why a step could not run to completion. All are recoverable: the
/// caller may stop the run or carry on with another state.
#[derive(Clone, Copy, PartialEq, Eq, Structural, Debug)]
pub enum StepError {
    /// The current address, or the instruction after it, resolves to no
    /// instruction, and no return address was left to resume from.
    LookupFailure,
    /// A call target resolves to no function of the program.
    CallTargetUnresolved,
    /// A return ran with an empty call stack; the run is over.
    Blocked,
}

/// One concrete emulation run: the program it walks and the state it
/// owns exclusively.
pub struct Emulator<'a> {
    pub program: &'a Program,
    pub state: State,
}

/// The registers, memory and input buffer are unchanged.
pub open spec fn keeps_data(pre: State, post: State) -> bool {
    &&& post.regs == pre.regs
    &&& post.memory == pre.memory
    &&& post.stdin == pre.stdin
}

/// The address, index and call stack are unchanged.
pub open spec fn keeps_flow(pre: State, post: State) -> bool {
    &&& post.addr == pre.addr
    &&& post.index == pre.index
    &&& post.call_stack@ == pre.call_stack@
}

/// Control resumes at the most recently pushed return address, which
/// leaves the call stack.
pub open spec fn pops_to_resume(pre: State, post: State) -> bool {
    &&& pre.call_stack@.len() > 0
    &&& post.addr == pre.call_stack@.last()
    &&& post.index == 0
    &&& post.call_stack@ == pre.call_stack@.drop_last()
}

/// How control moves after a non-branching instruction whose group index
/// would next be `next_index`: stay in the group when the index is still
/// inside it; otherwise fall through to the instruction after the group;
/// at the end of a function resume through the call stack, or report the
/// lookup failure when nothing was left to resume from.
pub open spec fn seq_flow(
    p: Program,
    pre: State,
    post: State,
    r: Result<(), StepError>,
    next_index: int,
) -> bool {
    let group = spec_insts_at(p, pre.addr);
    if 0 <= next_index < group.len() {
        &&& post.addr == pre.addr
        &&& post.index == next_index
        &&& post.call_stack@ == pre.call_stack@
        &&& r is Ok
    } else {
        match spec_inst_after(p, pre.addr) {
            Some(inst) => {
                &&& post.addr == inst.addr
                &&& post.index == 0
                &&& post.call_stack@ == pre.call_stack@
                &&& r is Ok
            },
            None => {
                if pre.call_stack@.len() > 0 {
                    pops_to_resume(pre, post) && r is Ok
                } else {
                    keeps_flow(pre, post) && (r matches Err(e) && e is LookupFailure)
                }
            },
        }
    }
}

/// Control moves to a branch target: the next fetch happens at the
/// target address, at the head of its group.
pub open spec fn jump_flow(pre: State, post: State, target: u64) -> bool {
    &&& post.addr == target
    &&& post.index == 0
    &&& post.call_stack@ == pre.call_stack@
}

/// What one fetched instruction does to the state and where control goes
/// afterwards, by instruction kind.
pub open spec fn step_inst_rel(
    p: Program,
    pre: State,
    post: State,
    r: Result<(), StepError>,
    inst: Inst,
) -> bool {
    match inst.llil {
        LlilInst::SetReg(sr) => {
            &&& registers_set_rel(pre.regs, post.regs, sr.reg@, spec_eval(sr.expr, pre), pre.arch)
            &&& post.memory == pre.memory
            &&& post.stdin == pre.stdin
            &&& seq_flow(p, pre, post, r, pre.index + 1)
        },
        LlilInst::SetRegSplit(sp) => {
            let v = spec_eval(sp.source_expr, pre);
            &&& (exists|mid: Registers|
                #[trigger] registers_set_rel(pre.regs, mid, sp.dest_reg_low@, v & 0xffff_ffff, pre.arch)
                    && registers_set_rel(mid, post.regs, sp.dest_reg_high@, v >> 32u64, pre.arch))
            &&& post.memory == pre.memory
            &&& post.stdin == pre.stdin
            &&& seq_flow(p, pre, post, r, pre.index + 1)
        },
        LlilInst::Store(st) => {
            &&& post.memory.map@ == pre.memory.map@.insert(
                spec_eval(st.dest_mem_expr, pre),
                spec_eval(st.source_expr, pre),
            )
            &&& post.regs == pre.regs
            &&& post.stdin == pre.stdin
            &&& seq_flow(p, pre, post, r, pre.index + 1)
        },
        LlilInst::Push(ps) => {
            let v = spec_eval(ps.expr, pre);
            let sp = spec_registers_get(pre.regs, "rsp"@, pre.arch);
            &&& post.memory.map@ == pre.memory.map@.insert(sp, v)
            &&& registers_set_rel(pre.regs, post.regs, "rsp"@, wrap_sub(sp, 8), pre.arch)
            &&& post.stdin == pre.stdin
            &&& seq_flow(p, pre, post, r, pre.index + 1)
        },
        LlilInst::If(iff) => {
            let c = spec_eval(iff.condition, pre);
            &&& keeps_data(pre, post)
            &&& jump_flow(pre, post, if c == 0 { iff.target_false } else { iff.target_true })
            &&& r is Ok
        },
        LlilInst::Jump(j) => keeps_data(pre, post) && jump_flow(pre, post, j.addr) && r is Ok,
        LlilInst::JumpTo(j) => keeps_data(pre, post) && jump_flow(pre, post, j.addr) && r is Ok,
        LlilInst::Call(cl) => {
            let t = spec_eval(cl.target, pre);
            let fa = func_at_from(p.functions@, t, 0);
            if fa >= p.functions@.len() {
                &&& keeps_data(pre, post)
                &&& keeps_flow(pre, post)
                &&& (r matches Err(e) && e is CallTargetUnresolved)
            } else {
                let fname = p.functions@[fa].name@;
                if is_stub_name(fname) {
                    &&& (exists|mid: State|
                        #[trigger] spec_call_effect(fname, pre, mid) && post.regs == mid.regs
                            && post.stdin == mid.stdin)
                    &&& post.memory == pre.memory
                    &&& seq_flow(p, pre, post, r, pre.index + 1)
                } else {
                    match spec_inst_after(p, pre.addr) {
                        Some(nxt) => {
                            &&& keeps_data(pre, post)
                            &&& post.call_stack@ == pre.call_stack@.push(nxt.addr)
                            &&& post.addr == wrap_add(t, 4)
                            &&& post.index == 0
                            &&& r is Ok
                        },
                        None => {
                            &&& keeps_data(pre, post)
                            &&& keeps_flow(pre, post)
                            &&& (r matches Err(e) && e is LookupFailure)
                        },
                    }
                }
            }
        },
        LlilInst::Ret(_) => {
            &&& keeps_data(pre, post)
            &&& if pre.call_stack@.len() > 0 {
                pops_to_resume(pre, post) && r is Ok
            } else {
                keeps_flow(pre, post) && (r matches Err(e) && e is Blocked)
            }
        },
        LlilInst::Goto(g) => keeps_data(pre, post) && seq_flow(p, pre, post, r, g.target as int),
        LlilInst::SetFlag(_) => keeps_data(pre, post) && seq_flow(p, pre, post, r, pre.index + 1),
        LlilInst::Nop => keeps_data(pre, post) && seq_flow(p, pre, post, r, pre.index + 1),
        LlilInst::NoRet => keeps_data(pre, post) && seq_flow(p, pre, post, r, pre.index + 1),
        LlilInst::Syscall => keeps_data(pre, post) && seq_flow(p, pre, post, r, pre.index + 1),
        LlilInst::Bp => keeps_data(pre, post) && seq_flow(p, pre, post, r, pre.index + 1),
        LlilInst::Trap => keeps_data(pre, post) && seq_flow(p, pre, post, r, pre.index + 1),
        LlilInst::Undef => keeps_data(pre, post) && seq_flow(p, pre, post, r, pre.index + 1),
    }
}

/// What one whole step does: fetch the instruction the state's address
/// and index select and apply `step_inst_rel`; where the address or
/// index selects nothing, resume through the call stack, or report the
/// lookup failure when nothing was left to resume from. The architecture
/// tag never changes.
pub open spec fn step_rel(
    p: Program,
    pre: State,
    post: State,
    r: Result<(), StepError>,
) -> bool {
    let group = spec_insts_at(p, pre.addr);
    &&& post.arch == pre.arch
    &&& if group.len() == 0 || pre.index as int >= group.len() {
        &&& keeps_data(pre, post)
        &&& if pre.call_stack@.len() > 0 {
            pops_to_resume(pre, post) && r is Ok
        } else {
            keeps_flow(pre, post) && (r matches Err(e) && e is LookupFailure)
        }
    } else {
        step_inst_rel(p, pre, post, r, group[pre.index as int])
    }
}

impl<'a> Emulator<'a> {
    /// An emulator over the program, starting from the given state.
    pub fn new(program: &'a Program, state: State) -> (e: Emulator<'a>)
        ensures
            e.program == program,
            e.state == state,
    {
        Emulator { program, state }
    }

    /// An emulator whose state sits at the first instruction of the
    /// function carrying the given name, or at address 0 when no function
    /// carries it; everything else starts as a fresh x86-64 state.
    fn start_at(program: &'a Program, name: &str) -> (e: Emulator<'a>)
        ensures
            e.program == program,
            e.state.index == 0,
            e.state.memory.map@ == Map::<u64, u64>::empty(),
            e.state.call_stack@ == Seq::<u64>::empty(),
            e.state.arch == ARCH_X86_64,
            e.state.regs.arm is None,
            e.state.regs.aarch64 is None,
            (e.state.regs.x64 matches Some(x) && x.is_default()),
            ({
                let ni = func_named_from(program.functions@, name@, 0);
                if ni < program.functions@.len() {
                    e.state.addr == spec_llil_start(program.functions@[ni])
                } else {
                    e.state.addr == 0
                }
            }),
    {
        let mut state = State::new("x86_64".to_owned());
        let ghost funcs: Seq<crate::program::Function> = program.functions@;
        let mut fi: usize = 0;
        while fi < program.functions.len()
            invariant
                fi <= funcs.len(),
                funcs == program.functions@,
                func_named_from(funcs, name@, 0) == func_named_from(funcs, name@, fi as int),
                state.index == 0,
                state.memory.map@ == Map::<u64, u64>::empty(),
                state.call_stack@ == Seq::<u64>::empty(),
                state.arch == ARCH_X86_64,
                state.regs.arm is None,
                state.regs.aarch64 is None,
                (state.regs.x64 matches Some(x) && x.is_default()),
                state.addr == 0,
            decreases funcs.len() - fi,
        {
            if string_is(&program.functions[fi].name, name) {
                state.addr = program.functions[fi].llil_start();
                return Emulator { program, state };
            }
            fi = fi + 1;
        }
        Emulator { program, state }
    }

    /// An emulator parked at the program's `_start` function, or at
    /// address 0 when the program has none.
    pub fn entry(program: &'a Program) -> (e: Emulator<'a>)
        ensures
            e.program == program,
            e.state.index == 0,
            e.state.memory.map@ == Map::<u64, u64>::empty(),
            e.state.call_stack@ == Seq::<u64>::empty(),
            e.state.arch == ARCH_X86_64,
            (e.state.regs.x64 matches Some(x) && x.is_default()),
            ({
                let ni = func_named_from(program.functions@, "_start"@, 0);
                if ni < program.functions@.len() {
                    e.state.addr == spec_llil_start(program.functions@[ni])
                } else {
                    e.state.addr == 0
                }
            }),
    {
        Self::start_at(program, "_start")
    }

    /// An emulator parked at the program's `main` function, or at address
    /// 0 when the program has none.
    pub fn main(program: &'a Program) -> (e: Emulator<'a>)
        ensures
            e.program == program,
            e.state.index == 0,
            e.state.memory.map@ == Map::<u64, u64>::empty(),
            e.state.call_stack@ == Seq::<u64>::empty(),
            e.state.arch == ARCH_X86_64,
            (e.state.regs.x64 matches Some(x) && x.is_default()),
            ({
                let ni = func_named_from(program.functions@, "main"@, 0);
                if ni < program.functions@.len() {
                    e.state.addr == spec_llil_start(program.functions@[ni])
                } else {
                    e.state.addr == 0
                }
            }),
    {
        Self::start_at(program, "main")
    }

    /// Moves control past a non-branching instruction: to `next_index`
    /// within the current group, else to the instruction after the group,
    /// else back through the call stack; reports the lookup failure when
    /// nothing was left to resume from. Only control fields change.
    fn advance_seq(&mut self, next_index: usize) -> (r: Result<(), StepError>)
        ensures
            final(self).program == old(self).program,
            final(self).state.regs == old(self).state.regs,
            final(self).state.memory == old(self).state.memory,
            final(self).state.stdin == old(self).state.stdin,
            final(self).state.arch == old(self).state.arch,
            seq_flow(
                *old(self).program,
                old(self).state,
                final(self).state,
                r,
                next_index as int,
            ),
    {
        let p = self.program;
        let glen = p.group_len(self.state.addr);
        if next_index < glen {
            self.state.index = next_index;
            return Ok(());
        }
        let next = match p.inst_after(self.state.addr) {
            Ok(inst) => Some(inst.addr),
            Err(_) => None,
        };
        match next {
            Some(a) => {
                self.state.addr = a;
                self.state.index = 0;
                Ok(())
            },
            None => {
                match self.state.call_stack.pop() {
                    Some(ra) => {
                        self.state.addr = ra;
                        self.state.index = 0;
                        Ok(())
                    },
                    None => Err(StepError::LookupFailure),
                }
            },
        }
    }

    /// Applies the instruction the state's address and index select and
    /// advances control, as `step_rel` lays out.
    #[verifier::rlimit(60)]
    pub fn step(&mut self) -> (r: Result<(), StepError>)
        ensures
            final(self).program == old(self).program,
            step_rel(*old(self).program, old(self).state, final(self).state, r),
    {
        let p = self.program;
        let addr = self.state.addr;
        let idx = self.state.index;
        let glen = p.group_len(addr);
        if glen == 0 || idx >= glen {
            return match self.state.call_stack.pop() {
                Some(ra) => {
                    self.state.addr = ra;
                    self.state.index = 0;
                    Ok(())
                },
                None => Err(StepError::LookupFailure),
            };
        }
        let inst = match p.nth_at_addr(addr, idx) {
            Some(inst) => inst,
            None => {
                proof {
                    assert(false);
                }
                return Err(StepError::LookupFailure);
            },
        };
        match &inst.llil {
            LlilInst::SetReg(sr) => {
                let v = eval_expression(&sr.expr, &self.state);
                let arch = self.state.arch;
                self.state.regs.set(sr.reg.clone(), v, arch);
                self.advance_seq(idx + 1)
            },
            LlilInst::SetRegSplit(sp) => {
                let v = eval_expression(&sp.source_expr, &self.state);
                let lo = v & 0xffff_ffff;
                let hi = v >> 32u64;
                let arch = self.state.arch;
                self.state.regs.set(sp.dest_reg_low.clone(), lo, arch);
                let ghost mid = self.state.regs;
                self.state.regs.set(sp.dest_reg_high.clone(), hi, arch);
                proof {
                    assert(registers_set_rel(
                        old(self).state.regs,
                        mid,
                        sp.dest_reg_low@,
                        spec_eval(sp.source_expr, old(self).state) & 0xffff_ffff,
                        old(self).state.arch,
                    ));
                }
                self.advance_seq(idx + 1)
            },
            LlilInst::Store(st) => {
                let val = eval_expression(&st.source_expr, &self.state);
                let dest = eval_expression(&st.dest_mem_expr, &self.state);
                self.state.memory.store(dest, val);
                self.advance_seq(idx + 1)
            },
            LlilInst::Push(ps) => {
                let v = eval_expression(&ps.expr, &self.state);
                let arch = self.state.arch;
                let sp_val = self.state.regs.get_stack_pointer(arch);
                self.state.memory.store(sp_val, v);
                self.state.regs.set("rsp".to_owned(), sub64(sp_val, 8), arch);
                self.advance_seq(idx + 1)
            },
            LlilInst::If(iff) => {
                let c = eval_expression(&iff.condition, &self.state);
                if c == 0 {
                    self.state.addr = iff.target_false;
                } else {
                    self.state.addr = iff.target_true;
                }
                self.state.index = 0;
                Ok(())
            },
            LlilInst::Jump(j) => {
                self.state.addr = j.addr;
                self.state.index = 0;
                Ok(())
            },
            LlilInst::JumpTo(j) => {
                self.state.addr = j.addr;
                self.state.index = 0;
                Ok(())
            },
            LlilInst::Call(cl) => {
                let t = eval_expression(&cl.target, &self.state);
                match p.function_at(t) {
                    Ok(f) => {
                        if is_stub_name_exec(&f.name) {
                            crate::procedures::call(f.name.clone(), &mut self.state);
                            let ghost mid = self.state;
                            let r = self.advance_seq(idx + 1);
                            proof {
                                assert(spec_call_effect(
                                    f.name@,
                                    old(self).state,
                                    mid,
                                ));
                            }
                            r
                        } else {
                            match p.inst_after(addr) {
                                Ok(nxt) => {
                                    let ra = nxt.addr;
                                    self.state.call_stack.push(ra);
                                    self.state.addr = add64(t, 4);
                                    self.state.index = 0;
                                    Ok(())
                                },
                                Err(_) => Err(StepError::LookupFailure),
                            }
                        }
                    },
                    Err(_) => Err(StepError::CallTargetUnresolved),
                }
            },
            LlilInst::Ret(_) => {
                match self.state.call_stack.pop() {
                    Some(ra) => {
                        self.state.addr = ra;
                        self.state.index = 0;
                        Ok(())
                    },
                    None => Err(StepError::Blocked),
                }
            },
            LlilInst::Goto(g) => {
                let target = g.target;
                self.advance_seq(target)
            },
            LlilInst::SetFlag(_) => self.advance_seq(idx + 1),
            LlilInst::Nop => self.advance_seq(idx + 1),
            LlilInst::NoRet => self.advance_seq(idx + 1),
            LlilInst::Syscall => self.advance_seq(idx + 1),
            LlilInst::Bp => self.advance_seq(idx + 1),
            LlilInst::Trap => self.advance_seq(idx + 1),
            LlilInst::Undef => self.advance_seq(idx + 1),
        }
    }
}

/// A `Goto` whose target lies inside the current instruction group lands
/// the index exactly on that target, at the same address, after the
/// engine's automatic post-instruction advance.
pub proof fn lemma_goto_lands(
    p: Program,
    pre: State,
    post: State,
    r: Result<(), StepError>,
    g: crate::program::Goto,
)
    requires
        step_rel(p, pre, post, r),
        (pre.index as int) < spec_insts_at(p, pre.addr).len(),
        spec_insts_at(p, pre.addr)[pre.index as int].llil matches LlilInst::Goto(g2) && g2 == g,
        (g.target as int) < spec_insts_at(p, pre.addr).len(),
    ensures
        post.addr == pre.addr,
        post.index == g.target,
        r is Ok,
{
}

/// A `Push` stores the evaluated operand at the address the stack
/// pointer held before the push, and lowers the stack pointer by exactly
/// 8, wrapping modulo 2^64.
pub proof fn lemma_push_effect(
    p: Program,
    pre: State,
    post: State,
    r: Result<(), StepError>,
    ps: crate::program::Push,
)
    requires
        step_rel(p, pre, post, r),
        (pre.index as int) < spec_insts_at(p, pre.addr).len(),
        spec_insts_at(p, pre.addr)[pre.index as int].llil matches LlilInst::Push(ps2) && ps2
            == ps,
    ensures
        post.memory.map@ == pre.memory.map@.insert(
            spec_registers_get(pre.regs, "rsp"@, pre.arch),
            spec_eval(ps.expr, pre),
        ),
        registers_set_rel(
            pre.regs,
            post.regs,
            "rsp"@,
            wrap_sub(spec_registers_get(pre.regs, "rsp"@, pre.arch), 8),
            pre.arch,
        ),
{
}

} // verus!
