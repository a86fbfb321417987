//! The symbolic step engine: the same step discipline as the concrete
//! engine, but expressions evaluate to bitvector values. An operation
//! over a symbolic operand stays symbolic, a store through a symbolic
//! address is skipped rather than guessed, and a branch on a symbolic
//! condition records the condition as a path constraint and follows the
//! true target.

use crate::bitvector::bv_val;
use crate::bitvector::bv_val64;
use crate::bitvector::combine64;
use crate::bitvector::combine64_3;
use crate::bitvector::spec_combine;
use crate::bitvector::spec_combine3;
use crate::bitvector::BV;
use crate::bitvector::BVS;
use crate::bitvector::BVV;
use crate::emulator::StepError;
use crate::expression::add64;
use crate::expression::as_signed;
use crate::expression::div64;
use crate::expression::mod64;
use crate::expression::mul64;
use crate::expression::shl64;
use crate::expression::shr64;
use crate::expression::signed_lt;
use crate::expression::spec_div;
use crate::expression::spec_mod;
use crate::expression::spec_shl;
use crate::expression::spec_shr;
use crate::expression::sub64;
use crate::expression::wrap_add;
use crate::expression::wrap_mul;
use crate::expression::wrap_sub;
use crate::expression::Expr;
use crate::expression::UNMODELED_VALUE;
use crate::procedures::is_stub_name;
use crate::procedures::is_stub_name_exec;
use crate::procedures::STUB_ATOI_RESULT;
use crate::procedures::STUB_STRLEN_RESULT;
use crate::program::func_at_from;
use crate::program::func_named_from;
use crate::program::spec_inst_after;
use crate::program::spec_insts_at;
use crate::program::spec_llil_start;
use crate::program::Inst;
use crate::program::LlilInst;
use crate::program::Program;
use crate::state::string_is;
use crate::symbolic_state::spec_sym_reg_get;
use crate::symbolic_state::sym_reg_set_rel;
use crate::symbolic_state::Regsx64;
use crate::symbolic_state::SymbolicState;
use vstd::prelude::*;

verus! {

/// Marks a ghost value handed to an existential as its witness, so the
/// prover can find it.
pub open spec fn witnessed<T>(x: T) -> bool {
    true
}

/// A concrete 64-bit bitvector.
pub open spec fn conc(v: u64) -> BV {
    BV::Concrete(BVV { size: 64, value: v })
}

/// What an expression evaluates to under a symbolic state. A constant is
/// concrete; a register read is whatever the register file holds; a
/// binary operation over two concrete operands computes the concrete
/// result under the concrete evaluator's semantics, and over anything
/// else yields a fresh symbolic value; nodes outside the modeled
/// vocabulary yield the concrete default.
pub open spec fn spec_eval_sym(e: Expr, s: SymbolicState) -> BV
    decreases e,
{
    match e {
        Expr::Value(v) => conc(v),
        Expr::Reg(r) => spec_sym_reg_get(s.regs, r.name@),
        Expr::Load(l) => spec_eval_sym(*l.source_mem, s),
        Expr::CmpE(c) => {
            let l = spec_eval_sym(*c.left, s);
            let r = spec_eval_sym(*c.right, s);
            spec_combine(l, r, if bv_val(l) == bv_val(r) { 1 } else { 0 })
        },
        Expr::CmpNe(c) => {
            let l = spec_eval_sym(*c.left, s);
            let r = spec_eval_sym(*c.right, s);
            spec_combine(l, r, if bv_val(l) != bv_val(r) { 1 } else { 0 })
        },
        Expr::CmpSlt(c) => {
            let l = spec_eval_sym(*c.left, s);
            let r = spec_eval_sym(*c.right, s);
            spec_combine(l, r, if as_signed(bv_val(l)) < as_signed(bv_val(r)) { 1 } else { 0 })
        },
        Expr::CmpSle(c) => {
            let l = spec_eval_sym(*c.left, s);
            let r = spec_eval_sym(*c.right, s);
            spec_combine(l, r, if as_signed(bv_val(l)) <= as_signed(bv_val(r)) { 1 } else { 0 })
        },
        Expr::CmpSge(c) => {
            let l = spec_eval_sym(*c.left, s);
            let r = spec_eval_sym(*c.right, s);
            spec_combine(l, r, if as_signed(bv_val(l)) >= as_signed(bv_val(r)) { 1 } else { 0 })
        },
        Expr::CmpSgt(c) => {
            let l = spec_eval_sym(*c.left, s);
            let r = spec_eval_sym(*c.right, s);
            spec_combine(l, r, if as_signed(bv_val(l)) > as_signed(bv_val(r)) { 1 } else { 0 })
        },
        Expr::CmpUlt(c) => {
            let l = spec_eval_sym(*c.left, s);
            let r = spec_eval_sym(*c.right, s);
            spec_combine(l, r, if bv_val(l) < bv_val(r) { 1 } else { 0 })
        },
        Expr::CmpUle(c) => {
            let l = spec_eval_sym(*c.left, s);
            let r = spec_eval_sym(*c.right, s);
            spec_combine(l, r, if bv_val(l) <= bv_val(r) { 1 } else { 0 })
        },
        Expr::CmpUge(c) => {
            let l = spec_eval_sym(*c.left, s);
            let r = spec_eval_sym(*c.right, s);
            spec_combine(l, r, if bv_val(l) >= bv_val(r) { 1 } else { 0 })
        },
        Expr::CmpUgt(c) => {
            let l = spec_eval_sym(*c.left, s);
            let r = spec_eval_sym(*c.right, s);
            spec_combine(l, r, if bv_val(l) > bv_val(r) { 1 } else { 0 })
        },
        Expr::Add(a) => {
            let l = spec_eval_sym(*a.left, s);
            let r = spec_eval_sym(*a.right, s);
            spec_combine(l, r, wrap_add(bv_val(l), bv_val(r)))
        },
        Expr::Sub(a) => {
            let l = spec_eval_sym(*a.left, s);
            let r = spec_eval_sym(*a.right, s);
            spec_combine(l, r, wrap_sub(bv_val(l), bv_val(r)))
        },
        Expr::And(a) => {
            let l = spec_eval_sym(*a.left, s);
            let r = spec_eval_sym(*a.right, s);
            spec_combine(l, r, bv_val(l) & bv_val(r))
        },
        Expr::Or(a) => {
            let l = spec_eval_sym(*a.left, s);
            let r = spec_eval_sym(*a.right, s);
            spec_combine(l, r, bv_val(l) | bv_val(r))
        },
        Expr::Xor(a) => {
            let l = spec_eval_sym(*a.left, s);
            let r = spec_eval_sym(*a.right, s);
            spec_combine(l, r, bv_val(l) ^ bv_val(r))
        },
        Expr::Mul(a) => {
            let l = spec_eval_sym(*a.left, s);
            let r = spec_eval_sym(*a.right, s);
            spec_combine(l, r, wrap_mul(bv_val(l), bv_val(r)))
        },
        Expr::Divu(a) => {
            let l = spec_eval_sym(*a.left, s);
            let r = spec_eval_sym(*a.right, s);
            spec_combine(l, r, spec_div(bv_val(l), bv_val(r)))
        },
        Expr::Divs(a) => {
            let l = spec_eval_sym(*a.left, s);
            let r = spec_eval_sym(*a.right, s);
            spec_combine(l, r, spec_div(bv_val(l), bv_val(r)))
        },
        Expr::Modu(a) => {
            let l = spec_eval_sym(*a.left, s);
            let r = spec_eval_sym(*a.right, s);
            spec_combine(l, r, spec_mod(bv_val(l), bv_val(r)))
        },
        Expr::Mods(a) => {
            let l = spec_eval_sym(*a.left, s);
            let r = spec_eval_sym(*a.right, s);
            spec_combine(l, r, spec_mod(bv_val(l), bv_val(r)))
        },
        Expr::Lsl(a) => {
            let l = spec_eval_sym(*a.left, s);
            let r = spec_eval_sym(*a.right, s);
            spec_combine(l, r, spec_shl(bv_val(l), bv_val(r)))
        },
        Expr::Lsr(a) => {
            let l = spec_eval_sym(*a.left, s);
            let r = spec_eval_sym(*a.right, s);
            spec_combine(l, r, spec_shr(bv_val(l), bv_val(r)))
        },
        Expr::Asr(a) => {
            let l = spec_eval_sym(*a.left, s);
            let r = spec_eval_sym(*a.right, s);
            spec_combine(l, r, spec_shl(bv_val(l), bv_val(r)))
        },
        Expr::Rol(a) => {
            let l = spec_eval_sym(*a.left, s);
            let r = spec_eval_sym(*a.right, s);
            spec_combine(l, r, spec_shl(bv_val(l), bv_val(r)))
        },
        Expr::Ror(a) => {
            let l = spec_eval_sym(*a.left, s);
            let r = spec_eval_sym(*a.right, s);
            spec_combine(l, r, spec_shr(bv_val(l), bv_val(r)))
        },
        Expr::MulsDp(a) => {
            let l = spec_eval_sym(*a.left, s);
            let r = spec_eval_sym(*a.right, s);
            spec_combine(l, r, wrap_mul(bv_val(l), bv_val(r)))
        },
        Expr::MuluDp(a) => {
            let l = spec_eval_sym(*a.left, s);
            let r = spec_eval_sym(*a.right, s);
            spec_combine(l, r, wrap_mul(bv_val(l), bv_val(r)))
        },
        Expr::DivuDp(d) => spec_combine3(
            spec_eval_sym(*d.high, s),
            spec_eval_sym(*d.low, s),
            spec_eval_sym(*d.right, s),
            UNMODELED_VALUE,
        ),
        Expr::DivsDp(d) => spec_combine3(
            spec_eval_sym(*d.high, s),
            spec_eval_sym(*d.low, s),
            spec_eval_sym(*d.right, s),
            UNMODELED_VALUE,
        ),
        Expr::ModuDp(d) => spec_combine3(
            spec_eval_sym(*d.high, s),
            spec_eval_sym(*d.low, s),
            spec_eval_sym(*d.right, s),
            UNMODELED_VALUE,
        ),
        Expr::ModsDp(d) => spec_combine3(
            spec_eval_sym(*d.high, s),
            spec_eval_sym(*d.low, s),
            spec_eval_sym(*d.right, s),
            UNMODELED_VALUE,
        ),
        Expr::Flag(_) => conc(UNMODELED_VALUE),
        Expr::Undef(_) => conc(UNMODELED_VALUE),
    }
}

/// Evaluates an expression to a bitvector under a symbolic state.
#[verifier::rlimit(100)]
pub fn eval_symbolic(expr: &Expr, state: &SymbolicState) -> (r: BV)
    ensures
        r == spec_eval_sym(*expr, *state),
    decreases *expr,
{
    match expr {
        Expr::Value(v) => BV::Concrete(BVV { size: 64, value: *v }),
        Expr::Reg(r) => state.regs.get(r.name.clone()),
        Expr::Load(l) => eval_symbolic(&l.source_mem, state),
        Expr::CmpE(c) => {
            let l = eval_symbolic(&c.left, state);
            let r = eval_symbolic(&c.right, state);
            let v: u64 = if bv_val64(&l) == bv_val64(&r) {
                1
            } else {
                0
            };
            combine64(&l, &r, v)
        },
        Expr::CmpNe(c) => {
            let l = eval_symbolic(&c.left, state);
            let r = eval_symbolic(&c.right, state);
            let v: u64 = if bv_val64(&l) != bv_val64(&r) {
                1
            } else {
                0
            };
            combine64(&l, &r, v)
        },
        Expr::CmpSlt(c) => {
            let l = eval_symbolic(&c.left, state);
            let r = eval_symbolic(&c.right, state);
            let v: u64 = if signed_lt(bv_val64(&l), bv_val64(&r)) {
                1
            } else {
                0
            };
            combine64(&l, &r, v)
        },
        Expr::CmpSle(c) => {
            let l = eval_symbolic(&c.left, state);
            let r = eval_symbolic(&c.right, state);
            let v: u64 = if signed_lt(bv_val64(&r), bv_val64(&l)) {
                0
            } else {
                1
            };
            combine64(&l, &r, v)
        },
        Expr::CmpSge(c) => {
            let l = eval_symbolic(&c.left, state);
            let r = eval_symbolic(&c.right, state);
            let v: u64 = if signed_lt(bv_val64(&l), bv_val64(&r)) {
                0
            } else {
                1
            };
            combine64(&l, &r, v)
        },
        Expr::CmpSgt(c) => {
            let l = eval_symbolic(&c.left, state);
            let r = eval_symbolic(&c.right, state);
            let v: u64 = if signed_lt(bv_val64(&r), bv_val64(&l)) {
                1
            } else {
                0
            };
            combine64(&l, &r, v)
        },
        Expr::CmpUlt(c) => {
            let l = eval_symbolic(&c.left, state);
            let r = eval_symbolic(&c.right, state);
            let v: u64 = if bv_val64(&l) < bv_val64(&r) {
                1
            } else {
                0
            };
            combine64(&l, &r, v)
        },
        Expr::CmpUle(c) => {
            let l = eval_symbolic(&c.left, state);
            let r = eval_symbolic(&c.right, state);
            let v: u64 = if bv_val64(&l) <= bv_val64(&r) {
                1
            } else {
                0
            };
            combine64(&l, &r, v)
        },
        Expr::CmpUge(c) => {
            let l = eval_symbolic(&c.left, state);
            let r = eval_symbolic(&c.right, state);
            let v: u64 = if bv_val64(&l) >= bv_val64(&r) {
                1
            } else {
                0
            };
            combine64(&l, &r, v)
        },
        Expr::CmpUgt(c) => {
            let l = eval_symbolic(&c.left, state);
            let r = eval_symbolic(&c.right, state);
            let v: u64 = if bv_val64(&l) > bv_val64(&r) {
                1
            } else {
                0
            };
            combine64(&l, &r, v)
        },
        Expr::Add(a) => {
            let l = eval_symbolic(&a.left, state);
            let r = eval_symbolic(&a.right, state);
            let v = add64(bv_val64(&l), bv_val64(&r));
            combine64(&l, &r, v)
        },
        Expr::Sub(a) => {
            let l = eval_symbolic(&a.left, state);
            let r = eval_symbolic(&a.right, state);
            let v = sub64(bv_val64(&l), bv_val64(&r));
            combine64(&l, &r, v)
        },
        Expr::And(a) => {
            let l = eval_symbolic(&a.left, state);
            let r = eval_symbolic(&a.right, state);
            let v = bv_val64(&l) & bv_val64(&r);
            combine64(&l, &r, v)
        },
        Expr::Or(a) => {
            let l = eval_symbolic(&a.left, state);
            let r = eval_symbolic(&a.right, state);
            let v = bv_val64(&l) | bv_val64(&r);
            combine64(&l, &r, v)
        },
        Expr::Xor(a) => {
            let l = eval_symbolic(&a.left, state);
            let r = eval_symbolic(&a.right, state);
            let v = bv_val64(&l) ^ bv_val64(&r);
            combine64(&l, &r, v)
        },
        Expr::Mul(a) => {
            let l = eval_symbolic(&a.left, state);
            let r = eval_symbolic(&a.right, state);
            let v = mul64(bv_val64(&l), bv_val64(&r));
            combine64(&l, &r, v)
        },
        Expr::Divu(a) => {
            let l = eval_symbolic(&a.left, state);
            let r = eval_symbolic(&a.right, state);
            let v = div64(bv_val64(&l), bv_val64(&r));
            combine64(&l, &r, v)
        },
        Expr::Divs(a) => {
            let l = eval_symbolic(&a.left, state);
            let r = eval_symbolic(&a.right, state);
            let v = div64(bv_val64(&l), bv_val64(&r));
            combine64(&l, &r, v)
        },
        Expr::Modu(a) => {
            let l = eval_symbolic(&a.left, state);
            let r = eval_symbolic(&a.right, state);
            let v = mod64(bv_val64(&l), bv_val64(&r));
            combine64(&l, &r, v)
        },
        Expr::Mods(a) => {
            let l = eval_symbolic(&a.left, state);
            let r = eval_symbolic(&a.right, state);
            let v = mod64(bv_val64(&l), bv_val64(&r));
            combine64(&l, &r, v)
        },
        Expr::Lsl(a) => {
            let l = eval_symbolic(&a.left, state);
            let r = eval_symbolic(&a.right, state);
            let v = shl64(bv_val64(&l), bv_val64(&r));
            combine64(&l, &r, v)
        },
        Expr::Lsr(a) => {
            let l = eval_symbolic(&a.left, state);
            let r = eval_symbolic(&a.right, state);
            let v = shr64(bv_val64(&l), bv_val64(&r));
            combine64(&l, &r, v)
        },
        Expr::Asr(a) => {
            let l = eval_symbolic(&a.left, state);
            let r = eval_symbolic(&a.right, state);
            let v = shl64(bv_val64(&l), bv_val64(&r));
            combine64(&l, &r, v)
        },
        Expr::Rol(a) => {
            let l = eval_symbolic(&a.left, state);
            let r = eval_symbolic(&a.right, state);
            let v = shl64(bv_val64(&l), bv_val64(&r));
            combine64(&l, &r, v)
        },
        Expr::Ror(a) => {
            let l = eval_symbolic(&a.left, state);
            let r = eval_symbolic(&a.right, state);
            let v = shr64(bv_val64(&l), bv_val64(&r));
            combine64(&l, &r, v)
        },
        Expr::MulsDp(a) => {
            let l = eval_symbolic(&a.left, state);
            let r = eval_symbolic(&a.right, state);
            let v = mul64(bv_val64(&l), bv_val64(&r));
            combine64(&l, &r, v)
        },
        Expr::MuluDp(a) => {
            let l = eval_symbolic(&a.left, state);
            let r = eval_symbolic(&a.right, state);
            let v = mul64(bv_val64(&l), bv_val64(&r));
            combine64(&l, &r, v)
        },
        Expr::DivuDp(d) => {
            let h = eval_symbolic(&d.high, state);
            let l = eval_symbolic(&d.low, state);
            let r = eval_symbolic(&d.right, state);
            combine64_3(&h, &l, &r, UNMODELED_VALUE)
        },
        Expr::DivsDp(d) => {
            let h = eval_symbolic(&d.high, state);
            let l = eval_symbolic(&d.low, state);
            let r = eval_symbolic(&d.right, state);
            combine64_3(&h, &l, &r, UNMODELED_VALUE)
        },
        Expr::ModuDp(d) => {
            let h = eval_symbolic(&d.high, state);
            let l = eval_symbolic(&d.low, state);
            let r = eval_symbolic(&d.right, state);
            combine64_3(&h, &l, &r, UNMODELED_VALUE)
        },
        Expr::ModsDp(d) => {
            let h = eval_symbolic(&d.high, state);
            let l = eval_symbolic(&d.low, state);
            let r = eval_symbolic(&d.right, state);
            combine64_3(&h, &l, &r, UNMODELED_VALUE)
        },
        Expr::Flag(_) => BV::Concrete(BVV { size: 64, value: UNMODELED_VALUE }),
        Expr::Undef(_) => BV::Concrete(BVV { size: 64, value: UNMODELED_VALUE }),
    }
}

/// One symbolic execution run: the program it walks and the symbolic
/// state it owns exclusively.
pub struct SymbolicExecutor<'a> {
    pub program: &'a Program,
    pub state: SymbolicState,
}

/// The registers, memory and input buffer of the symbolic state are
/// unchanged.
pub open spec fn sym_keeps_data(pre: SymbolicState, post: SymbolicState) -> bool {
    &&& post.regs == pre.regs
    &&& post.memory == pre.memory
    &&& post.stdin == pre.stdin
}

/// The address, index and call stack of the symbolic state are
/// unchanged.
pub open spec fn sym_keeps_flow(pre: SymbolicState, post: SymbolicState) -> bool {
    &&& post.addr == pre.addr
    &&& post.index == pre.index
    &&& post.call_stack@ == pre.call_stack@
}

/// The gathered path constraints are unchanged.
pub open spec fn sym_same_constraints(pre: SymbolicState, post: SymbolicState) -> bool {
    post.constraints@ == pre.constraints@
}

/// Control resumes at the most recently pushed return address.
pub open spec fn sym_pops_to_resume(pre: SymbolicState, post: SymbolicState) -> bool {
    &&& pre.call_stack@.len() > 0
    &&& post.addr == pre.call_stack@.last()
    &&& post.index == 0
    &&& post.call_stack@ == pre.call_stack@.drop_last()
}

/// How control moves after a non-branching instruction, exactly as in
/// the concrete engine.
pub open spec fn sym_seq_flow(
    p: Program,
    pre: SymbolicState,
    post: SymbolicState,
    r: Result<(), StepError>,
    next_index: int,
) -> bool {
    let group = spec_insts_at(p, pre.addr);
    if 0 <= next_index < group.len() {
        &&& post.addr == pre.addr
        &&& post.index == next_index
        &&& post.call_stack@ == pre.call_stack@
        &&& r is Ok
    } else {
        match spec_inst_after(p, pre.addr) {
            Some(inst) => {
                &&& post.addr == inst.addr
                &&& post.index == 0
                &&& post.call_stack@ == pre.call_stack@
                &&& r is Ok
            },
            None => {
                if pre.call_stack@.len() > 0 {
                    sym_pops_to_resume(pre, post) && r is Ok
                } else {
                    sym_keeps_flow(pre, post) && (r matches Err(e) && e is LookupFailure)
                }
            },
        }
    }
}

/// How dispatching a stub name changes the symbolic state: the known
/// names write their fixed concrete results into the return-value
/// register, `fgets` also overwrites the input buffer; everything else
/// stands.
pub open spec fn sym_call_effect(
    name: Seq<char>,
    pre: SymbolicState,
    post: SymbolicState,
) -> bool {
    &&& post.addr == pre.addr
    &&& post.index == pre.index
    &&& post.memory == pre.memory
    &&& post.call_stack@ == pre.call_stack@
    &&& sym_same_constraints(pre, post)
    &&& if name == "puts"@ || name == "printf"@ {
        sym_reg_set_rel(pre.regs, post.regs, "rax"@, conc(0)) && post.stdin == pre.stdin
    } else if name == "fgets"@ {
        sym_reg_set_rel(pre.regs, post.regs, "rax"@, conc(0)) && post.stdin@ == "1234"@
    } else if name == "strlen"@ {
        sym_reg_set_rel(pre.regs, post.regs, "rax"@, conc(STUB_STRLEN_RESULT)) && post.stdin
            == pre.stdin
    } else if name == "atoi"@ {
        sym_reg_set_rel(pre.regs, post.regs, "rax"@, conc(STUB_ATOI_RESULT)) && post.stdin
            == pre.stdin
    } else {
        post.regs == pre.regs && post.stdin == pre.stdin
    }
}

/// What one fetched instruction does to the symbolic state: the concrete
/// engine's discipline, with bitvector values, a skipped store wherever
/// an address or value is not concrete, and a recorded constraint at a
/// branch on a symbolic condition.
#[verifier::opaque]
pub open spec fn sym_step_inst_rel(
    p: Program,
    pre: SymbolicState,
    post: SymbolicState,
    r: Result<(), StepError>,
    inst: Inst,
) -> bool {
    match inst.llil {
        LlilInst::SetReg(sr) => {
            &&& sym_reg_set_rel(pre.regs, post.regs, sr.reg@, spec_eval_sym(sr.expr, pre))
            &&& post.memory == pre.memory
            &&& post.stdin == pre.stdin
            &&& sym_same_constraints(pre, post)
            &&& sym_seq_flow(p, pre, post, r, pre.index + 1)
        },
        LlilInst::SetRegSplit(sp) => {
            let v = spec_eval_sym(sp.source_expr, pre);
            let lo = if v is Concrete {
                BV::Concrete(BVV { size: 32, value: bv_val(v) & 0xffff_ffff })
            } else {
                BV::Symbolic(BVS { size: 32 })
            };
            let hi = if v is Concrete {
                BV::Concrete(BVV { size: 32, value: bv_val(v) >> 32u64 })
            } else {
                BV::Symbolic(BVS { size: 32 })
            };
            &&& (exists|mid: Regsx64|
                #[trigger] witnessed(mid) && sym_reg_set_rel(
                    pre.regs,
                    mid,
                    sp.dest_reg_low@,
                    lo,
                ) && sym_reg_set_rel(mid, post.regs, sp.dest_reg_high@, hi))
            &&& post.memory == pre.memory
            &&& post.stdin == pre.stdin
            &&& sym_same_constraints(pre, post)
            &&& sym_seq_flow(p, pre, post, r, pre.index + 1)
        },
        LlilInst::Store(st) => {
            let d = spec_eval_sym(st.dest_mem_expr, pre);
            let v = spec_eval_sym(st.source_expr, pre);
            &&& post.memory.map@ == (if d is Concrete && v is Concrete {
                pre.memory.map@.insert(bv_val(d), bv_val(v))
            } else {
                pre.memory.map@
            })
            &&& post.regs == pre.regs
            &&& post.stdin == pre.stdin
            &&& sym_same_constraints(pre, post)
            &&& sym_seq_flow(p, pre, post, r, pre.index + 1)
        },
        LlilInst::Push(ps) => {
            let v = spec_eval_sym(ps.expr, pre);
            let sp = spec_sym_reg_get(pre.regs, "rsp"@);
            let new_sp = if sp is Concrete {
                conc(wrap_sub(bv_val(sp), 8))
            } else {
                BV::Symbolic(BVS { size: 64 })
            };
            &&& post.memory.map@ == (if sp is Concrete && v is Concrete {
                pre.memory.map@.insert(bv_val(sp), bv_val(v))
            } else {
                pre.memory.map@
            })
            &&& sym_reg_set_rel(pre.regs, post.regs, "rsp"@, new_sp)
            &&& post.stdin == pre.stdin
            &&& sym_same_constraints(pre, post)
            &&& sym_seq_flow(p, pre, post, r, pre.index + 1)
        },
        LlilInst::If(iff) => {
            let c = spec_eval_sym(iff.condition, pre);
            &&& sym_keeps_data(pre, post)
            &&& post.index == 0
            &&& post.call_stack@ == pre.call_stack@
            &&& r is Ok
            &&& if c is Concrete {
                post.addr == (if bv_val(c) == 0 { iff.target_false } else { iff.target_true })
                    && sym_same_constraints(pre, post)
            } else {
                post.addr == iff.target_true && post.constraints@ == pre.constraints@.push(c)
            }
        },
        LlilInst::Jump(j) => {
            &&& sym_keeps_data(pre, post)
            &&& sym_same_constraints(pre, post)
            &&& post.addr == j.addr
            &&& post.index == 0
            &&& post.call_stack@ == pre.call_stack@
            &&& r is Ok
        },
        LlilInst::JumpTo(j) => {
            &&& sym_keeps_data(pre, post)
            &&& sym_same_constraints(pre, post)
            &&& post.addr == j.addr
            &&& post.index == 0
            &&& post.call_stack@ == pre.call_stack@
            &&& r is Ok
        },
        LlilInst::Call(cl) => {
            let t = spec_eval_sym(cl.target, pre);
            if !(t is Concrete) {
                &&& sym_keeps_data(pre, post)
                &&& sym_keeps_flow(pre, post)
                &&& sym_same_constraints(pre, post)
                &&& (r matches Err(e) && e is CallTargetUnresolved)
            } else {
                let fa = func_at_from(p.functions@, bv_val(t), 0);
                if fa >= p.functions@.len() {
                    &&& sym_keeps_data(pre, post)
                    &&& sym_keeps_flow(pre, post)
                    &&& sym_same_constraints(pre, post)
                    &&& (r matches Err(e) && e is CallTargetUnresolved)
                } else {
                    let fname = p.functions@[fa].name@;
                    if is_stub_name(fname) {
                        &&& (exists|mid: SymbolicState|
                            #[trigger] witnessed(mid) && sym_call_effect(fname, pre, mid)
                                && post.regs == mid.regs && post.stdin == mid.stdin)
                        &&& post.memory == pre.memory
                        &&& sym_same_constraints(pre, post)
                        &&& sym_seq_flow(p, pre, post, r, pre.index + 1)
                    } else {
                        match spec_inst_after(p, pre.addr) {
                            Some(nxt) => {
                                &&& sym_keeps_data(pre, post)
                                &&& sym_same_constraints(pre, post)
                                &&& post.call_stack@ == pre.call_stack@.push(nxt.addr)
                                &&& post.addr == wrap_add(bv_val(t), 4)
                                &&& post.index == 0
                                &&& r is Ok
                            },
                            None => {
                                &&& sym_keeps_data(pre, post)
                                &&& sym_keeps_flow(pre, post)
                                &&& sym_same_constraints(pre, post)
                                &&& (r matches Err(e) && e is LookupFailure)
                            },
                        }
                    }
                }
            }
        },
        LlilInst::Ret(_) => {
            &&& sym_keeps_data(pre, post)
            &&& sym_same_constraints(pre, post)
            &&& if pre.call_stack@.len() > 0 {
                sym_pops_to_resume(pre, post) && r is Ok
            } else {
                sym_keeps_flow(pre, post) && (r matches Err(e) && e is Blocked)
            }
        },
        LlilInst::Goto(g) => {
            &&& sym_keeps_data(pre, post)
            &&& sym_same_constraints(pre, post)
            &&& sym_seq_flow(p, pre, post, r, g.target as int)
        },
        LlilInst::SetFlag(_) => {
            &&& sym_keeps_data(pre, post)
            &&& sym_same_constraints(pre, post)
            &&& sym_seq_flow(p, pre, post, r, pre.index + 1)
        },
        LlilInst::Nop => {
            &&& sym_keeps_data(pre, post)
            &&& sym_same_constraints(pre, post)
            &&& sym_seq_flow(p, pre, post, r, pre.index + 1)
        },
        LlilInst::NoRet => {
            &&& sym_keeps_data(pre, post)
            &&& sym_same_constraints(pre, post)
            &&& sym_seq_flow(p, pre, post, r, pre.index + 1)
        },
        LlilInst::Syscall => {
            &&& sym_keeps_data(pre, post)
            &&& sym_same_constraints(pre, post)
            &&& sym_seq_flow(p, pre, post, r, pre.index + 1)
        },
        LlilInst::Bp => {
            &&& sym_keeps_data(pre, post)
            &&& sym_same_constraints(pre, post)
            &&& sym_seq_flow(p, pre, post, r, pre.index + 1)
        },
        LlilInst::Trap => {
            &&& sym_keeps_data(pre, post)
            &&& sym_same_constraints(pre, post)
            &&& sym_seq_flow(p, pre, post, r, pre.index + 1)
        },
        LlilInst::Undef => {
            &&& sym_keeps_data(pre, post)
            &&& sym_same_constraints(pre, post)
            &&& sym_seq_flow(p, pre, post, r, pre.index + 1)
        },
    }
}

/// What one whole symbolic step does: fetch the instruction the state's
/// address and index select and apply `sym_step_inst_rel`; where nothing
/// is selected, resume through the call stack or report the lookup
/// failure.
pub open spec fn sym_step_rel(
    p: Program,
    pre: SymbolicState,
    post: SymbolicState,
    r: Result<(), StepError>,
) -> bool {
    let group = spec_insts_at(p, pre.addr);
    if group.len() == 0 || pre.index as int >= group.len() {
        &&& sym_keeps_data(pre, post)
        &&& sym_same_constraints(pre, post)
        &&& if pre.call_stack@.len() > 0 {
            sym_pops_to_resume(pre, post) && r is Ok
        } else {
            sym_keeps_flow(pre, post) && (r matches Err(e) && e is LookupFailure)
        }
    } else {
        sym_step_inst_rel(p, pre, post, r, group[pre.index as int])
    }
}

impl<'a> SymbolicExecutor<'a> {
    /// A symbolic run parked at the program's `_start` function, or at
    /// address 0 when the program has none; everything else starts as a
    /// fresh symbolic state.
    pub fn get_entry(program: &'a Program) -> (e: SymbolicExecutor<'a>)
        ensures
            e.program == program,
            e.state.index == 0,
            e.state.memory.map@ == Map::<u64, u64>::empty(),
            e.state.call_stack@ == Seq::<u64>::empty(),
            e.state.constraints@ == Seq::<BV>::empty(),
            e.state.regs.is_default(),
            ({
                let ni = func_named_from(program.functions@, "_start"@, 0);
                if ni < program.functions@.len() {
                    e.state.addr == spec_llil_start(program.functions@[ni])
                } else {
                    e.state.addr == 0
                }
            }),
    {
        Self::start_at(program, "_start")
    }

    /// A symbolic run parked at the program's `main` function, or at
    /// address 0 when the program has none.
    pub fn get_main(program: &'a Program) -> (e: SymbolicExecutor<'a>)
        ensures
            e.program == program,
            e.state.index == 0,
            e.state.memory.map@ == Map::<u64, u64>::empty(),
            e.state.call_stack@ == Seq::<u64>::empty(),
            e.state.constraints@ == Seq::<BV>::empty(),
            e.state.regs.is_default(),
            ({
                let ni = func_named_from(program.functions@, "main"@, 0);
                if ni < program.functions@.len() {
                    e.state.addr == spec_llil_start(program.functions@[ni])
                } else {
                    e.state.addr == 0
                }
            }),
    {
        Self::start_at(program, "main")
    }

    /// A symbolic run parked at the first instruction of the function
    /// carrying the given name, or at address 0 when no function carries
    /// it.
    fn start_at(program: &'a Program, name: &str) -> (e: SymbolicExecutor<'a>)
        ensures
            e.program == program,
            e.state.index == 0,
            e.state.memory.map@ == Map::<u64, u64>::empty(),
            e.state.call_stack@ == Seq::<u64>::empty(),
            e.state.constraints@ == Seq::<BV>::empty(),
            e.state.regs.is_default(),
            ({
                let ni = func_named_from(program.functions@, name@, 0);
                if ni < program.functions@.len() {
                    e.state.addr == spec_llil_start(program.functions@[ni])
                } else {
                    e.state.addr == 0
                }
            }),
    {
        let mut state = SymbolicState::new();
        let ghost funcs: Seq<crate::program::Function> = program.functions@;
        let mut fi: usize = 0;
        while fi < program.functions.len()
            invariant
                fi <= funcs.len(),
                funcs == program.functions@,
                func_named_from(funcs, name@, 0) == func_named_from(funcs, name@, fi as int),
                state.index == 0,
                state.memory.map@ == Map::<u64, u64>::empty(),
                state.call_stack@ == Seq::<u64>::empty(),
                state.constraints@ == Seq::<BV>::empty(),
                state.regs.is_default(),
                state.addr == 0,
            decreases funcs.len() - fi,
        {
            if string_is(&program.functions[fi].name, name) {
                state.addr = program.functions[fi].llil_start();
                return SymbolicExecutor { program, state };
            }
            fi = fi + 1;
        }
        SymbolicExecutor { program, state }
    }

    /// Moves control past a non-branching instruction, exactly as the
    /// concrete engine's advance. Only control fields change.
    fn advance_seq(&mut self, next_index: usize) -> (r: Result<(), StepError>)
        ensures
            final(self).program == old(self).program,
            final(self).state.regs == old(self).state.regs,
            final(self).state.memory == old(self).state.memory,
            final(self).state.stdin == old(self).state.stdin,
            final(self).state.constraints == old(self).state.constraints,
            sym_seq_flow(
                *old(self).program,
                old(self).state,
                final(self).state,
                r,
                next_index as int,
            ),
    {
        let p = self.program;
        let glen = p.group_len(self.state.addr);
        if next_index < glen {
            self.state.index = next_index;
            return Ok(());
        }
        let next = match p.inst_after(self.state.addr) {
            Ok(inst) => Some(inst.addr),
            Err(_) => None,
        };
        match next {
            Some(a) => {
                self.state.addr = a;
                self.state.index = 0;
                Ok(())
            },
            None => {
                match self.state.call_stack.pop() {
                    Some(ra) => {
                        self.state.addr = ra;
                        self.state.index = 0;
                        Ok(())
                    },
                    None => Err(StepError::LookupFailure),
                }
            },
        }
    }

    /// Applies the simulated effect of a stub callee to the symbolic
    /// state.
    fn call_stub(&mut self, name: String)
        ensures
            final(self).program == old(self).program,
            sym_call_effect(name@, old(self).state, final(self).state),
    {
        if string_is(&name, "puts") {
            let v = BV::Concrete(BVV { size: 64, value: 0 });
            self.state.regs.set("rax".to_owned(), v);
        } else if string_is(&name, "printf") {
            let v = BV::Concrete(BVV { size: 64, value: 0 });
            self.state.regs.set("rax".to_owned(), v);
        } else if string_is(&name, "fgets") {
            self.state.stdin = "1234".to_owned();
            let v = BV::Concrete(BVV { size: 64, value: 0 });
            self.state.regs.set("rax".to_owned(), v);
        } else if string_is(&name, "strlen") {
            let v = BV::Concrete(BVV { size: 64, value: STUB_STRLEN_RESULT });
            self.state.regs.set("rax".to_owned(), v);
        } else if string_is(&name, "atoi") {
            let v = BV::Concrete(BVV { size: 64, value: STUB_ATOI_RESULT });
            self.state.regs.set("rax".to_owned(), v);
        }
    }


    /// Applies a register assignment and advances.
    fn do_set_reg(&mut self, sr: &crate::program::SetReg) -> (r: Result<(), StepError>)
        requires
            old(self).state.index < usize::MAX,
        ensures
            final(self).program == old(self).program,
            sym_reg_set_rel(
                old(self).state.regs,
                final(self).state.regs,
                sr.reg@,
                spec_eval_sym(sr.expr, old(self).state),
            ),
            final(self).state.memory == old(self).state.memory,
            final(self).state.stdin == old(self).state.stdin,
            sym_same_constraints(old(self).state, final(self).state),
            sym_seq_flow(
                *old(self).program,
                old(self).state,
                final(self).state,
                r,
                old(self).state.index + 1,
            ),
    {
        let idx = self.state.index;
        let v = eval_symbolic(&sr.expr, &self.state);
        self.state.regs.set(sr.reg.clone(), v);
        self.advance_seq(idx + 1)
    }

    /// Applies a split register assignment and advances.
    fn do_set_reg_split(&mut self, sp: &crate::program::SetRegSplit) -> (r: Result<
        (),
        StepError,
    >)
        requires
            old(self).state.index < usize::MAX,
        ensures
            final(self).program == old(self).program,
            ({
                let v = spec_eval_sym(sp.source_expr, old(self).state);
                let lo = if v is Concrete {
                    BV::Concrete(BVV { size: 32, value: bv_val(v) & 0xffff_ffff })
                } else {
                    BV::Symbolic(BVS { size: 32 })
                };
                let hi = if v is Concrete {
                    BV::Concrete(BVV { size: 32, value: bv_val(v) >> 32u64 })
                } else {
                    BV::Symbolic(BVS { size: 32 })
                };
                exists|mid: Regsx64|
                    #[trigger] witnessed(mid) && sym_reg_set_rel(
                        old(self).state.regs,
                        mid,
                        sp.dest_reg_low@,
                        lo,
                    ) && sym_reg_set_rel(mid, final(self).state.regs, sp.dest_reg_high@, hi)
            }),
            final(self).state.memory == old(self).state.memory,
            final(self).state.stdin == old(self).state.stdin,
            sym_same_constraints(old(self).state, final(self).state),
            sym_seq_flow(
                *old(self).program,
                old(self).state,
                final(self).state,
                r,
                old(self).state.index + 1,
            ),
    {
        let idx = self.state.index;
        let v = eval_symbolic(&sp.source_expr, &self.state);
        let lo: BV = match &v {
            BV::Concrete(c) => BV::Concrete(BVV { size: 32, value: c.value & 0xffff_ffff }),
            _ => BV::Symbolic(BVS { size: 32 }),
        };
        let hi: BV = match &v {
            BV::Concrete(c) => BV::Concrete(BVV { size: 32, value: c.value >> 32u64 }),
            _ => BV::Symbolic(BVS { size: 32 }),
        };
        self.state.regs.set(sp.dest_reg_low.clone(), lo);
        let ghost mid = self.state.regs;
        self.state.regs.set(sp.dest_reg_high.clone(), hi);
        proof {
            let v_spec = spec_eval_sym(sp.source_expr, old(self).state);
            let lo_spec = if v_spec is Concrete {
                BV::Concrete(BVV { size: 32, value: bv_val(v_spec) & 0xffff_ffff })
            } else {
                BV::Symbolic(BVS { size: 32 })
            };
            let hi_spec = if v_spec is Concrete {
                BV::Concrete(BVV { size: 32, value: bv_val(v_spec) >> 32u64 })
            } else {
                BV::Symbolic(BVS { size: 32 })
            };
            assert(lo == lo_spec);
            assert(hi == hi_spec);
            assert(witnessed(mid));
            assert(sym_reg_set_rel(old(self).state.regs, mid, sp.dest_reg_low@, lo_spec));
        }
        self.advance_seq(idx + 1)
    }

    /// Applies a store — skipped unless both the address and the value
    /// are concrete — and advances.
    fn do_store(&mut self, st: &crate::program::Store) -> (r: Result<(), StepError>)
        requires
            old(self).state.index < usize::MAX,
        ensures
            final(self).program == old(self).program,
            ({
                let d = spec_eval_sym(st.dest_mem_expr, old(self).state);
                let v = spec_eval_sym(st.source_expr, old(self).state);
                final(self).state.memory.map@ == (if d is Concrete && v is Concrete {
                    old(self).state.memory.map@.insert(bv_val(d), bv_val(v))
                } else {
                    old(self).state.memory.map@
                })
            }),
            final(self).state.regs == old(self).state.regs,
            final(self).state.stdin == old(self).state.stdin,
            sym_same_constraints(old(self).state, final(self).state),
            sym_seq_flow(
                *old(self).program,
                old(self).state,
                final(self).state,
                r,
                old(self).state.index + 1,
            ),
    {
        let idx = self.state.index;
        let val = eval_symbolic(&st.source_expr, &self.state);
        let dest = eval_symbolic(&st.dest_mem_expr, &self.state);
        match (&dest, &val) {
            (BV::Concrete(d), BV::Concrete(v)) => {
                self.state.memory.store(d.value, v.value);
            },
            _ => {},
        }
        self.advance_seq(idx + 1)
    }

    /// Applies a push — the store part skipped unless the stack pointer
    /// and the value are concrete — and advances.
    fn do_push(&mut self, ps: &crate::program::Push) -> (r: Result<(), StepError>)
        requires
            old(self).state.index < usize::MAX,
        ensures
            final(self).program == old(self).program,
            ({
                let v = spec_eval_sym(ps.expr, old(self).state);
                let sp = spec_sym_reg_get(old(self).state.regs, "rsp"@);
                let new_sp = if sp is Concrete {
                    conc(wrap_sub(bv_val(sp), 8))
                } else {
                    BV::Symbolic(BVS { size: 64 })
                };
                &&& final(self).state.memory.map@ == (if sp is Concrete && v is Concrete {
                    old(self).state.memory.map@.insert(bv_val(sp), bv_val(v))
                } else {
                    old(self).state.memory.map@
                })
                &&& sym_reg_set_rel(
                    old(self).state.regs,
                    final(self).state.regs,
                    "rsp"@,
                    new_sp,
                )
            }),
            final(self).state.stdin == old(self).state.stdin,
            sym_same_constraints(old(self).state, final(self).state),
            sym_seq_flow(
                *old(self).program,
                old(self).state,
                final(self).state,
                r,
                old(self).state.index + 1,
            ),
    {
        let idx = self.state.index;
        let v = eval_symbolic(&ps.expr, &self.state);
        let sp_val = self.state.regs.get("rsp".to_owned());
        match (&sp_val, &v) {
            (BV::Concrete(spc), BV::Concrete(vc)) => {
                self.state.memory.store(spc.value, vc.value);
            },
            _ => {},
        }
        let new_sp: BV = match &sp_val {
            BV::Concrete(spc) => BV::Concrete(BVV { size: 64, value: sub64(spc.value, 8) }),
            _ => BV::Symbolic(BVS { size: 64 }),
        };
        self.state.regs.set("rsp".to_owned(), new_sp);
        self.advance_seq(idx + 1)
    }

    /// Routes a conditional branch: a concrete condition picks its side,
    /// a symbolic one is recorded as a path constraint and the true side
    /// is followed.
    fn do_if(&mut self, iff: &crate::program::If)
        ensures
            final(self).program == old(self).program,
            sym_keeps_data(old(self).state, final(self).state),
            final(self).state.index == 0,
            final(self).state.call_stack@ == old(self).state.call_stack@,
            ({
                let c = spec_eval_sym(iff.condition, old(self).state);
                if c is Concrete {
                    final(self).state.addr == (if bv_val(c) == 0 {
                        iff.target_false
                    } else {
                        iff.target_true
                    }) && sym_same_constraints(old(self).state, final(self).state)
                } else {
                    final(self).state.addr == iff.target_true
                        && final(self).state.constraints@ == old(self).state.constraints@.push(c)
                }
            }),
    {
        let c = eval_symbolic(&iff.condition, &self.state);
        match &c {
            BV::Concrete(cv) => {
                if cv.value == 0 {
                    self.state.addr = iff.target_false;
                } else {
                    self.state.addr = iff.target_true;
                }
            },
            _ => {
                self.state.constraints.push(c);
                self.state.addr = iff.target_true;
            },
        }
        self.state.index = 0;
    }


    /// Routes a call: an unresolved or symbolic target is reported, a
    /// stub callee's simulated effect applies in place of a body, and
    /// any other resolved function is entered with the return address
    /// pushed.
    #[verifier::rlimit(60)]
    fn do_call(&mut self, cl: &crate::program::Call) -> (r: Result<(), StepError>)
        requires
            old(self).state.index < usize::MAX,
        ensures
            final(self).program == old(self).program,
            ({
                let p = *old(self).program;
                let pre = old(self).state;
                let post = final(self).state;
                let t = spec_eval_sym(cl.target, pre);
                if !(t is Concrete) {
                    &&& sym_keeps_data(pre, post)
                    &&& sym_keeps_flow(pre, post)
                    &&& sym_same_constraints(pre, post)
                    &&& (r matches Err(e) && e is CallTargetUnresolved)
                } else {
                    let fa = func_at_from(p.functions@, bv_val(t), 0);
                    if fa >= p.functions@.len() {
                        &&& sym_keeps_data(pre, post)
                        &&& sym_keeps_flow(pre, post)
                        &&& sym_same_constraints(pre, post)
                        &&& (r matches Err(e) && e is CallTargetUnresolved)
                    } else {
                        let fname = p.functions@[fa].name@;
                        if is_stub_name(fname) {
                            &&& (exists|mid: SymbolicState|
                                #[trigger] witnessed(mid) && sym_call_effect(fname, pre, mid)
                                    && post.regs == mid.regs && post.stdin == mid.stdin)
                            &&& post.memory == pre.memory
                            &&& sym_same_constraints(pre, post)
                            &&& sym_seq_flow(p, pre, post, r, pre.index + 1)
                        } else {
                            match spec_inst_after(p, pre.addr) {
                                Some(nxt) => {
                                    &&& sym_keeps_data(pre, post)
                                    &&& sym_same_constraints(pre, post)
                                    &&& post.call_stack@ == pre.call_stack@.push(nxt.addr)
                                    &&& post.addr == wrap_add(bv_val(t), 4)
                                    &&& post.index == 0
                                    &&& r is Ok
                                },
                                None => {
                                    &&& sym_keeps_data(pre, post)
                                    &&& sym_keeps_flow(pre, post)
                                    &&& sym_same_constraints(pre, post)
                                    &&& (r matches Err(e) && e is LookupFailure)
                                },
                            }
                        }
                    }
                }
            }),
    {
        let p = self.program;
        let addr = self.state.addr;
        let idx = self.state.index;
        let t = eval_symbolic(&cl.target, &self.state);
        let tv: u64 = match &t {
            BV::Concrete(c) => c.value,
            _ => {
                return Err(StepError::CallTargetUnresolved);
            },
        };
        match p.function_at(tv) {
            Ok(f) => {
                if is_stub_name_exec(&f.name) {
                    self.call_stub(f.name.clone());
                    let ghost mid = self.state;
                    let r = self.advance_seq(idx + 1);
                    proof {
                        let t_spec = spec_eval_sym(cl.target, old(self).state);
                        let fa = func_at_from(
                            old(self).program.functions@,
                            bv_val(t_spec),
                            0,
                        );
                        assert(f.name@ == old(self).program.functions@[fa].name@);
                        assert(witnessed(mid));
                        assert(sym_call_effect(
                            old(self).program.functions@[fa].name@,
                            old(self).state,
                            mid,
                        ));
                    }
                    r
                } else {
                    match p.inst_after(addr) {
                        Ok(nxt) => {
                            let ra = nxt.addr;
                            self.state.call_stack.push(ra);
                            self.state.addr = add64(tv, 4);
                            self.state.index = 0;
                            Ok(())
                        },
                        Err(_) => Err(StepError::LookupFailure),
                    }
                }
            },
            Err(_) => Err(StepError::CallTargetUnresolved),
        }
    }

    /// Applies the instruction the state's address and index select and
    /// advances control, as `sym_step_rel` lays out.
    #[verifier::rlimit(100)]
    #[verifier::spinoff_prover]
    pub fn step(&mut self) -> (r: Result<(), StepError>)
        ensures
            final(self).program == old(self).program,
            sym_step_rel(*old(self).program, old(self).state, final(self).state, r),
    {
        proof {
            reveal(sym_step_inst_rel);
        }
        let p = self.program;
        let addr = self.state.addr;
        let idx = self.state.index;
        let glen = p.group_len(addr);
        if glen == 0 || idx >= glen {
            return match self.state.call_stack.pop() {
                Some(ra) => {
                    self.state.addr = ra;
                    self.state.index = 0;
                    Ok(())
                },
                None => Err(StepError::LookupFailure),
            };
        }
        let inst = match p.nth_at_addr(addr, idx) {
            Some(inst) => inst,
            None => {
                proof {
                    assert(false);
                }
                return Err(StepError::LookupFailure);
            },
        };
        match &inst.llil {
            LlilInst::SetReg(sr) => self.do_set_reg(sr),
            LlilInst::SetRegSplit(sp) => self.do_set_reg_split(sp),
            LlilInst::Store(st) => self.do_store(st),
            LlilInst::Push(ps) => self.do_push(ps),
            LlilInst::If(iff) => {
                self.do_if(iff);
                Ok(())
            },
            LlilInst::Jump(j) => {
                self.state.addr = j.addr;
                self.state.index = 0;
                Ok(())
            },
            LlilInst::JumpTo(j) => {
                self.state.addr = j.addr;
                self.state.index = 0;
                Ok(())
            },
            LlilInst::Call(cl) => self.do_call(cl),
            LlilInst::Ret(_) => {
                match self.state.call_stack.pop() {
                    Some(ra) => {
                        self.state.addr = ra;
                        self.state.index = 0;
                        Ok(())
                    },
                    None => Err(StepError::Blocked),
                }
            },
            LlilInst::Goto(g) => {
                let target = g.target;
                self.advance_seq(target)
            },
            LlilInst::SetFlag(_) => self.advance_seq(idx + 1),
            LlilInst::Nop => self.advance_seq(idx + 1),
            LlilInst::NoRet => self.advance_seq(idx + 1),
            LlilInst::Syscall => self.advance_seq(idx + 1),
            LlilInst::Bp => self.advance_seq(idx + 1),
            LlilInst::Trap => self.advance_seq(idx + 1),
            LlilInst::Undef => self.advance_seq(idx + 1),
        }
    }
}

/// A symbolic evaluation collapses to a concrete value only when every
/// operand of the node was itself concrete: mixing a symbolic operand
/// into any operation never silently downgrades the result.
pub proof fn lemma_no_silent_downgrade(e: Expr, s: SymbolicState)
    ensures
        spec_eval_sym(e, s) is Concrete ==> match e {
            Expr::Add(a) | Expr::Sub(a) | Expr::And(a) | Expr::Or(a) | Expr::Xor(a)
            | Expr::Mul(a) | Expr::Divu(a) | Expr::Divs(a) | Expr::Modu(a) | Expr::Mods(a)
            | Expr::Lsl(a) | Expr::Lsr(a) | Expr::Asr(a) | Expr::Rol(a) | Expr::Ror(a)
            | Expr::MulsDp(a) | Expr::MuluDp(a) => spec_eval_sym(*a.left, s) is Concrete
                && spec_eval_sym(*a.right, s) is Concrete,
            Expr::CmpE(c) | Expr::CmpNe(c) | Expr::CmpSlt(c) | Expr::CmpSle(c)
            | Expr::CmpSge(c) | Expr::CmpSgt(c) | Expr::CmpUlt(c) | Expr::CmpUle(c)
            | Expr::CmpUge(c) | Expr::CmpUgt(c) => spec_eval_sym(*c.left, s) is Concrete
                && spec_eval_sym(*c.right, s) is Concrete,
            Expr::DivuDp(d) | Expr::DivsDp(d) | Expr::ModuDp(d) | Expr::ModsDp(d) => {
                spec_eval_sym(*d.high, s) is Concrete && spec_eval_sym(*d.low, s) is Concrete
                    && spec_eval_sym(*d.right, s) is Concrete
            },
            _ => true,
        },
{
}

} // verus!
