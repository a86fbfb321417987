//! The IR expression vocabulary and the concrete evaluator: an expression
//! reduces to a 64-bit value under a given state, totally — any node
//! outside the modeled vocabulary evaluates to a defined default rather
//! than failing.

use crate::state::spec_registers_get;
use crate::state::State;
use vstd::prelude::*;

verus! {

/// One IR expression node. The tree is heap-owned through `Box` with no
/// sharing. `Undef` is the total fallback for any lifted node outside the
/// modeled vocabulary; it carries the skipped node's text for diagnosis.
pub enum Expr {
    Reg(Reg),
    Flag(Flag),
    Load(Load),
    Value(u64),
    Add(Arithmetic),
    Sub(Arithmetic),
    And(Arithmetic),
    Or(Arithmetic),
    Xor(Arithmetic),
    Mul(Arithmetic),
    Divu(Arithmetic),
    Divs(Arithmetic),
    Modu(Arithmetic),
    Mods(Arithmetic),
    Lsl(Arithmetic),
    Lsr(Arithmetic),
    Asr(Arithmetic),
    Rol(Arithmetic),
    Ror(Arithmetic),
    MulsDp(Arithmetic),
    MuluDp(Arithmetic),
    DivuDp(DivDp),
    DivsDp(DivDp),
    ModuDp(DivDp),
    ModsDp(DivDp),
    CmpE(Cmp),
    CmpSlt(Cmp),
    CmpSle(Cmp),
    CmpSge(Cmp),
    CmpSgt(Cmp),
    CmpNe(Cmp),
    CmpUlt(Cmp),
    CmpUle(Cmp),
    CmpUge(Cmp),
    CmpUgt(Cmp),
    Undef(Undef),
}

/// A register read, by name.
pub struct Reg {
    pub name: String,
}

/// A memory-load node. Evaluation reduces it to the evaluation of the
/// address sub-expression itself, not to a read of the memory map — the
/// bounded IR vocabulary's known simplification.
pub struct Load {
    pub source_mem: Box<Expr>,
}

/// A flag read, by name; outside the concretely modeled vocabulary.
pub struct Flag {
    pub name: String,
}

/// A constant as the lifter renders it in text form.
pub struct Value {
    pub value: String,
}

/// The two operands of a comparison node.
pub struct Cmp {
    pub left: Box<Expr>,
    pub right: Box<Expr>,
}

/// The operands of a double-width division or remainder node: the high and
/// low halves of the dividend and the divisor.
pub struct DivDp {
    pub high: Box<Expr>,
    pub low: Box<Expr>,
    pub right: Box<Expr>,
}

/// The carried text of a node outside the modeled vocabulary.
pub struct Undef {
    pub expr: String,
}

/// The two operands of an arithmetic node.
pub struct Arithmetic {
    pub left: Box<Expr>,
    pub right: Box<Expr>,
}

/// The default value every node outside the concretely modeled vocabulary
/// evaluates to.
pub const UNMODELED_VALUE: u64 = 1;

/// Addition modulo 2^64.
pub open spec fn wrap_add(a: u64, b: u64) -> u64 {
    (((a + b) % 0x1_0000_0000_0000_0000)) as u64
}

/// Subtraction modulo 2^64; `%` on mathematical integers here is the
/// Euclidean remainder, so the result is the wrapped difference.
pub open spec fn wrap_sub(a: u64, b: u64) -> u64 {
    ((a - b) % 0x1_0000_0000_0000_0000) as u64
}

/// Multiplication modulo 2^64.
pub open spec fn wrap_mul(a: u64, b: u64) -> u64 {
    ((a * b) % 0x1_0000_0000_0000_0000) as u64
}

/// The 64-bit pattern reinterpreted as a two's-complement signed value.
pub open spec fn as_signed(x: u64) -> int {
    if x < 0x8000_0000_0000_0000 {
        x as int
    } else {
        x - 0x1_0000_0000_0000_0000
    }
}

/// Unsigned division, total: a zero divisor yields 0.
pub open spec fn spec_div(a: u64, b: u64) -> u64 {
    if b == 0 {
        0
    } else {
        a / b
    }
}

/// Unsigned remainder, total: a zero divisor yields 0.
pub open spec fn spec_mod(a: u64, b: u64) -> u64 {
    if b == 0 {
        0
    } else {
        a % b
    }
}

/// Left shift; amounts are not masked to the operand width, so a shift of
/// 64 or more clears the value.
pub open spec fn spec_shl(a: u64, b: u64) -> u64 {
    if b >= 64 {
        0
    } else {
        a << b
    }
}

/// Logical right shift; a shift of 64 or more clears the value.
pub open spec fn spec_shr(a: u64, b: u64) -> u64 {
    if b >= 64 {
        0
    } else {
        a >> b
    }
}

/// What an expression evaluates to under a state, concretely. Evaluation
/// is total: arithmetic wraps modulo 2^64, signed comparisons reinterpret
/// the bit pattern as two's-complement, division by zero yields 0, a
/// `Load` reduces to its address sub-expression, and every node outside
/// the modeled vocabulary yields `UNMODELED_VALUE`.
pub open spec fn spec_eval(e: Expr, s: State) -> u64
    decreases e,
{
    match e {
        Expr::Value(v) => v,
        Expr::Reg(r) => spec_registers_get(s.regs, r.name@, s.arch),
        Expr::Load(l) => spec_eval(*l.source_mem, s),
        Expr::CmpE(c) => if spec_eval(*c.left, s) == spec_eval(*c.right, s) {
            1
        } else {
            0
        },
        Expr::CmpNe(c) => if spec_eval(*c.left, s) != spec_eval(*c.right, s) {
            1
        } else {
            0
        },
        Expr::CmpSlt(c) => if as_signed(spec_eval(*c.left, s)) < as_signed(
            spec_eval(*c.right, s),
        ) {
            1
        } else {
            0
        },
        Expr::CmpSle(c) => if as_signed(spec_eval(*c.left, s)) <= as_signed(
            spec_eval(*c.right, s),
        ) {
            1
        } else {
            0
        },
        Expr::CmpSge(c) => if as_signed(spec_eval(*c.left, s)) >= as_signed(
            spec_eval(*c.right, s),
        ) {
            1
        } else {
            0
        },
        Expr::CmpSgt(c) => if as_signed(spec_eval(*c.left, s)) > as_signed(
            spec_eval(*c.right, s),
        ) {
            1
        } else {
            0
        },
        Expr::CmpUlt(c) => if spec_eval(*c.left, s) < spec_eval(*c.right, s) {
            1
        } else {
            0
        },
        Expr::CmpUle(c) => if spec_eval(*c.left, s) <= spec_eval(*c.right, s) {
            1
        } else {
            0
        },
        Expr::CmpUge(c) => if spec_eval(*c.left, s) >= spec_eval(*c.right, s) {
            1
        } else {
            0
        },
        Expr::CmpUgt(c) => if spec_eval(*c.left, s) > spec_eval(*c.right, s) {
            1
        } else {
            0
        },
        Expr::Add(a) => wrap_add(spec_eval(*a.left, s), spec_eval(*a.right, s)),
        Expr::Sub(a) => wrap_sub(spec_eval(*a.left, s), spec_eval(*a.right, s)),
        Expr::And(a) => spec_eval(*a.left, s) & spec_eval(*a.right, s),
        Expr::Or(a) => spec_eval(*a.left, s) | spec_eval(*a.right, s),
        Expr::Xor(a) => spec_eval(*a.left, s) ^ spec_eval(*a.right, s),
        Expr::Mul(a) => wrap_mul(spec_eval(*a.left, s), spec_eval(*a.right, s)),
        Expr::Divu(a) => spec_div(spec_eval(*a.left, s), spec_eval(*a.right, s)),
        Expr::Divs(a) => spec_div(spec_eval(*a.left, s), spec_eval(*a.right, s)),
        Expr::Modu(a) => spec_mod(spec_eval(*a.left, s), spec_eval(*a.right, s)),
        Expr::Mods(a) => spec_mod(spec_eval(*a.left, s), spec_eval(*a.right, s)),
        Expr::Lsl(a) => spec_shl(spec_eval(*a.left, s), spec_eval(*a.right, s)),
        Expr::Lsr(a) => spec_shr(spec_eval(*a.left, s), spec_eval(*a.right, s)),
        Expr::Asr(a) => spec_shl(spec_eval(*a.left, s), spec_eval(*a.right, s)),
        Expr::Rol(a) => spec_shl(spec_eval(*a.left, s), spec_eval(*a.right, s)),
        Expr::Ror(a) => spec_shr(spec_eval(*a.left, s), spec_eval(*a.right, s)),
        Expr::MulsDp(a) => wrap_mul(spec_eval(*a.left, s), spec_eval(*a.right, s)),
        Expr::MuluDp(a) => wrap_mul(spec_eval(*a.left, s), spec_eval(*a.right, s)),
        Expr::DivuDp(_) => UNMODELED_VALUE,
        Expr::DivsDp(_) => UNMODELED_VALUE,
        Expr::ModuDp(_) => UNMODELED_VALUE,
        Expr::ModsDp(_) => UNMODELED_VALUE,
        Expr::Flag(_) => UNMODELED_VALUE,
        Expr::Undef(_) => UNMODELED_VALUE,
    }
}

/// Addition modulo 2^64, executable.
pub(crate) fn add64(a: u64, b: u64) -> (r: u64)
    ensures
        r == wrap_add(a, b),
{
    proof {
        if a + b > u64::MAX {
            vstd::arithmetic::div_mod::lemma_mod_sub_multiples_vanish(
                a + b,
                0x1_0000_0000_0000_0000,
            );
            vstd::arithmetic::div_mod::lemma_small_mod(
                (a + b - 0x1_0000_0000_0000_0000) as nat,
                0x1_0000_0000_0000_0000,
            );
        } else {
            vstd::arithmetic::div_mod::lemma_small_mod(
                (a + b) as nat,
                0x1_0000_0000_0000_0000,
            );
        }
    }
    a.wrapping_add(b)
}

/// Subtraction modulo 2^64, executable.
pub(crate) fn sub64(a: u64, b: u64) -> (r: u64)
    ensures
        r == wrap_sub(a, b),
{
    proof {
        if a < b {
            vstd::arithmetic::div_mod::lemma_mod_add_multiples_vanish(
                a - b,
                0x1_0000_0000_0000_0000,
            );
            vstd::arithmetic::div_mod::lemma_small_mod(
                (a - b + 0x1_0000_0000_0000_0000) as nat,
                0x1_0000_0000_0000_0000,
            );
        } else {
            vstd::arithmetic::div_mod::lemma_small_mod(
                (a - b) as nat,
                0x1_0000_0000_0000_0000,
            );
        }
    }
    a.wrapping_sub(b)
}

/// Multiplication modulo 2^64, executable.
pub(crate) fn mul64(a: u64, b: u64) -> (r: u64)
    ensures
        r == wrap_mul(a, b),
{
    proof {
        assert(u64::MAX - u64::MIN + 1 == 0x1_0000_0000_0000_0000int);
    }
    a.wrapping_mul(b)
}

/// Total unsigned division, executable.
pub(crate) fn div64(a: u64, b: u64) -> (r: u64)
    ensures
        r == spec_div(a, b),
{
    if b == 0 {
        0
    } else {
        a / b
    }
}

/// Total unsigned remainder, executable.
pub(crate) fn mod64(a: u64, b: u64) -> (r: u64)
    ensures
        r == spec_mod(a, b),
{
    if b == 0 {
        0
    } else {
        a % b
    }
}

/// Unmasked left shift, executable.
pub(crate) fn shl64(a: u64, b: u64) -> (r: u64)
    ensures
        r == spec_shl(a, b),
{
    if b >= 64 {
        0
    } else {
        a << b
    }
}

/// Unmasked logical right shift, executable.
pub(crate) fn shr64(a: u64, b: u64) -> (r: u64)
    ensures
        r == spec_shr(a, b),
{
    if b >= 64 {
        0
    } else {
        a >> b
    }
}

/// Signed less-than on the two's-complement reading of the bit patterns.
pub(crate) fn signed_lt(a: u64, b: u64) -> (r: bool)
    ensures
        r == (as_signed(a) < as_signed(b)),
{
    let a_neg = a >= 0x8000_0000_0000_0000;
    let b_neg = b >= 0x8000_0000_0000_0000;
    if a_neg && !b_neg {
        true
    } else if !a_neg && b_neg {
        false
    } else {
        a < b
    }
}

/// Evaluates an expression under a state. The register file is read
/// through the state's architecture dispatch; the state itself is never
/// written.
pub fn eval_expression(expr: &Expr, state: &State) -> (r: u64)
    ensures
        r == spec_eval(*expr, *state),
    decreases *expr,
{
    match expr {
        Expr::Value(v) => *v,
        Expr::Reg(r) => state.regs.get(r.name.clone(), state.arch),
        Expr::Load(l) => eval_expression(&l.source_mem, state),
        Expr::CmpE(c) => if eval_expression(&c.left, state) == eval_expression(
            &c.right,
            state,
        ) {
            1
        } else {
            0
        },
        Expr::CmpNe(c) => if eval_expression(&c.left, state) != eval_expression(
            &c.right,
            state,
        ) {
            1
        } else {
            0
        },
        Expr::CmpSlt(c) => {
            let l = eval_expression(&c.left, state);
            let r = eval_expression(&c.right, state);
            if signed_lt(l, r) {
                1
            } else {
                0
            }
        },
        Expr::CmpSle(c) => {
            let l = eval_expression(&c.left, state);
            let r = eval_expression(&c.right, state);
            if signed_lt(r, l) {
                0
            } else {
                1
            }
        },
        Expr::CmpSge(c) => {
            let l = eval_expression(&c.left, state);
            let r = eval_expression(&c.right, state);
            if signed_lt(l, r) {
                0
            } else {
                1
            }
        },
        Expr::CmpSgt(c) => {
            let l = eval_expression(&c.left, state);
            let r = eval_expression(&c.right, state);
            if signed_lt(r, l) {
                1
            } else {
                0
            }
        },
        Expr::CmpUlt(c) => if eval_expression(&c.left, state) < eval_expression(
            &c.right,
            state,
        ) {
            1
        } else {
            0
        },
        Expr::CmpUle(c) => if eval_expression(&c.left, state) <= eval_expression(
            &c.right,
            state,
        ) {
            1
        } else {
            0
        },
        Expr::CmpUge(c) => if eval_expression(&c.left, state) >= eval_expression(
            &c.right,
            state,
        ) {
            1
        } else {
            0
        },
        Expr::CmpUgt(c) => if eval_expression(&c.left, state) > eval_expression(
            &c.right,
            state,
        ) {
            1
        } else {
            0
        },
        Expr::Add(a) => {
            let l = eval_expression(&a.left, state);
            let r = eval_expression(&a.right, state);
            add64(l, r)
        },
        Expr::Sub(a) => {
            let l = eval_expression(&a.left, state);
            let r = eval_expression(&a.right, state);
            sub64(l, r)
        },
        Expr::And(a) => eval_expression(&a.left, state) & eval_expression(&a.right, state),
        Expr::Or(a) => eval_expression(&a.left, state) | eval_expression(&a.right, state),
        Expr::Xor(a) => eval_expression(&a.left, state) ^ eval_expression(&a.right, state),
        Expr::Mul(a) => {
            let l = eval_expression(&a.left, state);
            let r = eval_expression(&a.right, state);
            mul64(l, r)
        },
        Expr::Divu(a) => {
            let l = eval_expression(&a.left, state);
            let r = eval_expression(&a.right, state);
            div64(l, r)
        },
        Expr::Divs(a) => {
            let l = eval_expression(&a.left, state);
            let r = eval_expression(&a.right, state);
            div64(l, r)
        },
        Expr::Modu(a) => {
            let l = eval_expression(&a.left, state);
            let r = eval_expression(&a.right, state);
            mod64(l, r)
        },
        Expr::Mods(a) => {
            let l = eval_expression(&a.left, state);
            let r = eval_expression(&a.right, state);
            mod64(l, r)
        },
        Expr::Lsl(a) => {
            let l = eval_expression(&a.left, state);
            let r = eval_expression(&a.right, state);
            shl64(l, r)
        },
        Expr::Lsr(a) => {
            let l = eval_expression(&a.left, state);
            let r = eval_expression(&a.right, state);
            shr64(l, r)
        },
        Expr::Asr(a) => {
            let l = eval_expression(&a.left, state);
            let r = eval_expression(&a.right, state);
            shl64(l, r)
        },
        Expr::Rol(a) => {
            let l = eval_expression(&a.left, state);
            let r = eval_expression(&a.right, state);
            shl64(l, r)
        },
        Expr::Ror(a) => {
            let l = eval_expression(&a.left, state);
            let r = eval_expression(&a.right, state);
            shr64(l, r)
        },
        Expr::MulsDp(a) => {
            let l = eval_expression(&a.left, state);
            let r = eval_expression(&a.right, state);
            mul64(l, r)
        },
        Expr::MuluDp(a) => {
            let l = eval_expression(&a.left, state);
            let r = eval_expression(&a.right, state);
            mul64(l, r)
        },
        Expr::DivuDp(_) => UNMODELED_VALUE,
        Expr::DivsDp(_) => UNMODELED_VALUE,
        Expr::ModuDp(_) => UNMODELED_VALUE,
        Expr::ModsDp(_) => UNMODELED_VALUE,
        Expr::Flag(_) => UNMODELED_VALUE,
        Expr::Undef(_) => UNMODELED_VALUE,
    }
}

/// Evaluating a constant always returns that constant, under every state.
pub proof fn lemma_eval_constant(v: u64, s: State)
    ensures
        spec_eval(Expr::Value(v), s) == v,
{
}

/// Unsigned and signed comparison read the same 64-bit pattern two ways:
/// on any pattern with the high bit set against any pattern without it,
/// the signed reading orders them one way and the unsigned reading the
/// other.
pub proof fn lemma_signed_unsigned_comparisons_differ(a: u64, b: u64)
    requires
        a >= 0x8000_0000_0000_0000,
        b < 0x8000_0000_0000_0000,
    ensures
        as_signed(a) < as_signed(b),
        a > b,
{
}

/// Addition, subtraction and multiplication wrap modulo 2^64: the value of
/// such a node is the mathematical result reduced modulo 2^64, under every
/// state.
pub proof fn lemma_arith_wraps(e: Expr, s: State)
    ensures
        (e matches Expr::Add(a) ==> spec_eval(e, s) == ((spec_eval(*a.left, s) + spec_eval(
            *a.right,
            s,
        )) % 0x1_0000_0000_0000_0000) as u64),
        (e matches Expr::Sub(a) ==> spec_eval(e, s) == ((spec_eval(*a.left, s) - spec_eval(
            *a.right,
            s,
        )) % 0x1_0000_0000_0000_0000) as u64),
        (e matches Expr::Mul(a) ==> spec_eval(e, s) == ((spec_eval(*a.left, s) * spec_eval(
            *a.right,
            s,
        )) % 0x1_0000_0000_0000_0000) as u64),
{
}

} // verus!
