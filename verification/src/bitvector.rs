//! The bitvector value abstraction the symbolic layer computes with: a
//! value is a concrete number of a known width, a free symbolic value of
//! a known width, or a node standing for a formula over both. An
//! operation that mixes a concrete and a symbolic operand never yields a
//! concrete result.

use vstd::prelude::*;

verus! {

/// A formula node over bitvector leaves.
#[derive(Clone, Copy)]
pub enum BVE {
    BVV(BVV),
    BVS(BVS),
}

/// A bitvector value: concrete, free symbolic, or a formula node.
#[derive(Clone, Copy)]
pub enum BV {
    Concrete(BVV),
    Symbolic(BVS),
    Expression(BVE),
}

/// A concrete bitvector: its width in bits and its value.
#[derive(Clone, Copy)]
pub struct BVV {
    pub size: usize,
    pub value: u64,
}

impl BVV {
    /// A concrete zero of the given width.
    pub fn new(size: usize) -> (r: BVV)
        ensures
            r.size == size,
            r.value == 0,
    {
        BVV { size, value: 0 }
    }

    /// A concrete 64-bit value.
    pub fn from_u64(num: u64) -> (r: BVV)
        ensures
            r.size == 64,
            r.value == num,
    {
        BVV { size: 64, value: num }
    }
}

/// A free symbolic bitvector of a known width.
#[derive(Clone, Copy)]
pub struct BVS {
    pub size: usize,
}

impl BVS {
    /// A free symbolic value of the given width.
    pub fn new(size: usize) -> (r: BVS)
        ensures
            r.size == size,
    {
        BVS { size }
    }

    /// A free symbolic 64-bit value, standing where a concrete number
    /// would otherwise be.
    pub fn from_u64(num: u64) -> (r: BVS)
        ensures
            r.size == 64,
    {
        BVS { size: 64 }
    }
}

/// The concrete number a bitvector holds; 0 for a non-concrete value.
pub open spec fn bv_val(b: BV) -> u64 {
    match b {
        BV::Concrete(v) => v.value,
        _ => 0,
    }
}

/// What a binary operation yields from its operands: when both are
/// concrete, the concrete 64-bit result `v`; when either is symbolic or
/// a formula, a fresh symbolic 64-bit value — never a concrete guess.
pub open spec fn spec_combine(a: BV, b: BV, v: u64) -> BV {
    if a is Concrete && b is Concrete {
        BV::Concrete(BVV { size: 64, value: v })
    } else {
        BV::Symbolic(BVS { size: 64 })
    }
}

/// Combines two operands into a result, executable: `v` is the concrete
/// result the caller computed from the operands' concrete readings, used
/// only when both operands are concrete.
pub(crate) fn combine64(a: &BV, b: &BV, v: u64) -> (r: BV)
    ensures
        r == spec_combine(*a, *b, v),
{
    match (a, b) {
        (BV::Concrete(_), BV::Concrete(_)) => BV::Concrete(BVV { size: 64, value: v }),
        _ => BV::Symbolic(BVS { size: 64 }),
    }
}

/// What a three-operand operation yields: concrete only when all three
/// operands are, else a fresh symbolic value.
pub open spec fn spec_combine3(a: BV, b: BV, c: BV, v: u64) -> BV {
    if a is Concrete && b is Concrete && c is Concrete {
        BV::Concrete(BVV { size: 64, value: v })
    } else {
        BV::Symbolic(BVS { size: 64 })
    }
}

/// Combines three operands into a result, executable.
pub(crate) fn combine64_3(a: &BV, b: &BV, c: &BV, v: u64) -> (r: BV)
    ensures
        r == spec_combine3(*a, *b, *c, v),
{
    match (a, b, c) {
        (BV::Concrete(_), BV::Concrete(_), BV::Concrete(_)) => BV::Concrete(
            BVV { size: 64, value: v },
        ),
        _ => BV::Symbolic(BVS { size: 64 }),
    }
}

/// The concrete number a bitvector holds, executable.
pub(crate) fn bv_val64(b: &BV) -> (v: u64)
    ensures
        v == bv_val(*b),
{
    match b {
        BV::Concrete(c) => c.value,
        _ => 0,
    }
}

/// An operation with a symbolic or formula operand never collapses to a
/// concrete result, whatever concrete reading the other operand had.
pub proof fn lemma_mix_never_concrete(a: BV, b: BV, v: u64)
    ensures
        !(a is Concrete && b is Concrete) ==> !(spec_combine(a, b, v) is Concrete),
        a is Concrete && b is Concrete ==> spec_combine(a, b, v) == BV::Concrete(
            BVV { size: 64, value: v },
        ),
{
}

} // verus!
