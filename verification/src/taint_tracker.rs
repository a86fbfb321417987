//! Dynamic taint tracking over the same IR: a set of path states stepped
//! together, each re-deriving its taint sets flow-sensitively at every
//! instruction, and forking into two path states at every conditional
//! branch instead of picking a side.

use crate::expression::Expr;
use crate::program::spec_inst_after;
use crate::program::spec_insts_at;
use crate::program::spec_llil_start;
use crate::program::func_named_from;
use crate::program::LlilInst;
use crate::program::Program;
use crate::state::string_is;
use vstd::prelude::*;

verus! {

/// Declares a stack address tainted from the moment a given instruction
/// site is reached.
#[derive(Clone, Copy)]
pub struct StackTaintSource {
    pub instr: u64,
    pub index: usize,
    pub addr: u64,
}

/// Declares a register tainted from the moment a given instruction site
/// is reached.
pub struct RegTaintSource {
    pub instr: u64,
    pub index: usize,
    pub reg: String,
}

/// One taint path state: where it stands, which registers and stack
/// addresses currently carry taint, and the declared sources that seed
/// taint when their site is reached.
pub struct TaintState {
    pub addr: u64,
    pub index: usize,
    pub regs_tainted: Vec<String>,
    pub stack_tainted: Vec<u64>,
    pub reg_taint_sources: Vec<RegTaintSource>,
    pub stack_taint_sources: Vec<StackTaintSource>,
}

/// One taint analysis run: the program it walks and every live path
/// state, stepped together.
pub struct TaintTracker<'a> {
    pub program: &'a Program,
    pub states: Vec<TaintState>,
}

/// Whether a name list holds the name, compared by contents.
pub open spec fn name_in(names: Seq<String>, n: Seq<char>) -> bool {
    exists|i: int| 0 <= i < names.len() && (#[trigger] names[i])@ == n
}

/// Whether the path state currently holds the register name tainted.
pub open spec fn ts_reg_tainted(t: TaintState, n: Seq<char>) -> bool {
    name_in(t.regs_tainted@, n)
}

/// Whether the path state currently holds the stack address tainted.
pub open spec fn ts_stack_tainted(t: TaintState, a: u64) -> bool {
    t.stack_tainted@.contains(a)
}

/// Whether an expression reads taint under a path state: a register read
/// is tainted when the register is, a compound node is tainted when any
/// operand is, and a constant or a node outside the modeled vocabulary is
/// not — an explicit policy, so unmodeled nodes do not flood the analysis
/// with false taint.
pub open spec fn spec_expr_tainted(t: TaintState, e: Expr) -> bool
    decreases e,
{
    match e {
        Expr::Value(_) => false,
        Expr::Reg(r) => ts_reg_tainted(t, r.name@),
        Expr::Flag(_) => false,
        Expr::Load(l) => spec_expr_tainted(t, *l.source_mem),
        Expr::Add(a) => spec_expr_tainted(t, *a.left) || spec_expr_tainted(t, *a.right),
        Expr::Sub(a) => spec_expr_tainted(t, *a.left) || spec_expr_tainted(t, *a.right),
        Expr::And(a) => spec_expr_tainted(t, *a.left) || spec_expr_tainted(t, *a.right),
        Expr::Or(a) => spec_expr_tainted(t, *a.left) || spec_expr_tainted(t, *a.right),
        Expr::Xor(a) => spec_expr_tainted(t, *a.left) || spec_expr_tainted(t, *a.right),
        Expr::Mul(a) => spec_expr_tainted(t, *a.left) || spec_expr_tainted(t, *a.right),
        Expr::Divu(a) => spec_expr_tainted(t, *a.left) || spec_expr_tainted(t, *a.right),
        Expr::Divs(a) => spec_expr_tainted(t, *a.left) || spec_expr_tainted(t, *a.right),
        Expr::Modu(a) => spec_expr_tainted(t, *a.left) || spec_expr_tainted(t, *a.right),
        Expr::Mods(a) => spec_expr_tainted(t, *a.left) || spec_expr_tainted(t, *a.right),
        Expr::Lsl(a) => spec_expr_tainted(t, *a.left) || spec_expr_tainted(t, *a.right),
        Expr::Lsr(a) => spec_expr_tainted(t, *a.left) || spec_expr_tainted(t, *a.right),
        Expr::Asr(a) => spec_expr_tainted(t, *a.left) || spec_expr_tainted(t, *a.right),
        Expr::Rol(a) => spec_expr_tainted(t, *a.left) || spec_expr_tainted(t, *a.right),
        Expr::Ror(a) => spec_expr_tainted(t, *a.left) || spec_expr_tainted(t, *a.right),
        Expr::MulsDp(a) => spec_expr_tainted(t, *a.left) || spec_expr_tainted(t, *a.right),
        Expr::MuluDp(a) => spec_expr_tainted(t, *a.left) || spec_expr_tainted(t, *a.right),
        Expr::DivuDp(d) => spec_expr_tainted(t, *d.high) || spec_expr_tainted(t, *d.low)
            || spec_expr_tainted(t, *d.right),
        Expr::DivsDp(d) => spec_expr_tainted(t, *d.high) || spec_expr_tainted(t, *d.low)
            || spec_expr_tainted(t, *d.right),
        Expr::ModuDp(d) => spec_expr_tainted(t, *d.high) || spec_expr_tainted(t, *d.low)
            || spec_expr_tainted(t, *d.right),
        Expr::ModsDp(d) => spec_expr_tainted(t, *d.high) || spec_expr_tainted(t, *d.low)
            || spec_expr_tainted(t, *d.right),
        Expr::CmpE(c) => spec_expr_tainted(t, *c.left) || spec_expr_tainted(t, *c.right),
        Expr::CmpNe(c) => spec_expr_tainted(t, *c.left) || spec_expr_tainted(t, *c.right),
        Expr::CmpSlt(c) => spec_expr_tainted(t, *c.left) || spec_expr_tainted(t, *c.right),
        Expr::CmpSle(c) => spec_expr_tainted(t, *c.left) || spec_expr_tainted(t, *c.right),
        Expr::CmpSge(c) => spec_expr_tainted(t, *c.left) || spec_expr_tainted(t, *c.right),
        Expr::CmpSgt(c) => spec_expr_tainted(t, *c.left) || spec_expr_tainted(t, *c.right),
        Expr::CmpUlt(c) => spec_expr_tainted(t, *c.left) || spec_expr_tainted(t, *c.right),
        Expr::CmpUle(c) => spec_expr_tainted(t, *c.left) || spec_expr_tainted(t, *c.right),
        Expr::CmpUge(c) => spec_expr_tainted(t, *c.left) || spec_expr_tainted(t, *c.right),
        Expr::CmpUgt(c) => spec_expr_tainted(t, *c.left) || spec_expr_tainted(t, *c.right),
        Expr::Undef(_) => false,
    }
}

/// Whether a declared register source fires at the path state's current
/// site for the given register name.
pub open spec fn reg_source_fires(t: TaintState, n: Seq<char>) -> bool {
    exists|j: int|
        0 <= j < t.reg_taint_sources@.len() && (#[trigger] t.reg_taint_sources@[j]).instr
            == t.addr && t.reg_taint_sources@[j].index == t.index
            && t.reg_taint_sources@[j].reg@ == n
}

/// Whether a declared stack source fires at the path state's current
/// site for the given address.
pub open spec fn stack_source_fires(t: TaintState, a: u64) -> bool {
    exists|j: int|
        0 <= j < t.stack_taint_sources@.len() && (#[trigger] t.stack_taint_sources@[j]).instr
            == t.addr && t.stack_taint_sources@[j].index == t.index
            && t.stack_taint_sources@[j].addr == a
}

/// The two path states carry the same source declarations, compared by
/// contents.
pub open spec fn same_sources(a: TaintState, b: TaintState) -> bool {
    &&& b.reg_taint_sources@.len() == a.reg_taint_sources@.len()
    &&& forall|i: int|
        0 <= i < a.reg_taint_sources@.len() ==> (#[trigger] b.reg_taint_sources@[i]).instr
            == a.reg_taint_sources@[i].instr && b.reg_taint_sources@[i].index
            == a.reg_taint_sources@[i].index && b.reg_taint_sources@[i].reg@
            == a.reg_taint_sources@[i].reg@
    &&& b.stack_taint_sources@ == a.stack_taint_sources@
}

/// The two path states carry the same taint sets, compared by contents.
pub open spec fn same_taint_sets(a: TaintState, b: TaintState) -> bool {
    &&& b.regs_tainted@.len() == a.regs_tainted@.len()
    &&& forall|i: int|
        0 <= i < a.regs_tainted@.len() ==> (#[trigger] b.regs_tainted@[i])@
            == a.regs_tainted@[i]@
    &&& b.stack_tainted@ == a.stack_tainted@
}

/// The second path state is a faithful copy of the first: same site,
/// same taint sets, same sources.
pub open spec fn ts_like(a: TaintState, b: TaintState) -> bool {
    &&& b.addr == a.addr
    &&& b.index == a.index
    &&& same_taint_sets(a, b)
    &&& same_sources(a, b)
}

/// The sources whose site matches the state's current address and index
/// have seeded their register or stack address into the taint sets;
/// nothing else changed.
pub open spec fn apply_sources_rel(pre: TaintState, mid: TaintState) -> bool {
    &&& mid.addr == pre.addr
    &&& mid.index == pre.index
    &&& same_sources(pre, mid)
    &&& forall|m: Seq<char>|
        #[trigger] ts_reg_tainted(mid, m) == (ts_reg_tainted(pre, m) || reg_source_fires(
            pre,
            m,
        ))
    &&& forall|a: u64|
        #[trigger] ts_stack_tainted(mid, a) == (ts_stack_tainted(pre, a)
            || stack_source_fires(pre, a))
}

/// One register name's taint was set to `on`; every other name kept its
/// taint status.
pub open spec fn taints_updated(
    mid: TaintState,
    post: TaintState,
    n: Seq<char>,
    on: bool,
) -> bool {
    forall|m: Seq<char>|
        #[trigger] ts_reg_tainted(post, m) == (if m == n {
            on
        } else {
            ts_reg_tainted(mid, m)
        })
}

/// Two register names' taint was set to `on`; every other name kept its
/// taint status.
pub open spec fn taints_updated2(
    mid: TaintState,
    post: TaintState,
    n1: Seq<char>,
    n2: Seq<char>,
    on: bool,
) -> bool {
    forall|m: Seq<char>|
        #[trigger] ts_reg_tainted(post, m) == (if m == n1 || m == n2 {
            on
        } else {
            ts_reg_tainted(mid, m)
        })
}

/// Whether a path state's next instruction is a conditional branch, so
/// stepping it forks a second path state.
pub open spec fn spec_forks(p: Program, t: TaintState) -> bool {
    spec_insts_at(p, t.addr).len() > 0 && spec_insts_at(p, t.addr)[0].llil is If
}

/// How one path state steps. A state whose address resolves to no
/// instruction halts unchanged, as does one that cannot resolve the
/// instruction after a fall-through — a per-path failure never fails the
/// whole run. Otherwise the declared sources seed the taint sets, the
/// instruction's taint effect applies, and control moves.
#[verifier::opaque]
pub open spec fn taint_step_primary(p: Program, pre: TaintState, post: TaintState) -> bool {
    let group = spec_insts_at(p, pre.addr);
    if group.len() == 0 {
        ts_like(pre, post)
    } else {
        let inst = group[0];
        let next = spec_inst_after(p, pre.addr);
        match inst.llil {
            LlilInst::SetReg(sr) => {
                match next {
                    None => ts_like(pre, post),
                    Some(nxt) => exists|mid: TaintState|
                        {
                            &&& #[trigger] apply_sources_rel(pre, mid)
                            &&& taints_updated(mid, post, sr.reg@, spec_expr_tainted(
                                mid,
                                sr.expr,
                            ))
                            &&& post.stack_tainted@ == mid.stack_tainted@
                            &&& same_sources(pre, post)
                            &&& post.addr == nxt.addr
                            &&& post.index == pre.index
                        },
                }
            },
            LlilInst::SetRegSplit(sp) => {
                match next {
                    None => ts_like(pre, post),
                    Some(nxt) => exists|mid: TaintState|
                        {
                            &&& #[trigger] apply_sources_rel(pre, mid)
                            &&& taints_updated2(
                                mid,
                                post,
                                sp.dest_reg_high@,
                                sp.dest_reg_low@,
                                spec_expr_tainted(mid, sp.source_expr),
                            )
                            &&& post.stack_tainted@ == mid.stack_tainted@
                            &&& same_sources(pre, post)
                            &&& post.addr == nxt.addr
                            &&& post.index == pre.index
                        },
                }
            },
            LlilInst::SetFlag(sf) => {
                match next {
                    None => ts_like(pre, post),
                    Some(nxt) => exists|mid: TaintState|
                        {
                            &&& #[trigger] apply_sources_rel(pre, mid)
                            &&& taints_updated(
                                mid,
                                post,
                                "rflags"@,
                                ts_stack_tainted(mid, sf.addr),
                            )
                            &&& post.stack_tainted@ == mid.stack_tainted@
                            &&& same_sources(pre, post)
                            &&& post.addr == nxt.addr
                            &&& post.index == pre.index
                        },
                }
            },
            LlilInst::Jump(j) => exists|mid: TaintState|
                {
                    &&& #[trigger] apply_sources_rel(pre, mid)
                    &&& same_taint_sets(mid, post)
                    &&& same_sources(pre, post)
                    &&& post.addr == j.addr
                    &&& post.index == pre.index
                },
            LlilInst::JumpTo(j) => exists|mid: TaintState|
                {
                    &&& #[trigger] apply_sources_rel(pre, mid)
                    &&& same_taint_sets(mid, post)
                    &&& same_sources(pre, post)
                    &&& post.addr == j.addr
                    &&& post.index == pre.index
                },
            LlilInst::Ret(rt) => exists|mid: TaintState|
                {
                    &&& #[trigger] apply_sources_rel(pre, mid)
                    &&& same_taint_sets(mid, post)
                    &&& same_sources(pre, post)
                    &&& post.addr == rt.addr
                    &&& post.index == pre.index
                },
            LlilInst::If(iff) => exists|mid: TaintState|
                {
                    &&& #[trigger] apply_sources_rel(pre, mid)
                    &&& same_taint_sets(mid, post)
                    &&& same_sources(pre, post)
                    &&& post.addr == iff.target_true
                    &&& post.index == pre.index
                },
            LlilInst::Goto(g) => exists|mid: TaintState|
                {
                    &&& #[trigger] apply_sources_rel(pre, mid)
                    &&& same_taint_sets(mid, post)
                    &&& same_sources(pre, post)
                    &&& post.addr == pre.addr
                    &&& post.index == g.target
                },
            _ => {
                match next {
                    None => ts_like(pre, post),
                    Some(nxt) => exists|mid: TaintState|
                        {
                            &&& #[trigger] apply_sources_rel(pre, mid)
                            &&& same_taint_sets(mid, post)
                            &&& same_sources(pre, post)
                            &&& post.addr == nxt.addr
                            &&& post.index == pre.index
                        },
                }
            },
        }
    }
}

/// What the path state forked at a conditional branch looks like: it
/// continues at the branch's false target at index 1, with the same
/// taint sets the branching state carried immediately after its sources
/// fired, and the same source declarations.
#[verifier::opaque]
pub open spec fn taint_fork_rel(p: Program, pre: TaintState, fork: TaintState) -> bool {
    &&& spec_forks(p, pre)
    &&& match spec_insts_at(p, pre.addr)[0].llil {
        LlilInst::If(iff) => exists|mid: TaintState|
            {
                &&& #[trigger] apply_sources_rel(pre, mid)
                &&& same_taint_sets(mid, fork)
                &&& same_sources(pre, fork)
                &&& fork.addr == iff.target_false
                &&& fork.index == 1
            },
        _ => false,
    }
}

/// A copy of a name list, entry by entry.
fn dup_strings(v: &Vec<String>) -> (out: Vec<String>)
    ensures
        out@.len() == v@.len(),
        forall|i: int| 0 <= i < v@.len() ==> (#[trigger] out@[i])@ == v@[i]@,
{
    let mut out: Vec<String> = Vec::new();
    let mut i: usize = 0;
    while i < v.len()
        invariant
            i <= v@.len(),
            out@.len() == i,
            forall|k: int| 0 <= k < i ==> (#[trigger] out@[k])@ == v@[k]@,
        decreases v@.len() - i,
    {
        out.push(v[i].clone());
        i = i + 1;
    }
    out
}

/// A copy of an address list.
fn dup_u64s(v: &Vec<u64>) -> (out: Vec<u64>)
    ensures
        out@ == v@,
{
    let mut out: Vec<u64> = Vec::new();
    let mut i: usize = 0;
    while i < v.len()
        invariant
            i <= v@.len(),
            out@ == v@.take(i as int),
        decreases v@.len() - i,
    {
        out.push(v[i]);
        proof {
            assert(out@ =~= v@.take(i as int + 1));
        }
        i = i + 1;
    }
    proof {
        assert(v@.take(v@.len() as int) =~= v@);
    }
    out
}

/// A copy of the register source declarations, field by field.
fn dup_reg_sources(v: &Vec<RegTaintSource>) -> (out: Vec<RegTaintSource>)
    ensures
        out@.len() == v@.len(),
        forall|i: int|
            0 <= i < v@.len() ==> (#[trigger] out@[i]).instr == v@[i].instr && out@[i].index
                == v@[i].index && out@[i].reg@ == v@[i].reg@,
{
    let mut out: Vec<RegTaintSource> = Vec::new();
    let mut i: usize = 0;
    while i < v.len()
        invariant
            i <= v@.len(),
            out@.len() == i,
            forall|k: int|
                0 <= k < i ==> (#[trigger] out@[k]).instr == v@[k].instr && out@[k].index
                    == v@[k].index && out@[k].reg@ == v@[k].reg@,
        decreases v@.len() - i,
    {
        out.push(
            RegTaintSource {
                instr: v[i].instr,
                index: v[i].index,
                reg: v[i].reg.clone(),
            },
        );
        i = i + 1;
    }
    out
}

/// A copy of the stack source declarations.
fn dup_stack_sources(v: &Vec<StackTaintSource>) -> (out: Vec<StackTaintSource>)
    ensures
        out@ == v@,
{
    let mut out: Vec<StackTaintSource> = Vec::new();
    let mut i: usize = 0;
    while i < v.len()
        invariant
            i <= v@.len(),
            out@ == v@.take(i as int),
        decreases v@.len() - i,
    {
        out.push(v[i]);
        proof {
            assert(out@ =~= v@.take(i as int + 1));
        }
        i = i + 1;
    }
    proof {
        assert(v@.take(v@.len() as int) =~= v@);
    }
    out
}

/// Whether the name list holds the name, compared by contents.
fn contains_name(v: &Vec<String>, n: &String) -> (b: bool)
    ensures
        b == name_in(v@, n@),
{
    let mut i: usize = 0;
    while i < v.len()
        invariant
            i <= v@.len(),
            forall|k: int| 0 <= k < i ==> (#[trigger] v@[k])@ != n@,
        decreases v@.len() - i,
    {
        if v[i] == *n {
            return true;
        }
        i = i + 1;
    }
    false
}

/// Whether the address list holds the address.
fn contains_u64(v: &Vec<u64>, x: u64) -> (b: bool)
    ensures
        b == v@.contains(x),
{
    let mut i: usize = 0;
    while i < v.len()
        invariant
            i <= v@.len(),
            forall|k: int| 0 <= k < i ==> v@[k] != x,
        decreases v@.len() - i,
    {
        if v[i] == x {
            return true;
        }
        i = i + 1;
    }
    false
}

/// Adds the name to the list unless it is already there: afterwards the
/// list holds exactly the old names and this one.
fn add_name(v: &mut Vec<String>, n: &String)
    ensures
        forall|m: Seq<char>|
            #[trigger] name_in(final(v)@, m) == (name_in(old(v)@, m) || m == n@),
{
    if !contains_name(v, n) {
        let ghost pre = v@;
        v.push(n.clone());
        proof {
            assert forall|m: Seq<char>|
                #[trigger] name_in(v@, m) == (name_in(pre, m) || m == n@) by {
                if name_in(pre, m) {
                    let i = choose|i: int| 0 <= i < pre.len() && pre[i]@ == m;
                    assert(v@[i]@ == m);
                }
                if m == n@ {
                    assert(v@[pre.len() as int]@ == m);
                }
                if name_in(v@, m) {
                    let i = choose|i: int| 0 <= i < v@.len() && v@[i]@ == m;
                    if i < pre.len() {
                        assert(pre[i]@ == m);
                    }
                }
            }
        }
    }
}

/// Adds the address to the list unless it is already there.
fn add_addr(v: &mut Vec<u64>, x: u64)
    ensures
        forall|a: u64| #[trigger] final(v)@.contains(a) == (old(v)@.contains(a) || a == x),
{
    if !contains_u64(v, x) {
        let ghost pre = v@;
        v.push(x);
        proof {
            assert forall|a: u64| #[trigger] v@.contains(a) == (pre.contains(a) || a == x) by {
                if pre.contains(a) {
                    let i = choose|i: int| 0 <= i < pre.len() && pre[i] == a;
                    assert(v@[i] == a);
                }
                if a == x {
                    assert(v@[pre.len() as int] == a);
                }
                if v@.contains(a) {
                    let i = choose|i: int| 0 <= i < v@.len() && v@[i] == a;
                    if i < pre.len() {
                        assert(pre[i] == a);
                    }
                }
            }
        }
    }
}

/// Removes every entry carrying the name: afterwards the list holds
/// exactly the old names except this one.
fn remove_name(v: &mut Vec<String>, n: &String)
    ensures
        forall|m: Seq<char>|
            #[trigger] name_in(final(v)@, m) == (name_in(old(v)@, m) && m != n@),
{
    let ghost pre = v@;
    let mut out: Vec<String> = Vec::new();
    let mut i: usize = 0;
    while i < v.len()
        invariant
            i <= pre.len(),
            pre == v@,
            forall|k: int| 0 <= k < out@.len() ==> (#[trigger] out@[k])@ != n@,
            forall|k: int|
                0 <= k < out@.len() ==> name_in(pre.take(i as int), (#[trigger] out@[k])@),
            forall|j: int|
                0 <= j < i && (#[trigger] pre[j])@ != n@ ==> name_in(out@, pre[j]@),
        decreases pre.len() - i,
    {
        let keep: bool = !(v[i] == *n);
        if keep {
            let ghost outpre = out@;
            out.push(v[i].clone());
            proof {
                assert(out@[outpre.len() as int]@ == pre[i as int]@);
                assert forall|k: int|
                    0 <= k < out@.len() implies name_in(
                    pre.take(i as int + 1),
                    (#[trigger] out@[k])@,
                ) by {
                    if k < outpre.len() {
                        let j = choose|j: int|
                            0 <= j < pre.take(i as int).len() && pre.take(i as int)[j]@
                                == outpre[k]@;
                        assert(pre.take(i as int + 1)[j]@ == out@[k]@);
                    } else {
                        assert(pre.take(i as int + 1)[i as int]@ == out@[k]@);
                    }
                }
                assert forall|j: int|
                    0 <= j < i + 1 && (#[trigger] pre[j])@ != n@ implies name_in(
                    out@,
                    pre[j]@,
                ) by {
                    if j < i {
                        let k = choose|k: int|
                            0 <= k < outpre.len() && outpre[k]@ == pre[j]@;
                        assert(out@[k]@ == pre[j]@);
                    } else {
                        assert(out@[outpre.len() as int]@ == pre[j]@);
                    }
                }
            }
        } else {
            proof {
                assert forall|k: int|
                    0 <= k < out@.len() implies name_in(
                    pre.take(i as int + 1),
                    (#[trigger] out@[k])@,
                ) by {
                    let j = choose|j: int|
                        0 <= j < pre.take(i as int).len() && pre.take(i as int)[j]@ == out@[k]@;
                    assert(pre.take(i as int + 1)[j]@ == out@[k]@);
                }
            }
        }
        i = i + 1;
    }
    *v = out;
    proof {
        assert(pre.take(pre.len() as int) =~= pre);
        assert forall|m: Seq<char>|
            #[trigger] name_in(v@, m) == (name_in(pre, m) && m != n@) by {
            if name_in(v@, m) {
                let k = choose|k: int| 0 <= k < v@.len() && v@[k]@ == m;
                assert(name_in(pre.take(pre.len() as int), m));
            }
            if name_in(pre, m) && m != n@ {
                let j = choose|j: int| 0 <= j < pre.len() && pre[j]@ == m;
                assert(name_in(v@, pre[j]@));
            }
        }
    }
}

/// How many of the path states fork when stepped, counted from `i` on.
pub open spec fn fork_count_from(p: Program, states: Seq<TaintState>, i: int) -> int
    decreases states.len() - i,
{
    if i < 0 || i >= states.len() {
        0
    } else {
        (if spec_forks(p, states[i]) {
            1int
        } else {
            0int
        }) + fork_count_from(p, states, i + 1)
    }
}

/// The index of the path state, among the first `upto`, whose fork the
/// `k`-th gathered fork is.
pub open spec fn fork_origin(
    p: Program,
    olds: Seq<TaintState>,
    upto: int,
    forks: Seq<TaintState>,
    k: int,
) -> int {
    choose|i: int| 0 <= i < upto && #[trigger] taint_fork_rel(p, olds[i], forks[k])
}

/// The fork list gathered so far corresponds to the path states among
/// the first `upto` that fork: every gathered fork came from one of
/// them, and each of them placed a fork in the list.
pub open spec fn forks_match(
    p: Program,
    olds: Seq<TaintState>,
    upto: int,
    forks: Seq<TaintState>,
) -> bool {
    &&& forall|k: int|
        #![trigger forks[k]]
        0 <= k < forks.len() ==> {
            let i = fork_origin(p, olds, upto, forks, k);
            0 <= i < upto && taint_fork_rel(p, olds[i], forks[k])
        }
    &&& forall|i: int|
        0 <= i < upto && spec_forks(p, #[trigger] olds[i]) ==> (exists|k: int|
            0 <= k < forks.len() && #[trigger] taint_fork_rel(p, olds[i], forks[k]))
}

/// The index of the path state whose fork the appended state at `j` is.
pub open spec fn appended_fork_origin(
    p: Program,
    olds: Seq<TaintState>,
    news: Seq<TaintState>,
    j: int,
) -> int {
    choose|i: int| 0 <= i < olds.len() && #[trigger] taint_fork_rel(p, olds[i], news[j])
}

/// The stepped path states, with the gathered forks appended after them,
/// relate old and new state lists as the tracker's step promises: each
/// appended state is some old state's fork, and each forking old state
/// has its fork among the appended ones.
pub open spec fn step_forks_appended(
    p: Program,
    olds: Seq<TaintState>,
    news: Seq<TaintState>,
) -> bool {
    &&& forall|j: int|
        #![trigger news[j]]
        olds.len() <= j < news.len() ==> {
            let i = appended_fork_origin(p, olds, news, j);
            0 <= i < olds.len() && taint_fork_rel(p, olds[i], news[j])
        }
    &&& forall|i: int|
        0 <= i < olds.len() && spec_forks(p, #[trigger] olds[i]) ==> (exists|j: int|
            olds.len() <= j < news.len() && #[trigger] taint_fork_rel(p, olds[i], news[j]))
}

/// Gathering the fork of the path state at `i` extends the fork list's
/// correspondence from the first `i` path states to the first `i + 1`.
proof fn lemma_forks_match_push(
    p: Program,
    olds: Seq<TaintState>,
    i: int,
    before: Seq<TaintState>,
    f: TaintState,
)
    requires
        0 <= i < olds.len(),
        forks_match(p, olds, i, before),
        taint_fork_rel(p, olds[i], f),
    ensures
        forks_match(p, olds, i + 1, before.push(f)),
{
    let after = before.push(f);
    assert forall|k: int|
        #![trigger after[k]]
        0 <= k < after.len() implies {
        let i2 = fork_origin(p, olds, i + 1, after, k);
        0 <= i2 < i + 1 && taint_fork_rel(p, olds[i2], after[k])
    } by {
        if k < before.len() {
            let iw = fork_origin(p, olds, i, before, k);
            assert(after[k] == before[k]);
            assert(taint_fork_rel(p, olds[iw], after[k]));
            assert(exists|i2: int|
                0 <= i2 < i + 1 && #[trigger] taint_fork_rel(p, olds[i2], after[k]));
        } else {
            assert(after[k] == f);
            assert(taint_fork_rel(p, olds[i], after[k]));
            assert(exists|i2: int|
                0 <= i2 < i + 1 && #[trigger] taint_fork_rel(p, olds[i2], after[k]));
        }
    }
    assert forall|i2: int|
        0 <= i2 < i + 1 && spec_forks(p, #[trigger] olds[i2]) implies (exists|k: int|
        0 <= k < after.len() && #[trigger] taint_fork_rel(p, olds[i2], after[k])) by {
        if i2 < i {
            let k = choose|k: int|
                0 <= k < before.len() && #[trigger] taint_fork_rel(p, olds[i2], before[k]);
            assert(after[k] == before[k]);
            assert(taint_fork_rel(p, olds[i2], after[k]));
        } else {
            assert(after[before.len() as int] == f);
            assert(taint_fork_rel(p, olds[i2], after[before.len() as int]));
        }
    }
}

/// A path state that does not fork extends the correspondence without
/// touching the fork list.
proof fn lemma_forks_match_skip(
    p: Program,
    olds: Seq<TaintState>,
    i: int,
    forks: Seq<TaintState>,
)
    requires
        0 <= i < olds.len(),
        forks_match(p, olds, i, forks),
        !spec_forks(p, olds[i]),
    ensures
        forks_match(p, olds, i + 1, forks),
{
    assert forall|k: int|
        #![trigger forks[k]]
        0 <= k < forks.len() implies {
        let i2 = fork_origin(p, olds, i + 1, forks, k);
        0 <= i2 < i + 1 && taint_fork_rel(p, olds[i2], forks[k])
    } by {
        let iw = fork_origin(p, olds, i, forks, k);
        assert(taint_fork_rel(p, olds[iw], forks[k]));
        assert(exists|i2: int|
            0 <= i2 < i + 1 && #[trigger] taint_fork_rel(p, olds[i2], forks[k]));
    }
}

/// Appending the gathered forks after the stepped path states yields a
/// state list that relates to the old one as the tracker's step
/// promises.
proof fn lemma_forks_append(
    p: Program,
    olds: Seq<TaintState>,
    primaries: Seq<TaintState>,
    forks: Seq<TaintState>,
    news: Seq<TaintState>,
)
    requires
        news == primaries + forks,
        primaries.len() == olds.len(),
        forks_match(p, olds, olds.len() as int, forks),
    ensures
        step_forks_appended(p, olds, news),
{
    assert forall|j: int|
        #![trigger news[j]]
        olds.len() <= j < news.len() implies {
        let i = appended_fork_origin(p, olds, news, j);
        0 <= i < olds.len() && taint_fork_rel(p, olds[i], news[j])
    } by {
        assert(news[j] == forks[j - olds.len()]);
        let iw = fork_origin(p, olds, olds.len() as int, forks, j - olds.len());
        assert(taint_fork_rel(p, olds[iw], news[j]));
        assert(exists|i: int|
            0 <= i < olds.len() && #[trigger] taint_fork_rel(p, olds[i], news[j]));
    }
    assert forall|i: int|
        0 <= i < olds.len() && spec_forks(p, #[trigger] olds[i]) implies (exists|j: int|
        olds.len() <= j < news.len() && #[trigger] taint_fork_rel(p, olds[i], news[j])) by {
        let k = choose|k: int|
            0 <= k < forks.len() && #[trigger] taint_fork_rel(p, olds[i], forks[k]);
        assert(news[olds.len() + k] == forks[k]);
        assert(taint_fork_rel(p, olds[i], news[olds.len() + k]));
    }
}

/// A faithful copy of a path state: same site, same taint sets, same
/// sources.
fn dup_state(t: &TaintState) -> (out: TaintState)
    ensures
        ts_like(*t, out),
{
    TaintState {
        addr: t.addr,
        index: t.index,
        regs_tainted: dup_strings(&t.regs_tainted),
        stack_tainted: dup_u64s(&t.stack_tainted),
        reg_taint_sources: dup_reg_sources(&t.reg_taint_sources),
        stack_taint_sources: dup_stack_sources(&t.stack_taint_sources),
    }
}

/// The path state with every source whose site matches the current
/// address and index seeded into the taint sets.
fn apply_sources(t: &TaintState) -> (out: TaintState)
    ensures
        apply_sources_rel(*t, out),
{
    let mut regs: Vec<String> = dup_strings(&t.regs_tainted);
    let mut stack: Vec<u64> = dup_u64s(&t.stack_tainted);
    proof {
        assert forall|m: Seq<char>| #[trigger] name_in(regs@, m) == name_in(
            t.regs_tainted@,
            m,
        ) by {
            if name_in(regs@, m) {
                let i = choose|i: int| 0 <= i < regs@.len() && regs@[i]@ == m;
                assert(t.regs_tainted@[i]@ == m);
            }
            if name_in(t.regs_tainted@, m) {
                let i = choose|i: int| 0 <= i < t.regs_tainted@.len() && t.regs_tainted@[i]@ == m;
                assert(regs@[i]@ == m);
            }
        }
    }
    let mut j: usize = 0;
    while j < t.reg_taint_sources.len()
        invariant
            j <= t.reg_taint_sources@.len(),
            forall|m: Seq<char>|
                #[trigger] name_in(regs@, m) == (name_in(t.regs_tainted@, m) || (exists|k: int|
                    0 <= k < j && (#[trigger] t.reg_taint_sources@[k]).instr == t.addr
                        && t.reg_taint_sources@[k].index == t.index
                        && t.reg_taint_sources@[k].reg@ == m)),
        decreases t.reg_taint_sources@.len() - j,
    {
        let ghost regs_before: Seq<String> = regs@;
        let src = &t.reg_taint_sources[j];
        let fires: bool = src.instr == t.addr && src.index == t.index;
        if fires {
            add_name(&mut regs, &src.reg);
        }
        proof {
            assert forall|m: Seq<char>|
                #[trigger] name_in(regs@, m) == (name_in(t.regs_tainted@, m) || (exists|k: int|
                    0 <= k < j + 1 && (#[trigger] t.reg_taint_sources@[k]).instr == t.addr
                        && t.reg_taint_sources@[k].index == t.index
                        && t.reg_taint_sources@[k].reg@ == m)) by {
                let fired = exists|k: int|
                    0 <= k < j + 1 && (#[trigger] t.reg_taint_sources@[k]).instr == t.addr
                        && t.reg_taint_sources@[k].index == t.index
                        && t.reg_taint_sources@[k].reg@ == m;
                if fired {
                    let k = choose|k: int|
                        0 <= k < j + 1 && (#[trigger] t.reg_taint_sources@[k]).instr == t.addr
                            && t.reg_taint_sources@[k].index == t.index
                            && t.reg_taint_sources@[k].reg@ == m;
                    if k < j {
                        assert(name_in(regs_before, m));
                        assert(name_in(regs@, m));
                    } else {
                        assert(fires && m == src.reg@);
                        assert(name_in(regs@, m));
                    }
                }
                if name_in(regs@, m) && !name_in(t.regs_tainted@, m) {
                    if fires && m == src.reg@ {
                        assert(0 <= j < j + 1 && t.reg_taint_sources@[j as int].instr == t.addr
                            && t.reg_taint_sources@[j as int].index == t.index
                            && t.reg_taint_sources@[j as int].reg@ == m);
                    } else {
                        assert(name_in(regs_before, m));
                    }
                }
            }
        }
        j = j + 1;
    }
    let mut j2: usize = 0;
    while j2 < t.stack_taint_sources.len()
        invariant
            j2 <= t.stack_taint_sources@.len(),
            forall|a: u64|
                #[trigger] stack@.contains(a) == (t.stack_tainted@.contains(a) || (exists|
                    k: int,
                |
                    0 <= k < j2 && (#[trigger] t.stack_taint_sources@[k]).instr == t.addr
                        && t.stack_taint_sources@[k].index == t.index
                        && t.stack_taint_sources@[k].addr == a)),
        decreases t.stack_taint_sources@.len() - j2,
    {
        let ghost stack_before: Seq<u64> = stack@;
        let src = t.stack_taint_sources[j2];
        let fires: bool = src.instr == t.addr && src.index == t.index;
        if fires {
            add_addr(&mut stack, src.addr);
        }
        proof {
            assert forall|a: u64|
                #[trigger] stack@.contains(a) == (t.stack_tainted@.contains(a) || (exists|
                    k: int,
                |
                    0 <= k < j2 + 1 && (#[trigger] t.stack_taint_sources@[k]).instr == t.addr
                        && t.stack_taint_sources@[k].index == t.index
                        && t.stack_taint_sources@[k].addr == a)) by {
                let fired = exists|k: int|
                    0 <= k < j2 + 1 && (#[trigger] t.stack_taint_sources@[k]).instr == t.addr
                        && t.stack_taint_sources@[k].index == t.index
                        && t.stack_taint_sources@[k].addr == a;
                if fired {
                    let k = choose|k: int|
                        0 <= k < j2 + 1 && (#[trigger] t.stack_taint_sources@[k]).instr
                            == t.addr && t.stack_taint_sources@[k].index == t.index
                            && t.stack_taint_sources@[k].addr == a;
                    if k < j2 {
                        assert(stack_before.contains(a));
                    } else {
                        assert(fires && a == src.addr);
                    }
                }
                if stack@.contains(a) && !t.stack_tainted@.contains(a) {
                    if fires && a == src.addr {
                        assert(0 <= j2 < j2 + 1 && t.stack_taint_sources@[j2 as int].instr
                            == t.addr && t.stack_taint_sources@[j2 as int].index == t.index
                            && t.stack_taint_sources@[j2 as int].addr == a);
                    } else {
                        assert(stack_before.contains(a));
                    }
                }
            }
        }
        j2 = j2 + 1;
    }
    TaintState {
        addr: t.addr,
        index: t.index,
        regs_tainted: regs,
        stack_tainted: stack,
        reg_taint_sources: dup_reg_sources(&t.reg_taint_sources),
        stack_taint_sources: dup_stack_sources(&t.stack_taint_sources),
    }
}

impl<'a> TaintTracker<'a> {
    /// A taint run parked at the first instruction of the function
    /// carrying the given name, or at address 0 when no function carries
    /// it, with one live path state and nothing tainted yet.
    pub fn track_fun(program: &'a Program, name: String) -> (tr: TaintTracker<'a>)
        ensures
            tr.program == program,
            tr.states@.len() == 1,
            tr.states@[0].index == 1,
            tr.states@[0].regs_tainted@.len() == 0,
            tr.states@[0].stack_tainted@.len() == 0,
            tr.states@[0].reg_taint_sources@.len() == 0,
            tr.states@[0].stack_taint_sources@.len() == 0,
            ({
                let ni = func_named_from(program.functions@, name@, 0);
                if ni < program.functions@.len() {
                    tr.states@[0].addr == spec_llil_start(program.functions@[ni])
                } else {
                    tr.states@[0].addr == 0
                }
            }),
    {
        let ghost funcs: Seq<crate::program::Function> = program.functions@;
        let mut fi: usize = 0;
        while fi < program.functions.len()
            invariant
                fi <= funcs.len(),
                funcs == program.functions@,
                func_named_from(funcs, name@, 0) == func_named_from(funcs, name@, fi as int),
            decreases funcs.len() - fi,
        {
            if string_is(&program.functions[fi].name, name.as_str()) {
                let state = TaintState {
                    addr: program.functions[fi].llil_start(),
                    index: 1,
                    regs_tainted: Vec::new(),
                    stack_tainted: Vec::new(),
                    reg_taint_sources: Vec::new(),
                    stack_taint_sources: Vec::new(),
                };
                return TaintTracker { program, states: vec![state] };
            }
            fi = fi + 1;
        }
        let state = TaintState {
            addr: 0,
            index: 1,
            regs_tainted: Vec::new(),
            stack_tainted: Vec::new(),
            reg_taint_sources: Vec::new(),
            stack_taint_sources: Vec::new(),
        };
        TaintTracker { program, states: vec![state] }
    }

    /// A taint run parked at the program's `_start` function.
    pub fn entry(program: &'a Program) -> (tr: TaintTracker<'a>)
        ensures
            tr.program == program,
            tr.states@.len() == 1,
            tr.states@[0].index == 1,
            tr.states@[0].regs_tainted@.len() == 0,
            tr.states@[0].stack_tainted@.len() == 0,
            tr.states@[0].reg_taint_sources@.len() == 0,
            tr.states@[0].stack_taint_sources@.len() == 0,
            ({
                let ni = func_named_from(program.functions@, "_start"@, 0);
                if ni < program.functions@.len() {
                    tr.states@[0].addr == spec_llil_start(program.functions@[ni])
                } else {
                    tr.states@[0].addr == 0
                }
            }),
    {
        Self::track_fun(program, "_start".to_owned())
    }

    /// A taint run parked at the program's `main` function.
    pub fn main(program: &'a Program) -> (tr: TaintTracker<'a>)
        ensures
            tr.program == program,
            tr.states@.len() == 1,
            tr.states@[0].index == 1,
            tr.states@[0].regs_tainted@.len() == 0,
            tr.states@[0].stack_tainted@.len() == 0,
            tr.states@[0].reg_taint_sources@.len() == 0,
            tr.states@[0].stack_taint_sources@.len() == 0,
            ({
                let ni = func_named_from(program.functions@, "main"@, 0);
                if ni < program.functions@.len() {
                    tr.states@[0].addr == spec_llil_start(program.functions@[ni])
                } else {
                    tr.states@[0].addr == 0
                }
            }),
    {
        Self::track_fun(program, "main".to_owned())
    }

    /// Declares a register source on a path state: the register becomes
    /// tainted the moment the given instruction site is reached.
    pub fn taint_reg(state: &mut TaintState, reg: String, instr: u64, index: usize)
        ensures
            final(state).reg_taint_sources@ == old(state).reg_taint_sources@.push(
                RegTaintSource { instr, index, reg },
            ),
            final(state).addr == old(state).addr,
            final(state).index == old(state).index,
            final(state).regs_tainted == old(state).regs_tainted,
            final(state).stack_tainted == old(state).stack_tainted,
            final(state).stack_taint_sources == old(state).stack_taint_sources,
    {
        state.reg_taint_sources.push(RegTaintSource { instr, index, reg });
    }

    /// Declares a stack source on a path state: the address becomes
    /// tainted the moment the given instruction site is reached.
    pub fn taint_stack(state: &mut TaintState, addr: u64, instr: u64, index: usize)
        ensures
            final(state).stack_taint_sources@ == old(state).stack_taint_sources@.push(
                StackTaintSource { instr, index, addr },
            ),
            final(state).addr == old(state).addr,
            final(state).index == old(state).index,
            final(state).regs_tainted == old(state).regs_tainted,
            final(state).stack_tainted == old(state).stack_tainted,
            final(state).reg_taint_sources == old(state).reg_taint_sources,
    {
        state.stack_taint_sources.push(StackTaintSource { instr, index, addr });
    }

    /// Whether any register read in the expression is currently tainted
    /// under the path state: the OR over all source sub-expressions.
    pub fn expression_tainted(state: &TaintState, expr: &Expr, state_id: usize) -> (b: bool)
        ensures
            b == spec_expr_tainted(*state, *expr),
        decreases *expr, 0int,
    {
        match expr {
            Expr::Value(_) => false,
            Expr::Reg(r) => contains_name(&state.regs_tainted, &r.name),
            Expr::Flag(_) => false,
            Expr::Load(l) => Self::load_tainted(state, &l.source_mem, state_id),
            Expr::Add(a) => Self::expression_tainted(state, &a.left, state_id)
                || Self::expression_tainted(state, &a.right, state_id),
            Expr::Sub(a) => Self::expression_tainted(state, &a.left, state_id)
                || Self::expression_tainted(state, &a.right, state_id),
            Expr::And(a) => Self::expression_tainted(state, &a.left, state_id)
                || Self::expression_tainted(state, &a.right, state_id),
            Expr::Or(a) => Self::expression_tainted(state, &a.left, state_id)
                || Self::expression_tainted(state, &a.right, state_id),
            Expr::Xor(a) => Self::expression_tainted(state, &a.left, state_id)
                || Self::expression_tainted(state, &a.right, state_id),
            Expr::Mul(a) => Self::expression_tainted(state, &a.left, state_id)
                || Self::expression_tainted(state, &a.right, state_id),
            Expr::Divu(a) => Self::expression_tainted(state, &a.left, state_id)
                || Self::expression_tainted(state, &a.right, state_id),
            Expr::Divs(a) => Self::expression_tainted(state, &a.left, state_id)
                || Self::expression_tainted(state, &a.right, state_id),
            Expr::Modu(a) => Self::expression_tainted(state, &a.left, state_id)
                || Self::expression_tainted(state, &a.right, state_id),
            Expr::Mods(a) => Self::expression_tainted(state, &a.left, state_id)
                || Self::expression_tainted(state, &a.right, state_id),
            Expr::Lsl(a) => Self::expression_tainted(state, &a.left, state_id)
                || Self::expression_tainted(state, &a.right, state_id),
            Expr::Lsr(a) => Self::expression_tainted(state, &a.left, state_id)
                || Self::expression_tainted(state, &a.right, state_id),
            Expr::Asr(a) => Self::expression_tainted(state, &a.left, state_id)
                || Self::expression_tainted(state, &a.right, state_id),
            Expr::Rol(a) => Self::expression_tainted(state, &a.left, state_id)
                || Self::expression_tainted(state, &a.right, state_id),
            Expr::Ror(a) => Self::expression_tainted(state, &a.left, state_id)
                || Self::expression_tainted(state, &a.right, state_id),
            Expr::MulsDp(a) => Self::expression_tainted(state, &a.left, state_id)
                || Self::expression_tainted(state, &a.right, state_id),
            Expr::MuluDp(a) => Self::expression_tainted(state, &a.left, state_id)
                || Self::expression_tainted(state, &a.right, state_id),
            Expr::DivuDp(d) => Self::expression_tainted(state, &d.high, state_id)
                || Self::expression_tainted(state, &d.low, state_id)
                || Self::expression_tainted(state, &d.right, state_id),
            Expr::DivsDp(d) => Self::expression_tainted(state, &d.high, state_id)
                || Self::expression_tainted(state, &d.low, state_id)
                || Self::expression_tainted(state, &d.right, state_id),
            Expr::ModuDp(d) => Self::expression_tainted(state, &d.high, state_id)
                || Self::expression_tainted(state, &d.low, state_id)
                || Self::expression_tainted(state, &d.right, state_id),
            Expr::ModsDp(d) => Self::expression_tainted(state, &d.high, state_id)
                || Self::expression_tainted(state, &d.low, state_id)
                || Self::expression_tainted(state, &d.right, state_id),
            Expr::CmpE(c) => Self::expression_tainted(state, &c.left, state_id)
                || Self::expression_tainted(state, &c.right, state_id),
            Expr::CmpNe(c) => Self::expression_tainted(state, &c.left, state_id)
                || Self::expression_tainted(state, &c.right, state_id),
            Expr::CmpSlt(c) => Self::expression_tainted(state, &c.left, state_id)
                || Self::expression_tainted(state, &c.right, state_id),
            Expr::CmpSle(c) => Self::expression_tainted(state, &c.left, state_id)
                || Self::expression_tainted(state, &c.right, state_id),
            Expr::CmpSge(c) => Self::expression_tainted(state, &c.left, state_id)
                || Self::expression_tainted(state, &c.right, state_id),
            Expr::CmpSgt(c) => Self::expression_tainted(state, &c.left, state_id)
                || Self::expression_tainted(state, &c.right, state_id),
            Expr::CmpUlt(c) => Self::expression_tainted(state, &c.left, state_id)
                || Self::expression_tainted(state, &c.right, state_id),
            Expr::CmpUle(c) => Self::expression_tainted(state, &c.left, state_id)
                || Self::expression_tainted(state, &c.right, state_id),
            Expr::CmpUge(c) => Self::expression_tainted(state, &c.left, state_id)
                || Self::expression_tainted(state, &c.right, state_id),
            Expr::CmpUgt(c) => Self::expression_tainted(state, &c.left, state_id)
                || Self::expression_tainted(state, &c.right, state_id),
            Expr::Undef(_) => false,
        }
    }

    /// Whether the address expression of a load reads taint; the same OR
    /// rule as `expression_tainted`, kept as its own entry point for the
    /// load position.
    pub fn load_tainted(state: &TaintState, expr: &Expr, state_id: usize) -> (b: bool)
        ensures
            b == spec_expr_tainted(*state, *expr),
        decreases *expr, 1int,
    {
        Self::expression_tainted(state, expr, state_id)
    }

    /// Steps one path state: seeds its sources, applies the instruction's
    /// taint effect, moves control, and reports the forked state when the
    /// instruction was a conditional branch. A state that cannot resolve
    /// its instruction or its fall-through halts unchanged.
    fn step_one(p: &Program, t: &TaintState) -> (r: (TaintState, Option<TaintState>))
        ensures
            taint_step_primary(*p, *t, r.0),
            spec_forks(*p, *t) ==> (r.1 matches Some(fk) && taint_fork_rel(*p, *t, fk)),
            !spec_forks(*p, *t) ==> r.1 is None,
    {
        proof {
            reveal(taint_step_primary);
            reveal(taint_fork_rel);
        }
        let glen = p.group_len(t.addr);
        if glen == 0 {
            return (dup_state(t), None);
        }
        let inst = match p.inst_at(t.addr) {
            Ok(inst) => inst,
            Err(_) => {
                proof {
                    assert(spec_insts_at(*p, t.addr) =~= Seq::<crate::program::Inst>::empty());
                    assert(false);
                }
                return (dup_state(t), None);
            },
        };
        let next_addr: Option<u64> = match p.inst_after(t.addr) {
            Ok(nxt) => Some(nxt.addr),
            Err(_) => None,
        };
        match &inst.llil {
            LlilInst::SetReg(sr) => {
                let na = match next_addr {
                    Some(a) => a,
                    None => {
                        return (dup_state(t), None);
                    },
                };
                let mut mid = apply_sources(t);
                let ghost gmid = mid;
                let on = Self::expression_tainted(&mid, &sr.expr, 0);
                if on {
                    add_name(&mut mid.regs_tainted, &sr.reg);
                } else {
                    remove_name(&mut mid.regs_tainted, &sr.reg);
                }
                mid.addr = na;
                (mid, None)
            },
            LlilInst::SetRegSplit(sp) => {
                let na = match next_addr {
                    Some(a) => a,
                    None => {
                        return (dup_state(t), None);
                    },
                };
                let mut mid = apply_sources(t);
                let ghost gmid = mid;
                let on = Self::expression_tainted(&mid, &sp.source_expr, 0);
                if on {
                    add_name(&mut mid.regs_tainted, &sp.dest_reg_high);
                    add_name(&mut mid.regs_tainted, &sp.dest_reg_low);
                } else {
                    remove_name(&mut mid.regs_tainted, &sp.dest_reg_high);
                    remove_name(&mut mid.regs_tainted, &sp.dest_reg_low);
                }
                mid.addr = na;
                (mid, None)
            },
            LlilInst::SetFlag(sf) => {
                let na = match next_addr {
                    Some(a) => a,
                    None => {
                        return (dup_state(t), None);
                    },
                };
                let mut mid = apply_sources(t);
                let ghost gmid = mid;
                let on = contains_u64(&mid.stack_tainted, sf.addr);
                let flag_name: String = "rflags".to_owned();
                if on {
                    add_name(&mut mid.regs_tainted, &flag_name);
                } else {
                    remove_name(&mut mid.regs_tainted, &flag_name);
                }
                mid.addr = na;
                (mid, None)
            },
            LlilInst::Jump(j) => {
                let mut mid = apply_sources(t);
                mid.addr = j.addr;
                (mid, None)
            },
            LlilInst::JumpTo(j) => {
                let mut mid = apply_sources(t);
                mid.addr = j.addr;
                (mid, None)
            },
            LlilInst::Ret(rt) => {
                let mut mid = apply_sources(t);
                mid.addr = rt.addr;
                (mid, None)
            },
            LlilInst::If(iff) => {
                let mut mid = apply_sources(t);
                let fork = TaintState {
                    addr: iff.target_false,
                    index: 1,
                    regs_tainted: dup_strings(&mid.regs_tainted),
                    stack_tainted: dup_u64s(&mid.stack_tainted),
                    reg_taint_sources: dup_reg_sources(&mid.reg_taint_sources),
                    stack_taint_sources: dup_stack_sources(&mid.stack_taint_sources),
                };
                mid.addr = iff.target_true;
                (mid, Some(fork))
            },
            LlilInst::Goto(g) => {
                let mut mid = apply_sources(t);
                mid.index = g.target;
                (mid, None)
            },
            _ => {
                let na = match next_addr {
                    Some(a) => a,
                    None => {
                        return (dup_state(t), None);
                    },
                };
                let mut mid = apply_sources(t);
                mid.addr = na;
                (mid, None)
            },
        }
    }

    /// Steps every live path state once. Each state steps independently
    /// as `taint_step_primary` lays out; every state standing at a
    /// conditional branch contributes one forked state, and the forked
    /// states are appended after the stepped ones.
    #[verifier::rlimit(100)]
    pub fn step(&mut self)
        ensures
            final(self).program == old(self).program,
            final(self).states@.len() == old(self).states@.len() + fork_count_from(
                *old(self).program,
                old(self).states@,
                0,
            ),
            forall|i: int|
                0 <= i < old(self).states@.len() ==> taint_step_primary(
                    *old(self).program,
                    old(self).states@[i],
                    #[trigger] final(self).states@[i],
                ),
            step_forks_appended(*old(self).program, old(self).states@, final(self).states@),
    {
        let p = self.program;
        let n = self.states.len();
        let ghost olds: Seq<TaintState> = self.states@;
        let mut new_states: Vec<TaintState> = Vec::new();
        let mut forks: Vec<TaintState> = Vec::new();
        let mut i: usize = 0;
        while i < n
            invariant
                n == olds.len(),
                i <= n,
                olds == self.states@,
                p == self.program,
                new_states@.len() == i,
                forall|k: int|
                    0 <= k < i ==> taint_step_primary(*p, olds[k], #[trigger] new_states@[k]),
                forks@.len() + fork_count_from(*p, olds, i as int) == fork_count_from(
                    *p,
                    olds,
                    0,
                ),
                forks_match(*p, olds, i as int, forks@),
            decreases n - i,
        {
            let ghost forks_before: Seq<TaintState> = forks@;
            let (s1, fk) = Self::step_one(p, &self.states[i]);
            new_states.push(s1);
            proof {
                assert(fork_count_from(*p, olds, i as int) == (if spec_forks(
                    *p,
                    olds[i as int],
                ) {
                    1int
                } else {
                    0int
                }) + fork_count_from(*p, olds, i as int + 1));
            }
            match fk {
                Some(f) => {
                    proof {
                        lemma_forks_match_push(*p, olds, i as int, forks_before, f);
                    }
                    forks.push(f);
                },
                None => {
                    proof {
                        lemma_forks_match_skip(*p, olds, i as int, forks_before);
                    }
                },
            }
            i = i + 1;
        }
        let ghost primaries: Seq<TaintState> = new_states@;
        let ghost gforks: Seq<TaintState> = forks@;
        new_states.append(&mut forks);
        proof {
            assert(fork_count_from(*p, olds, n as int) == 0);
            lemma_forks_append(*p, olds, primaries, gforks, new_states@);
        }
        self.states = new_states;
    }
}

} // verus!
