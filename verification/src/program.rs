//! The lifted program the engine walks: functions made of blocks made of
//! IR instructions, addressed by a 64-bit program address plus an
//! intra-address sequence index, because one machine address can lift to
//! several IR micro-operations. The lifter that produces this data is an
//! outside collaborator; callers hand the engine a fully built `Program`.

use crate::expression::Expr;
use vstd::prelude::*;

verus! {

/// One IR instruction site: its machine address, its operation, and the
/// disassembly text the lifter rendered for it.
pub struct Inst {
    pub addr: u64,
    pub llil: LlilInst,
    pub disass: String,
}

/// An instruction paired with its position in the flattened instruction
/// list of the function that holds it.
pub struct Index<'a> {
    pub inst: &'a Inst,
    pub index: u64,
}

/// The IR instruction vocabulary. Anything the lifter produces outside
/// this set degrades to `Undef`, which the engines step over without
/// touching the state.
pub enum LlilInst {
    SetReg(SetReg),
    SetRegSplit(SetRegSplit),
    SetFlag(SetFlag),
    Store(Store),
    Push(Push),
    Jump(Jump),
    JumpTo(JumpTo),
    Call(Call),
    Ret(Ret),
    If(If),
    Nop,
    NoRet,
    Goto(Goto),
    Syscall,
    Bp,
    Trap,
    Undef,
}

/// Assigns the evaluated expression to the named register.
pub struct SetReg {
    pub expr: Expr,
    pub reg: String,
}

/// Assigns the high and low 32-bit halves of the evaluated expression to
/// two registers.
pub struct SetRegSplit {
    pub dest_reg_high: String,
    pub dest_reg_low: String,
    pub source_expr: Expr,
}

/// Sets a flag tied to a stack address; only the taint layer interprets
/// it.
pub struct SetFlag {
    pub addr: u64,
}

/// Stores the evaluated source at the evaluated destination address.
pub struct Store {
    pub dest_mem_expr: Expr,
    pub source_expr: Expr,
}

/// Pushes the evaluated operand onto the stack.
pub struct Push {
    pub expr: Expr,
}

/// An unconditional jump to a fixed address.
pub struct Jump {
    pub addr: u64,
}

/// A jump through a lifted jump table, reduced to its resolved address.
pub struct JumpTo {
    pub addr: u64,
}

/// A call whose target is an expression.
pub struct Call {
    pub target: Expr,
}

/// A return; `addr` records the lifter's guess of the return site, the
/// engine itself returns through the call stack.
pub struct Ret {
    pub addr: u64,
}

/// A conditional branch: zero routes to `target_false`, anything else to
/// `target_true`.
pub struct If {
    pub condition: Expr,
    pub target_true: u64,
    pub target_false: u64,
}

/// Intra-address control: moves the sequence index within the current
/// instruction group, not the program address.
pub struct Goto {
    pub target: usize,
}

/// A resolved return site as some lifters report it alongside `Ret`.
pub struct Return {
    pub target: u64,
}

/// One basic block: its start address and its instructions in order.
pub struct Block {
    pub addr: u64,
    pub insts: Vec<Inst>,
}

/// One lifted function: its symbol name, start address, and blocks in
/// order.
pub struct Function {
    pub name: String,
    pub addr: u64,
    pub blocks: Vec<Block>,
}

/// The whole lifted program: its functions in the lifter's order.
pub struct Program {
    pub functions: Vec<Function>,
}

/// The instructions of the first `n` blocks, flattened in order.
pub open spec fn flat_insts_upto(blocks: Seq<Block>, n: int) -> Seq<Inst>
    decreases n,
{
    if n <= 0 {
        Seq::empty()
    } else {
        flat_insts_upto(blocks, n - 1) + blocks[n - 1].insts@
    }
}

/// All instructions of a function, flattened across its blocks in order.
pub open spec fn flat_insts(f: Function) -> Seq<Inst> {
    flat_insts_upto(f.blocks@, f.blocks@.len() as int)
}

/// Whether some instruction in the sequence carries the address.
pub open spec fn has_inst_at(s: Seq<Inst>, addr: u64) -> bool {
    exists|i: int| 0 <= i < s.len() && (#[trigger] s[i]).addr == addr
}

/// The positions, from `i` on, of the instructions carrying the address.
pub open spec fn match_positions_from(s: Seq<Inst>, addr: u64, i: int) -> Seq<int>
    decreases s.len() - i,
{
    if i < 0 || i >= s.len() {
        Seq::empty()
    } else if s[i].addr == addr {
        seq![i] + match_positions_from(s, addr, i + 1)
    } else {
        match_positions_from(s, addr, i + 1)
    }
}

/// The instruction group an address selects: every instruction carrying
/// the address, in order.
pub open spec fn spec_group(s: Seq<Inst>, addr: u64) -> Seq<Inst> {
    match_positions_from(s, addr, 0).map_values(|p: int| s[p])
}

/// The position of the first instruction from `i` on carrying the
/// address, or the sequence's length if none does.
pub open spec fn first_at_from(s: Seq<Inst>, addr: u64, i: int) -> int
    decreases s.len() - i,
{
    if i < 0 || i >= s.len() {
        s.len() as int
    } else if s[i].addr == addr {
        i
    } else {
        first_at_from(s, addr, i + 1)
    }
}

/// The position of the first instruction from `i` on not carrying the
/// address, or the sequence's length if all do.
pub open spec fn first_not_at_from(s: Seq<Inst>, addr: u64, i: int) -> int
    decreases s.len() - i,
{
    if i < 0 || i >= s.len() {
        s.len() as int
    } else if s[i].addr != addr {
        i
    } else {
        first_not_at_from(s, addr, i + 1)
    }
}

/// The index, from `i` on, of the first function with a block holding an
/// instruction at the address, or the function count if none has one.
pub open spec fn func_idx_from(funcs: Seq<Function>, addr: u64, i: int) -> int
    decreases funcs.len() - i,
{
    if i < 0 || i >= funcs.len() {
        funcs.len() as int
    } else if has_inst_at(flat_insts(funcs[i]), addr) {
        i
    } else {
        func_idx_from(funcs, addr, i + 1)
    }
}

/// The index of the first function holding an instruction at the address,
/// or the function count if none does.
pub open spec fn func_idx(p: Program, addr: u64) -> int {
    func_idx_from(p.functions@, addr, 0)
}

/// Whether some function of the program holds an instruction at the
/// address.
pub open spec fn prog_has_addr(p: Program, addr: u64) -> bool {
    func_idx(p, addr) < p.functions@.len()
}

/// The flattened instructions of the first function holding the address,
/// or the empty sequence if no function does.
pub open spec fn spec_prog_flat(p: Program, addr: u64) -> Seq<Inst> {
    if prog_has_addr(p, addr) {
        flat_insts(p.functions@[func_idx(p, addr)])
    } else {
        Seq::empty()
    }
}

/// The instruction group the program holds at the address: every
/// instruction carrying the address within the first function that holds
/// it.
pub open spec fn spec_insts_at(p: Program, addr: u64) -> Seq<Inst> {
    spec_group(spec_prog_flat(p, addr), addr)
}

/// The instruction the program falls through to after the group at the
/// address: the first instruction after the run that begins at the first
/// occurrence of the address, or nothing at the end of the function.
pub open spec fn spec_inst_after(p: Program, addr: u64) -> Option<Inst> {
    let s = spec_prog_flat(p, addr);
    let i = first_at_from(s, addr, 0);
    if i >= s.len() {
        Option::None
    } else {
        let j = first_not_at_from(s, addr, i);
        if j >= s.len() {
            Option::None
        } else {
            Option::Some(s[j])
        }
    }
}

/// The index, from `i` on, of the first function whose start address is
/// `addr`, or the function count if none starts there.
pub open spec fn func_at_from(funcs: Seq<Function>, addr: u64, i: int) -> int
    decreases funcs.len() - i,
{
    if i < 0 || i >= funcs.len() {
        funcs.len() as int
    } else if funcs[i].addr == addr {
        i
    } else {
        func_at_from(funcs, addr, i + 1)
    }
}

/// The index, from `i` on, of the first function named `name`, or the
/// function count if none carries the name.
pub open spec fn func_named_from(funcs: Seq<Function>, name: Seq<char>, i: int) -> int
    decreases funcs.len() - i,
{
    if i < 0 || i >= funcs.len() {
        funcs.len() as int
    } else if funcs[i].name@ == name {
        i
    } else {
        func_named_from(funcs, name, i + 1)
    }
}

/// The address of a function's first instruction, or 0 for a function
/// with none.
pub open spec fn spec_llil_start(f: Function) -> u64 {
    if flat_insts(f).len() > 0 {
        flat_insts(f)[0].addr
    } else {
        0
    }
}

impl Function {
    /// The function's blocks, in order.
    pub fn blocks(&self) -> (blocks: &Vec<Block>)
        ensures
            blocks == &self.blocks,
    {
        &self.blocks
    }

    /// The function's instructions flattened across its blocks, as
    /// references in order.
    pub(crate) fn flat_refs(&self) -> (v: Vec<&Inst>)
        ensures
            v@.len() == flat_insts(*self).len(),
            forall|k: int| 0 <= k < v@.len() ==> *(#[trigger] v@[k]) == flat_insts(*self)[k],
    {
        let ghost bks: Seq<Block> = self.blocks@;
        let mut v: Vec<&Inst> = Vec::new();
        let mut bi: usize = 0;
        while bi < self.blocks.len()
            invariant
                bi <= bks.len(),
                bks == self.blocks@,
                v@.len() == flat_insts_upto(bks, bi as int).len(),
                forall|k: int|
                    0 <= k < v@.len() ==> *(#[trigger] v@[k]) == flat_insts_upto(
                        bks,
                        bi as int,
                    )[k],
            decreases bks.len() - bi,
        {
            let mut ii: usize = 0;
            proof {
                assert(flat_insts_upto(bks, bi as int + 1) == flat_insts_upto(bks, bi as int)
                    + bks[bi as int].insts@);
            }
            while ii < self.blocks[bi].insts.len()
                invariant
                    bi < bks.len(),
                    ii <= bks[bi as int].insts@.len(),
                    bks == self.blocks@,
                    flat_insts_upto(bks, bi as int + 1) == flat_insts_upto(bks, bi as int)
                        + bks[bi as int].insts@,
                    v@.len() == flat_insts_upto(bks, bi as int).len() + ii,
                    forall|k: int|
                        0 <= k < v@.len() ==> *(#[trigger] v@[k]) == flat_insts_upto(
                            bks,
                            bi as int + 1,
                        )[k],
                decreases bks[bi as int].insts@.len() - ii,
            {
                v.push(&self.blocks[bi].insts[ii]);
                ii = ii + 1;
            }
            bi = bi + 1;
            proof {
                assert(forall|k: int|
                    0 <= k < v@.len() ==> *(#[trigger] v@[k]) == flat_insts_upto(
                        bks,
                        bi as int,
                    )[k]);
            }
        }
        v
    }

    /// The address of the function's first instruction, or 0 for a
    /// function with no instructions.
    pub fn llil_start(&self) -> (start: u64)
        ensures
            flat_insts(*self).len() > 0 ==> start == flat_insts(*self)[0].addr,
            flat_insts(*self).len() == 0 ==> start == 0,
    {
        let v = self.flat_refs();
        if v.len() > 0 {
            v[0].addr
        } else {
            0
        }
    }

    /// How many instructions the function holds across its blocks.
    pub fn length(&self) -> (count: u64)
        ensures
            count as nat == flat_insts(*self).len(),
    {
        let v = self.flat_refs();
        v.len() as u64
    }

    /// The instruction at a position of the function's flattened list, or
    /// an error for a position out of range.
    pub fn llil_at_index(&self, index: usize) -> (r: Result<&Inst, String>)
        ensures
            index < flat_insts(*self).len() ==> (r matches Ok(inst) && *inst == flat_insts(
                *self,
            )[index as int]),
            index >= flat_insts(*self).len() ==> r is Err,
    {
        let v = self.flat_refs();
        if index < v.len() {
            Ok(v[index])
        } else {
            Err("Instruction index is out of range".to_owned())
        }
    }
}

impl Block {
    /// The block's instructions, in order.
    pub fn llil(&self) -> (insts: &Vec<Inst>)
        ensures
            insts == &self.insts,
    {
        &self.insts
    }
}

impl Program {
    /// A program over the given lifted functions.
    pub fn new(functions: Vec<Function>) -> (p: Program)
        ensures
            p.functions == functions,
    {
        Program { functions }
    }

    /// The program's functions, in the lifter's order.
    pub fn functions(&self) -> (functions: &Vec<Function>)
        ensures
            functions == &self.functions,
    {
        &self.functions
    }

    /// The index of the first function holding an instruction at the
    /// address, if any does.
    #[verifier::loop_isolation(false)]
    pub(crate) fn function_index_containing(&self, addr: u64) -> (r: Option<usize>)
        ensures
            prog_has_addr(*self, addr) ==> (r matches Some(fi) && fi as int == func_idx(
                *self,
                addr,
            )),
            !prog_has_addr(*self, addr) ==> r is None,
    {
        let ghost funcs: Seq<Function> = self.functions@;
        let mut fi: usize = 0;
        while fi < self.functions.len()
            invariant
                fi <= funcs.len(),
                funcs == self.functions@,
                func_idx_from(funcs, addr, 0) == func_idx_from(funcs, addr, fi as int),
            decreases funcs.len() - fi,
        {
            let v = self.functions[fi].flat_refs();
            let mut k: usize = 0;
            let ghost flat: Seq<Inst> = flat_insts(funcs[fi as int]);
            while k < v.len()
                invariant
                    k <= v@.len(),
                    v@.len() == flat.len(),
                    forall|j: int| 0 <= j < v@.len() ==> *(#[trigger] v@[j]) == flat[j],
                    forall|j: int| 0 <= j < k ==> (#[trigger] flat[j]).addr != addr,
                decreases v@.len() - k,
            {
                if v[k].addr == addr {
                    proof {
                        assert(has_inst_at(flat, addr));
                    }
                    return Some(fi);
                }
                k = k + 1;
            }
            proof {
                assert(!has_inst_at(flat, addr));
            }
            fi = fi + 1;
        }
        None
    }

    /// The first function whose start address is `addr`, or an error when
    /// none starts there.
    pub fn function_at(&self, addr: u64) -> (r: Result<&Function, String>)
        ensures
            func_at_from(self.functions@, addr, 0) < self.functions@.len() ==> (r matches Ok(f)
                && *f == self.functions@[func_at_from(self.functions@, addr, 0)]),
            func_at_from(self.functions@, addr, 0) >= self.functions@.len() ==> r is Err,
    {
        let ghost funcs: Seq<Function> = self.functions@;
        let mut fi: usize = 0;
        while fi < self.functions.len()
            invariant
                fi <= funcs.len(),
                funcs == self.functions@,
                func_at_from(funcs, addr, 0) == func_at_from(funcs, addr, fi as int),
            decreases funcs.len() - fi,
        {
            if self.functions[fi].addr == addr {
                return Ok(&self.functions[fi]);
            }
            fi = fi + 1;
        }
        Err("Function not found".to_owned())
    }

    /// The first function holding an instruction at the address, or an
    /// error when no function contains it.
    pub fn function_containing(&self, addr: u64) -> (r: Result<&Function, String>)
        ensures
            prog_has_addr(*self, addr) ==> (r matches Ok(f) && *f == self.functions@[func_idx(
                *self,
                addr,
            )]),
            !prog_has_addr(*self, addr) ==> r is Err,
    {
        match self.function_index_containing(addr) {
            Some(fi) => Ok(&self.functions[fi]),
            None => Err("Couldn't find function".to_owned()),
        }
    }

    /// The first block of the containing function that holds an
    /// instruction at the address, or an error when no function contains
    /// it.
    #[verifier::loop_isolation(false)]
    pub fn block_at(&self, addr: u64) -> (r: Result<&Block, String>)
        ensures
            !prog_has_addr(*self, addr) ==> r is Err,
            prog_has_addr(*self, addr) ==> (r matches Ok(b) && exists|bi: int|
                0 <= bi < self.functions@[func_idx(*self, addr)].blocks@.len() && *b
                    == self.functions@[func_idx(*self, addr)].blocks@[bi] && has_inst_at(
                    b.insts@,
                    addr,
                )),
    {
        let fi = match self.function_index_containing(addr) {
            Some(fi) => fi,
            None => {
                return Err("Couldn't find block at address".to_owned());
            },
        };
        let f = &self.functions[fi];
        let ghost flat: Seq<Inst> = flat_insts(*f);
        proof {
            lemma_func_idx_from(self.functions@, addr, 0);
        }
        let mut bi: usize = 0;
        while bi < f.blocks.len()
            invariant
                bi <= f.blocks@.len(),
                flat == flat_insts(*f),
                forall|j: int|
                    0 <= j < bi ==> !has_inst_at(
                        (#[trigger] f.blocks@[j]).insts@,
                        addr,
                    ),
                has_inst_at(flat, addr),
            decreases f.blocks@.len() - bi,
        {
            let b = &f.blocks[bi];
            let mut k: usize = 0;
            while k < b.insts.len()
                invariant
                    k <= b.insts@.len(),
                    b == &f.blocks@[bi as int],
                    forall|j: int| 0 <= j < k ==> (#[trigger] b.insts@[j]).addr != addr,
                decreases b.insts@.len() - k,
            {
                if b.insts[k].addr == addr {
                    proof {
                        assert(has_inst_at(b.insts@, addr));
                        assert((bi as int) < f.blocks@.len() && *b == f.blocks@[bi as int]
                            && has_inst_at(b.insts@, addr));
                    }
                    return Ok(b);
                }
                k = k + 1;
            }
            proof {
                assert(!has_inst_at(f.blocks@[bi as int].insts@, addr));
            }
            bi = bi + 1;
        }
        proof {
            lemma_no_block_no_flat(f.blocks@, addr, f.blocks@.len() as int);
            assert(false);
        }
        Err("Couldn't find block at address".to_owned())
    }
}

/// What the match positions of an address look like: each position lies
/// in range and carries the address, the first one is the first match,
/// every match from `i` on is listed, and the list is in order.
pub proof fn lemma_match_positions_from(s: Seq<Inst>, addr: u64, i: int)
    requires
        0 <= i <= s.len(),
    ensures
        forall|k: int|
            0 <= k < match_positions_from(s, addr, i).len() ==> i <= #[trigger]
            match_positions_from(s, addr, i)[k] < s.len() && s[match_positions_from(
                s,
                addr,
                i,
            )[k]].addr == addr,
        match_positions_from(s, addr, i).len() > 0 ==> match_positions_from(s, addr, i)[0]
            == first_at_from(s, addr, i),
        forall|j: int|
            i <= j < s.len() && (#[trigger] s[j]).addr == addr ==> match_positions_from(
                s,
                addr,
                i,
            ).contains(j),
        forall|k1: int, k2: int|
            0 <= k1 < k2 < match_positions_from(s, addr, i).len()
                ==> #[trigger] match_positions_from(s, addr, i)[k1]
                < #[trigger] match_positions_from(s, addr, i)[k2],
    decreases s.len() - i,
{
    if i < s.len() {
        lemma_match_positions_from(s, addr, i + 1);
        let rest = match_positions_from(s, addr, i + 1);
        let here = match_positions_from(s, addr, i);
        if s[i].addr == addr {
            assert(here == seq![i] + rest);
            assert forall|j: int|
                i <= j < s.len() && (#[trigger] s[j]).addr == addr implies here.contains(
                j,
            ) by {
                if j == i {
                    assert(here[0] == j);
                } else {
                    let k = choose|k: int| 0 <= k < rest.len() && rest[k] == j;
                    assert(here[k + 1] == j);
                }
            }
        } else {
            assert(here == rest);
        }
    }
}

/// The position a first-match search from `i` settles on: it lies between
/// `i` and the length, it carries the address when in range, and nothing
/// passed over does.
pub proof fn lemma_first_at_from(s: Seq<Inst>, addr: u64, i: int)
    requires
        0 <= i <= s.len(),
    ensures
        i <= first_at_from(s, addr, i) <= s.len(),
        first_at_from(s, addr, i) < s.len() ==> s[first_at_from(s, addr, i)].addr == addr,
        forall|j: int|
            i <= j < first_at_from(s, addr, i) ==> (#[trigger] s[j]).addr != addr,
    decreases s.len() - i,
{
    if i < s.len() && s[i].addr != addr {
        lemma_first_at_from(s, addr, i + 1);
    }
}

/// The first function index a search from `i` settles on: the result lies
/// between `i` and the function count, the settled function holds an
/// instruction at the address, and no function passed over does.
pub proof fn lemma_func_idx_from(funcs: Seq<Function>, addr: u64, i: int)
    requires
        0 <= i <= funcs.len(),
    ensures
        i <= func_idx_from(funcs, addr, i) <= funcs.len(),
        func_idx_from(funcs, addr, i) < funcs.len() ==> has_inst_at(
            flat_insts(funcs[func_idx_from(funcs, addr, i)]),
            addr,
        ),
        forall|j: int|
            i <= j < func_idx_from(funcs, addr, i) ==> !has_inst_at(
                flat_insts(#[trigger] funcs[j]),
                addr,
            ),
    decreases funcs.len() - i,
{
    if i < funcs.len() && !has_inst_at(flat_insts(funcs[i]), addr) {
        lemma_func_idx_from(funcs, addr, i + 1);
    }
}

impl Program {
    /// The first instruction at the address, or an error when no function
    /// holds one. The group at an address is never empty when its function
    /// exists, so this is the group's head.
    #[verifier::loop_isolation(false)]
    pub fn inst_at(&self, addr: u64) -> (r: Result<&Inst, String>)
        ensures
            prog_has_addr(*self, addr) ==> (r matches Ok(inst) && spec_insts_at(
                *self,
                addr,
            ).len() > 0 && *inst == spec_insts_at(*self, addr)[0]),
            !prog_has_addr(*self, addr) ==> r is Err,
    {
        let fi = match self.function_index_containing(addr) {
            Some(fi) => fi,
            None => {
                return Err("Couldn't find instruction".to_owned());
            },
        };
        let v = self.functions[fi].flat_refs();
        let ghost flat: Seq<Inst> = spec_prog_flat(*self, addr);
        let ghost gpos: Seq<int> = match_positions_from(flat, addr, 0);
        proof {
            lemma_func_idx_from(self.functions@, addr, 0);
            lemma_match_positions_from(flat, addr, 0);
            lemma_first_at_from(flat, addr, 0);
            let w = choose|j: int| 0 <= j < flat.len() && (#[trigger] flat[j]).addr == addr;
            assert(gpos.contains(w));
        }
        let mut i: usize = 0;
        while i < v.len()
            invariant
                i <= v@.len(),
                first_at_from(flat, addr, 0) == first_at_from(flat, addr, i as int),
            decreases v@.len() - i,
        {
            if v[i].addr == addr {
                return Ok(v[i]);
            }
            i = i + 1;
        }
        proof {
            assert(false);
        }
        Err("Couldn't find instruction".to_owned())
    }

    /// The instruction the program falls through to after the group at
    /// the address, or an error at the end of the function or when no
    /// function holds the address.
    #[verifier::loop_isolation(false)]
    pub fn inst_after(&self, addr: u64) -> (r: Result<&Inst, String>)
        ensures
            (r matches Ok(inst) && spec_inst_after(*self, addr) == Some(*inst)) || (r is Err
                && spec_inst_after(*self, addr) is None),
    {
        let fi = match self.function_index_containing(addr) {
            Some(fi) => fi,
            None => {
                return Err("Couldn't find instruction".to_owned());
            },
        };
        let v = self.functions[fi].flat_refs();
        let ghost flat: Seq<Inst> = spec_prog_flat(*self, addr);
        let mut i: usize = 0;
        while i < v.len()
            invariant
                i <= v@.len(),
                first_at_from(flat, addr, 0) == first_at_from(flat, addr, i as int),
            decreases v@.len() - i,
        {
            if v[i].addr == addr {
                let mut j: usize = i;
                while j < v.len()
                    invariant
                        i <= j <= v@.len(),
                        first_at_from(flat, addr, 0) == i as int,
                        first_not_at_from(flat, addr, i as int) == first_not_at_from(
                            flat,
                            addr,
                            j as int,
                        ),
                    decreases v@.len() - j,
                {
                    if v[j].addr != addr {
                        return Ok(v[j]);
                    }
                    j = j + 1;
                }
                return Err("Couldn't find instruction".to_owned());
            }
            i = i + 1;
        }
        Err("Couldn't find instruction".to_owned())
    }

    /// Every instruction at the address, each paired with its position in
    /// the containing function's flattened instruction list, or an error
    /// when no function holds the address.
    #[verifier::loop_isolation(false)]
    pub fn insts_at_addr(&self, addr: u64) -> (r: Result<Vec<Index<'_>>, String>)
        ensures
            !prog_has_addr(*self, addr) ==> r is Err,
            prog_has_addr(*self, addr) ==> (r matches Ok(v) && {
                let group = spec_insts_at(*self, addr);
                let gpos = match_positions_from(spec_prog_flat(*self, addr), addr, 0);
                &&& v@.len() == group.len()
                &&& forall|j: int|
                    0 <= j < v@.len() ==> *(#[trigger] v@[j]).inst == group[j] && v@[j].index
                        as int == gpos[j]
            }),
    {
        let fi = match self.function_index_containing(addr) {
            Some(fi) => fi,
            None => {
                return Err("Could not find any instructions at address".to_owned());
            },
        };
        let v = self.functions[fi].flat_refs();
        let ghost flat: Seq<Inst> = spec_prog_flat(*self, addr);
        let ghost gpos: Seq<int> = match_positions_from(flat, addr, 0);
        proof {
            lemma_match_positions_from(flat, addr, 0);
        }
        let mut out: Vec<Index<'_>> = Vec::new();
        let mut i: usize = 0;
        proof {
            assert(gpos.skip(0) =~= gpos);
        }
        while i < v.len()
            invariant
                i <= v@.len(),
                out@.len() <= i,
                gpos.skip(out@.len() as int) == match_positions_from(flat, addr, i as int),
                gpos.len() == out@.len() + match_positions_from(flat, addr, i as int).len(),
                forall|j: int|
                    0 <= j < out@.len() ==> *(#[trigger] out@[j]).inst == flat[gpos[j]]
                        && out@[j].index as int == gpos[j],
            decreases v@.len() - i,
        {
            let ghost rem = match_positions_from(flat, addr, i as int);
            if v[i].addr == addr {
                proof {
                    assert(rem == seq![i as int] + match_positions_from(
                        flat,
                        addr,
                        i as int + 1,
                    ));
                    lemma_positions_step(
                        gpos,
                        rem,
                        match_positions_from(flat, addr, i as int + 1),
                        out@.len() as int,
                        i as int,
                    );
                }
                out.push(Index { inst: v[i], index: i as u64 });
            }
            i = i + 1;
        }
        proof {
            assert(gpos.len() == out@.len());
            assert(forall|j: int|
                0 <= j < out@.len() ==> *(#[trigger] out@[j]).inst == spec_insts_at(
                    *self,
                    addr,
                )[j]);
        }
        Ok(out)
    }

    /// How many instructions the group at the address holds; 0 when no
    /// function holds the address.
    #[verifier::loop_isolation(false)]
    pub(crate) fn group_len(&self, addr: u64) -> (n: usize)
        ensures
            n == spec_insts_at(*self, addr).len(),
    {
        let fi = match self.function_index_containing(addr) {
            Some(fi) => fi,
            None => {
                proof {
                    assert(spec_prog_flat(*self, addr) =~= Seq::<Inst>::empty());
                }
                return 0;
            },
        };
        let v = self.functions[fi].flat_refs();
        let ghost flat: Seq<Inst> = spec_prog_flat(*self, addr);
        let ghost gpos: Seq<int> = match_positions_from(flat, addr, 0);
        let mut count: usize = 0;
        let mut i: usize = 0;
        proof {
            assert(gpos.skip(0) =~= gpos);
        }
        while i < v.len()
            invariant
                i <= v@.len(),
                count <= i,
                gpos.skip(count as int) == match_positions_from(flat, addr, i as int),
                gpos.len() == count + match_positions_from(flat, addr, i as int).len(),
            decreases v@.len() - i,
        {
            let ghost rem = match_positions_from(flat, addr, i as int);
            if v[i].addr == addr {
                proof {
                    assert(rem == seq![i as int] + match_positions_from(
                        flat,
                        addr,
                        i as int + 1,
                    ));
                    lemma_positions_step(
                        gpos,
                        rem,
                        match_positions_from(flat, addr, i as int + 1),
                        count as int,
                        i as int,
                    );
                }
                count = count + 1;
            }
            i = i + 1;
        }
        count
    }

    /// The instruction at position `k` of the group at the address, if the
    /// group reaches that far.
    #[verifier::loop_isolation(false)]
    pub(crate) fn nth_at_addr(&self, addr: u64, k: usize) -> (r: Option<&Inst>)
        ensures
            (k as int) < spec_insts_at(*self, addr).len() ==> (r matches Some(inst) && *inst
                == spec_insts_at(*self, addr)[k as int]),
            (k as int) >= spec_insts_at(*self, addr).len() ==> r is None,
    {
        let fi = match self.function_index_containing(addr) {
            Some(fi) => fi,
            None => {
                proof {
                    assert(spec_prog_flat(*self, addr) =~= Seq::<Inst>::empty());
                }
                return None;
            },
        };
        let v = self.functions[fi].flat_refs();
        let ghost flat: Seq<Inst> = spec_prog_flat(*self, addr);
        let ghost gpos: Seq<int> = match_positions_from(flat, addr, 0);
        proof {
            lemma_match_positions_from(flat, addr, 0);
        }
        let mut count: usize = 0;
        let mut i: usize = 0;
        proof {
            assert(gpos.skip(0) =~= gpos);
        }
        while i < v.len()
            invariant
                i <= v@.len(),
                count <= i,
                count <= k,
                gpos.skip(count as int) == match_positions_from(flat, addr, i as int),
                gpos.len() == count + match_positions_from(flat, addr, i as int).len(),
            decreases v@.len() - i,
        {
            let ghost rem = match_positions_from(flat, addr, i as int);
            if v[i].addr == addr {
                proof {
                    assert(rem == seq![i as int] + match_positions_from(
                        flat,
                        addr,
                        i as int + 1,
                    ));
                    lemma_positions_step(
                        gpos,
                        rem,
                        match_positions_from(flat, addr, i as int + 1),
                        count as int,
                        i as int,
                    );
                }
                if count == k {
                    return Some(v[i]);
                }
                count = count + 1;
            }
            i = i + 1;
        }
        None
    }
}

/// One step of walking the match positions: when the remainder of the
/// position list starts with position `i`, that position is the next
/// listed one and the remainder past it is the list's further tail.
pub proof fn lemma_positions_step(gpos: Seq<int>, rem: Seq<int>, next: Seq<int>, c: int, i: int)
    requires
        0 <= c,
        c + rem.len() == gpos.len(),
        gpos.skip(c) == rem,
        rem == seq![i] + next,
    ensures
        gpos[c] == i,
        gpos.skip(c + 1) == next,
        gpos.len() == c + 1 + next.len(),
{
    assert(rem[0] == i);
    assert(gpos.skip(c)[0] == gpos[c]);
    assert forall|m: int| 0 <= m < next.len() implies gpos.skip(c + 1)[m] == next[m] by {
        assert((seq![i] + next)[m + 1] == next[m]);
        assert(gpos.skip(c)[m + 1] == gpos[c + 1 + m]);
        assert(gpos.skip(c + 1)[m] == gpos[c + 1 + m]);
    }
    assert(gpos.skip(c + 1) =~= next);
}

/// If no block among the first `n` holds an instruction at the address,
/// the flattened first `n` blocks hold none either.
pub proof fn lemma_no_block_no_flat(blocks: Seq<Block>, addr: u64, n: int)
    requires
        n <= blocks.len(),
        forall|j: int| 0 <= j < n ==> !has_inst_at((#[trigger] blocks[j]).insts@, addr),
    ensures
        !has_inst_at(flat_insts_upto(blocks, n), addr),
    decreases n,
{
    if n > 0 {
        lemma_no_block_no_flat(blocks, addr, n - 1);
        let prefix = flat_insts_upto(blocks, n - 1);
        let whole = flat_insts_upto(blocks, n);
        assert(whole == prefix + blocks[n - 1].insts@);
        assert forall|i: int| 0 <= i < whole.len() implies (#[trigger] whole[i]).addr
            != addr by {
            if i < prefix.len() {
                assert(whole[i] == prefix[i]);
            } else {
                assert(whole[i] == blocks[n - 1].insts@[i - prefix.len()]);
            }
        }
    }
}

} // verus!
