//! The state the symbolic layer steps: the same sparse memory shape as
//! the concrete engine, a register file of bitvector values, and the
//! path constraints gathered at symbolic branches for a solver to check
//! when the caller asks.

use crate::bitvector::BV;
use crate::bitvector::BVS;
use crate::bitvector::BVV;
use crate::state::reg_slot;
use std::collections::HashMap;
use vstd::prelude::*;

verus! {

broadcast use vstd::std_specs::hash::group_hash_axioms;

/// The symbolic run's sparse memory: concrete addresses to concrete
/// values, write-populated; a symbolic address is never resolved into
/// it.
pub struct Memory {
    pub map: HashMap<u64, u64>,
}

impl Memory {
    /// An empty memory map.
    pub fn new() -> (m: Memory)
        ensures
            m.map@ == Map::<u64, u64>::empty(),
    {
        Memory { map: HashMap::new() }
    }

    /// Stores `value` at `addr`, replacing any earlier value there.
    pub fn store(&mut self, addr: u64, value: u64)
        ensures
            final(self).map@ == old(self).map@.insert(addr, value),
    {
        self.map.insert(addr, value);
    }

    /// Loads the value at `addr`; an address never stored to reads as 0.
    pub fn load(&self, addr: u64) -> (value: u64)
        ensures
            value == crate::state::spec_mem_get(self.map@, addr),
    {
        match self.map.get(&addr) {
            Some(v) => *v,
            None => 0,
        }
    }
}

/// The x86-64 register file over bitvector values, with the overflow
/// list for names outside the modeled set.
pub struct Regsx64 {
    pub rax: BV,
    pub rbx: BV,
    pub rcx: BV,
    pub rdx: BV,
    pub r8: BV,
    pub r9: BV,
    pub r10: BV,
    pub r11: BV,
    pub r12: BV,
    pub r13: BV,
    pub r14: BV,
    pub r15: BV,
    pub rsi: BV,
    pub rdi: BV,
    pub rsp: BV,
    pub rbp: BV,
    pub rip: BV,
    pub rflags: BV,
    pub rtemp: Vec<(String, BV)>,
}

/// The value the overflow list holds for a name: the most recent entry
/// carrying it, or the fallback the register file designates for names
/// never written.
pub open spec fn sym_rtemp_get(entries: Seq<(String, BV)>, n: Seq<char>, fallback: BV) -> BV
    decreases entries.len(),
{
    if entries.len() == 0 {
        fallback
    } else if entries.last().0@ == n {
        entries.last().1
    } else {
        sym_rtemp_get(entries.drop_last(), n, fallback)
    }
}

/// The bitvector the symbolic register file returns for a name: the
/// selected register; `rbp` for `fsbase`; for a name outside the modeled
/// set, the overflow list's entry, or `rax` when it was never written.
pub open spec fn spec_sym_reg_get(r: Regsx64, n: Seq<char>) -> BV {
    let s = reg_slot(n);
    if s == 0 {
        r.rax
    } else if s == 1 {
        r.rbx
    } else if s == 2 {
        r.rcx
    } else if s == 3 {
        r.rdx
    } else if s == 4 {
        r.r8
    } else if s == 5 {
        r.r9
    } else if s == 6 {
        r.r10
    } else if s == 7 {
        r.r11
    } else if s == 8 {
        r.r12
    } else if s == 9 {
        r.r13
    } else if s == 10 {
        r.r14
    } else if s == 11 {
        r.r15
    } else if s == 12 {
        r.rsi
    } else if s == 13 {
        r.rdi
    } else if s == 14 {
        r.rsp
    } else if s == 15 {
        r.rbp
    } else if s == 16 {
        r.rip
    } else if n == "fsbase"@ {
        r.rbp
    } else {
        sym_rtemp_get(r.rtemp@, n, r.rax)
    }
}

/// How writing a bitvector under a name changes the symbolic register
/// file: the selected register takes the value, every other slot keeps
/// its contents, and an unmodeled name appends to the overflow list.
pub open spec fn sym_reg_set_rel(pre: Regsx64, post: Regsx64, n: Seq<char>, value: BV) -> bool {
    let s = reg_slot(n);
    &&& post.rax == (if s == 0 { value } else { pre.rax })
    &&& post.rbx == (if s == 1 { value } else { pre.rbx })
    &&& post.rcx == (if s == 2 { value } else { pre.rcx })
    &&& post.rdx == (if s == 3 { value } else { pre.rdx })
    &&& post.r8 == (if s == 4 { value } else { pre.r8 })
    &&& post.r9 == (if s == 5 { value } else { pre.r9 })
    &&& post.r10 == (if s == 6 { value } else { pre.r10 })
    &&& post.r11 == (if s == 7 { value } else { pre.r11 })
    &&& post.r12 == (if s == 8 { value } else { pre.r12 })
    &&& post.r13 == (if s == 9 { value } else { pre.r13 })
    &&& post.r14 == (if s == 10 { value } else { pre.r14 })
    &&& post.r15 == (if s == 11 { value } else { pre.r15 })
    &&& post.rsi == (if s == 12 { value } else { pre.rsi })
    &&& post.rdi == (if s == 13 { value } else { pre.rdi })
    &&& post.rsp == (if s == 14 { value } else { pre.rsp })
    &&& post.rbp == (if s == 15 { value } else { pre.rbp })
    &&& post.rip == (if s == 16 { value } else { pre.rip })
    &&& post.rflags == pre.rflags
    &&& post.rtemp@.len() == (if s == 17 { pre.rtemp@.len() + 1 } else { pre.rtemp@.len() })
    &&& (s == 17 ==> post.rtemp@.drop_last() == pre.rtemp@ && post.rtemp@.last().0@ == n
        && post.rtemp@.last().1 == value)
    &&& (s != 17 ==> post.rtemp@ == pre.rtemp@)
}

impl Regsx64 {
    /// True of a symbolic register file holding the fixed concrete
    /// start-of-analysis values and an empty overflow list.
    pub open spec fn is_default(self) -> bool {
        &&& self.rax == BV::Concrete(BVV { size: 64, value: 0x004006f6 })
        &&& self.rbx == BV::Concrete(BVV { size: 64, value: 0x004008f0 })
        &&& self.rcx == BV::Concrete(BVV { size: 64, value: 0x004008f0 })
        &&& self.rdx == BV::Concrete(BVV { size: 64, value: 0x7fffffffe138 })
        &&& self.r8 == BV::Concrete(BVV { size: 64, value: 0 })
        &&& self.r9 == BV::Concrete(BVV { size: 64, value: 0x7ffff7fe0d50 })
        &&& self.r10 == BV::Concrete(BVV { size: 64, value: 0xfffffffffffff40c })
        &&& self.r11 == BV::Concrete(BVV { size: 64, value: 0x7ffff7de5fc0 })
        &&& self.r12 == BV::Concrete(BVV { size: 64, value: 0x00400600 })
        &&& self.r13 == BV::Concrete(BVV { size: 64, value: 0x7fffffffe170 })
        &&& self.r14 == BV::Concrete(BVV { size: 64, value: 0 })
        &&& self.r15 == BV::Concrete(BVV { size: 64, value: 0 })
        &&& self.rsi == BV::Concrete(BVV { size: 64, value: 0x7fffffffe128 })
        &&& self.rdi == BV::Concrete(BVV { size: 64, value: 0 })
        &&& self.rsp == BV::Concrete(BVV { size: 64, value: 0x7fffffffe088 })
        &&& self.rbp == BV::Concrete(BVV { size: 64, value: 0 })
        &&& self.rip == BV::Concrete(BVV { size: 64, value: 0 })
        &&& self.rflags == BV::Concrete(BVV { size: 64, value: 0 })
        &&& self.rtemp@.len() == 0
    }

    /// A symbolic register file holding the fixed concrete
    /// start-of-analysis values.
    pub fn new() -> (r: Regsx64)
        ensures
            r.is_default(),
    {
        Regsx64 {
            rax: BV::Concrete(BVV::from_u64(0x004006f6)),
            rbx: BV::Concrete(BVV::from_u64(0x004008f0)),
            rcx: BV::Concrete(BVV::from_u64(0x004008f0)),
            rdx: BV::Concrete(BVV::from_u64(0x7fffffffe138)),
            r8: BV::Concrete(BVV::from_u64(0x00000000)),
            r9: BV::Concrete(BVV::from_u64(0x7ffff7fe0d50)),
            r10: BV::Concrete(BVV::from_u64(0xfffffffffffff40c)),
            r11: BV::Concrete(BVV::from_u64(0x7ffff7de5fc0)),
            r12: BV::Concrete(BVV::from_u64(0x00400600)),
            r13: BV::Concrete(BVV::from_u64(0x7fffffffe170)),
            r14: BV::Concrete(BVV::from_u64(0x00000000)),
            r15: BV::Concrete(BVV::from_u64(0x00000000)),
            rsi: BV::Concrete(BVV::from_u64(0x7fffffffe128)),
            rdi: BV::Concrete(BVV::from_u64(0x00000000)),
            rsp: BV::Concrete(BVV::from_u64(0x7fffffffe088)),
            rbp: BV::Concrete(BVV::from_u64(0)),
            rip: BV::Concrete(BVV::from_u64(0)),
            rflags: BV::Concrete(BVV::from_u64(0)),
            rtemp: Vec::new(),
        }
    }

    /// Writes a bitvector under `name`; an unmodeled name is appended to
    /// the overflow list, where the most recent entry wins.
    pub fn set(&mut self, name: String, value: BV)
        ensures
            sym_reg_set_rel(*old(self), *final(self), name@, value),
    {
        if crate::state::string_is(&name, "rax") || crate::state::string_is(&name, "eax") {
            self.rax = value;
        } else if crate::state::string_is(&name, "rbx") || crate::state::string_is(
            &name,
            "ebx",
        ) {
            self.rbx = value;
        } else if crate::state::string_is(&name, "rcx") || crate::state::string_is(
            &name,
            "ecx",
        ) {
            self.rcx = value;
        } else if crate::state::string_is(&name, "rdx") || crate::state::string_is(
            &name,
            "edx",
        ) {
            self.rdx = value;
        } else if crate::state::string_is(&name, "r8") || crate::state::string_is(
            &name,
            "e8",
        ) {
            self.r8 = value;
        } else if crate::state::string_is(&name, "r9") || crate::state::string_is(
            &name,
            "e9",
        ) {
            self.r9 = value;
        } else if crate::state::string_is(&name, "r10") || crate::state::string_is(
            &name,
            "e10",
        ) {
            self.r10 = value;
        } else if crate::state::string_is(&name, "r11") || crate::state::string_is(
            &name,
            "e11",
        ) {
            self.r11 = value;
        } else if crate::state::string_is(&name, "r12") || crate::state::string_is(
            &name,
            "e12",
        ) {
            self.r12 = value;
        } else if crate::state::string_is(&name, "r13") || crate::state::string_is(
            &name,
            "e13",
        ) {
            self.r13 = value;
        } else if crate::state::string_is(&name, "r14") || crate::state::string_is(
            &name,
            "e14",
        ) {
            self.r14 = value;
        } else if crate::state::string_is(&name, "r15") || crate::state::string_is(
            &name,
            "e15",
        ) {
            self.r15 = value;
        } else if crate::state::string_is(&name, "rsi") || crate::state::string_is(
            &name,
            "esi",
        ) {
            self.rsi = value;
        } else if crate::state::string_is(&name, "rdi") || crate::state::string_is(
            &name,
            "edi",
        ) {
            self.rdi = value;
        } else if crate::state::string_is(&name, "rsp") || crate::state::string_is(
            &name,
            "esp",
        ) {
            self.rsp = value;
        } else if crate::state::string_is(&name, "rbp") || crate::state::string_is(
            &name,
            "ebp",
        ) {
            self.rbp = value;
        } else if crate::state::string_is(&name, "rip") || crate::state::string_is(
            &name,
            "eip",
        ) {
            self.rip = value;
        } else {
            self.rtemp.push((name, value));
            proof {
                assert(self.rtemp@.drop_last() =~= old(self).rtemp@);
            }
        }
    }

    /// Reads the bitvector under `name`: the selected register, `rbp`
    /// for `fsbase`, or the overflow list's most recent entry, falling
    /// back to `rax` for a name never written.
    pub fn get(&self, name: String) -> (value: BV)
        ensures
            value == spec_sym_reg_get(*self, name@),
    {
        if crate::state::string_is(&name, "rax") || crate::state::string_is(&name, "eax") {
            self.rax
        } else if crate::state::string_is(&name, "rbx") || crate::state::string_is(
            &name,
            "ebx",
        ) {
            self.rbx
        } else if crate::state::string_is(&name, "rcx") || crate::state::string_is(
            &name,
            "ecx",
        ) {
            self.rcx
        } else if crate::state::string_is(&name, "rdx") || crate::state::string_is(
            &name,
            "edx",
        ) {
            self.rdx
        } else if crate::state::string_is(&name, "r8") || crate::state::string_is(
            &name,
            "e8",
        ) {
            self.r8
        } else if crate::state::string_is(&name, "r9") || crate::state::string_is(
            &name,
            "e9",
        ) {
            self.r9
        } else if crate::state::string_is(&name, "r10") || crate::state::string_is(
            &name,
            "e10",
        ) {
            self.r10
        } else if crate::state::string_is(&name, "r11") || crate::state::string_is(
            &name,
            "e11",
        ) {
            self.r11
        } else if crate::state::string_is(&name, "r12") || crate::state::string_is(
            &name,
            "e12",
        ) {
            self.r12
        } else if crate::state::string_is(&name, "r13") || crate::state::string_is(
            &name,
            "e13",
        ) {
            self.r13
        } else if crate::state::string_is(&name, "r14") || crate::state::string_is(
            &name,
            "e14",
        ) {
            self.r14
        } else if crate::state::string_is(&name, "r15") || crate::state::string_is(
            &name,
            "e15",
        ) {
            self.r15
        } else if crate::state::string_is(&name, "rsi") || crate::state::string_is(
            &name,
            "esi",
        ) {
            self.rsi
        } else if crate::state::string_is(&name, "rdi") || crate::state::string_is(
            &name,
            "edi",
        ) {
            self.rdi
        } else if crate::state::string_is(&name, "rsp") || crate::state::string_is(
            &name,
            "esp",
        ) {
            self.rsp
        } else if crate::state::string_is(&name, "rbp") || crate::state::string_is(
            &name,
            "ebp",
        ) {
            self.rbp
        } else if crate::state::string_is(&name, "rip") || crate::state::string_is(
            &name,
            "eip",
        ) {
            self.rip
        } else if crate::state::string_is(&name, "fsbase") {
            self.rbp
        } else {
            let ghost full: Seq<(String, BV)> = self.rtemp@;
            let mut i: usize = self.rtemp.len();
            proof {
                assert(full.take(i as int) =~= full);
            }
            while i > 0
                invariant
                    i <= full.len(),
                    full == self.rtemp@,
                    reg_slot(name@) == 17,
                    name@ != "fsbase"@,
                    sym_rtemp_get(full, name@, self.rax) == sym_rtemp_get(
                        full.take(i as int),
                        name@,
                        self.rax,
                    ),
                decreases i,
            {
                i = i - 1;
                proof {
                    assert(full.take(i as int + 1).len() == i + 1);
                    assert(full.take(i as int + 1).last() == full[i as int]);
                    assert(full.take(i as int + 1).drop_last() =~= full.take(i as int));
                }
                let entry_matches: bool = self.rtemp[i].0 == name;
                if entry_matches {
                    return self.rtemp[i].1;
                }
            }
            proof {
                assert(full.take(0) =~= Seq::<(String, BV)>::empty());
            }
            self.rax
        }
    }
}

/// The whole state of one symbolic run: the current program address and
/// intra-group index, the bitvector register file, the concrete sparse
/// memory, the call-return stack, the simulated input buffer, and the
/// path constraints gathered at symbolic branches.
pub struct SymbolicState {
    pub addr: u64,
    pub index: usize,
    pub memory: Memory,
    pub regs: Regsx64,
    pub call_stack: Vec<u64>,
    pub stdin: String,
    pub constraints: Vec<BV>,
}

impl SymbolicState {
    /// The starting symbolic state: address and index 0, the fixed
    /// concrete register values, empty memory, empty call stack, no
    /// constraints, and the fixed simulated input.
    pub fn new() -> (s: SymbolicState)
        ensures
            s.addr == 0,
            s.index == 0,
            s.memory.map@ == Map::<u64, u64>::empty(),
            s.regs.is_default(),
            s.call_stack@ == Seq::<u64>::empty(),
            s.stdin@ == "Here is some test stdin"@,
            s.constraints@ == Seq::<BV>::empty(),
    {
        SymbolicState {
            addr: 0,
            index: 0,
            memory: Memory::new(),
            regs: Regsx64::new(),
            call_stack: Vec::new(),
            stdin: "Here is some test stdin".to_owned(),
            constraints: Vec::new(),
        }
    }
}

} // verus!
