//! Machine state for the analysis engine: the per-architecture register
//! file, the sparse memory map, and the combined `State` that one analysis
//! run owns exclusively.

use std::collections::HashMap;
use vstd::prelude::*;

verus! {

broadcast use vstd::std_specs::hash::group_hash_axioms;

/// Numeric tag for the x86-64 architecture.
pub const ARCH_X86_64: u64 = 0;

/// Numeric tag for the 32-bit Arm architecture.
pub const ARCH_ARM: u64 = 1;

/// Numeric tag for the Aarch64 architecture.
pub const ARCH_AARCH64: u64 = 2;

/// The architectures the register file can be laid out for. `Unknown`
/// stands for every tag outside the modeled vocabulary, so that decoding a
/// tag is total.
#[derive(Clone, Copy, PartialEq, Eq, Structural, Debug)]
pub enum Arch {
    X86_64,
    Arm,
    Aarch64,
    Unknown,
}

/// The architecture a numeric tag decodes to.
pub open spec fn spec_arch_from(value: u64) -> Arch {
    if value == ARCH_X86_64 {
        Arch::X86_64
    } else if value == ARCH_ARM {
        Arch::Arm
    } else if value == ARCH_AARCH64 {
        Arch::Aarch64
    } else {
        Arch::Unknown
    }
}

impl Arch {
    /// Decodes a numeric architecture tag; tags outside the vocabulary
    /// decode to `Unknown` rather than failing.
    pub fn from_u64(value: u64) -> (arch: Arch)
        ensures
            arch == spec_arch_from(value),
    {
        if value == ARCH_X86_64 {
            Arch::X86_64
        } else if value == ARCH_ARM {
            Arch::Arm
        } else if value == ARCH_AARCH64 {
            Arch::Aarch64
        } else {
            Arch::Unknown
        }
    }
}

/// The numeric tag for an architecture name as the lifter reports it; only
/// x86-64 is modeled, every other name maps to `u64::MAX`.
pub open spec fn spec_arch_tag(name: Seq<char>) -> u64 {
    if name == "x86_64"@ {
        ARCH_X86_64
    } else {
        u64::MAX
    }
}

/// Maps a lifter architecture name to its numeric tag: `"x86_64"` to
/// `ARCH_X86_64`, anything else to `u64::MAX`.
#[allow(non_snake_case)]
pub fn Convert_Arch_To_Enum(arch_string: String) -> (tag: u64)
    ensures
        tag == spec_arch_tag(arch_string@),
{
    if string_is(&arch_string, "x86_64") {
        ARCH_X86_64
    } else {
        u64::MAX
    }
}

/// True exactly when `name` reads as the literal `lit`.
pub(crate) fn string_is(name: &String, lit: &str) -> (b: bool)
    ensures
        b == (name@ == lit@),
{
    let owned: String = lit.to_owned();
    *name == owned
}

/// The x86-64 register file: the named 64-bit registers, plus an overflow
/// list for names outside the modeled set. A 32-bit alias (`eax`, `esp`,
/// ...) reads and writes the full 64-bit register it belongs to.
pub struct Regsx64 {
    pub rax: u64,
    pub rbx: u64,
    pub rcx: u64,
    pub rdx: u64,
    pub r8: u64,
    pub r9: u64,
    pub r10: u64,
    pub r11: u64,
    pub r12: u64,
    pub r13: u64,
    pub r14: u64,
    pub r15: u64,
    pub rsi: u64,
    pub rdi: u64,
    pub rsp: u64,
    pub rbp: u64,
    pub rip: u64,
    pub rflags: u64,
    pub rtemp: Vec<(String, u64)>,
}

/// The slot a register name selects, following the order the register file
/// tests names in: slots 0 through 16 are the named registers, slot 17 is
/// the overflow list.
pub open spec fn reg_slot(n: Seq<char>) -> int {
    if n == "rax"@ || n == "eax"@ {
        0
    } else if n == "rbx"@ || n == "ebx"@ {
        1
    } else if n == "rcx"@ || n == "ecx"@ {
        2
    } else if n == "rdx"@ || n == "edx"@ {
        3
    } else if n == "r8"@ || n == "e8"@ {
        4
    } else if n == "r9"@ || n == "e9"@ {
        5
    } else if n == "r10"@ || n == "e10"@ {
        6
    } else if n == "r11"@ || n == "e11"@ {
        7
    } else if n == "r12"@ || n == "e12"@ {
        8
    } else if n == "r13"@ || n == "e13"@ {
        9
    } else if n == "r14"@ || n == "e14"@ {
        10
    } else if n == "r15"@ || n == "e15"@ {
        11
    } else if n == "rsi"@ || n == "esi"@ {
        12
    } else if n == "rdi"@ || n == "edi"@ {
        13
    } else if n == "rsp"@ || n == "esp"@ {
        14
    } else if n == "rbp"@ || n == "ebp"@ {
        15
    } else if n == "rip"@ || n == "eip"@ {
        16
    } else {
        17
    }
}

/// The slot each concrete register name selects. String literals are
/// opaque until revealed, so every contract that speaks of a named register
/// leans on this lemma to pin the slots down.
pub proof fn lemma_reg_slots()
    ensures
        reg_slot("rax"@) == 0 && reg_slot("eax"@) == 0,
        reg_slot("rbx"@) == 1 && reg_slot("ebx"@) == 1,
        reg_slot("rcx"@) == 2 && reg_slot("ecx"@) == 2,
        reg_slot("rdx"@) == 3 && reg_slot("edx"@) == 3,
        reg_slot("r8"@) == 4 && reg_slot("e8"@) == 4,
        reg_slot("r9"@) == 5 && reg_slot("e9"@) == 5,
        reg_slot("r10"@) == 6 && reg_slot("e10"@) == 6,
        reg_slot("r11"@) == 7 && reg_slot("e11"@) == 7,
        reg_slot("r12"@) == 8 && reg_slot("e12"@) == 8,
        reg_slot("r13"@) == 9 && reg_slot("e13"@) == 9,
        reg_slot("r14"@) == 10 && reg_slot("e14"@) == 10,
        reg_slot("r15"@) == 11 && reg_slot("e15"@) == 11,
        reg_slot("rsi"@) == 12 && reg_slot("esi"@) == 12,
        reg_slot("rdi"@) == 13 && reg_slot("edi"@) == 13,
        reg_slot("rsp"@) == 14 && reg_slot("esp"@) == 14,
        reg_slot("rbp"@) == 15 && reg_slot("ebp"@) == 15,
        reg_slot("rip"@) == 16 && reg_slot("eip"@) == 16,
        reg_slot("rflags"@) == 17,
        reg_slot("fsbase"@) == 17,
        "fsbase"@ != "rsp"@ && "fsbase"@ != "rax"@ && "fsbase"@ != "rflags"@,
{
    reveal_strlit("rax");
    reveal_strlit("eax");
    reveal_strlit("rbx");
    reveal_strlit("ebx");
    reveal_strlit("rcx");
    reveal_strlit("ecx");
    reveal_strlit("rdx");
    reveal_strlit("edx");
    reveal_strlit("r8");
    reveal_strlit("e8");
    reveal_strlit("r9");
    reveal_strlit("e9");
    reveal_strlit("r10");
    reveal_strlit("e10");
    reveal_strlit("r11");
    reveal_strlit("e11");
    reveal_strlit("r12");
    reveal_strlit("e12");
    reveal_strlit("r13");
    reveal_strlit("e13");
    reveal_strlit("r14");
    reveal_strlit("e14");
    reveal_strlit("r15");
    reveal_strlit("e15");
    reveal_strlit("rsi");
    reveal_strlit("esi");
    reveal_strlit("rdi");
    reveal_strlit("edi");
    reveal_strlit("rsp");
    reveal_strlit("esp");
    reveal_strlit("rbp");
    reveal_strlit("ebp");
    reveal_strlit("rip");
    reveal_strlit("eip");
    reveal_strlit("rflags");
    reveal_strlit("fsbase");
    assert("rax"@.len() == 3);
    assert("rax"@[0] == 'r');
    assert("rax"@[1] == 'a');
    assert("rax"@[2] == 'x');
    assert("eax"@.len() == 3);
    assert("eax"@[0] == 'e');
    assert("eax"@[1] == 'a');
    assert("eax"@[2] == 'x');
    assert("rbx"@.len() == 3);
    assert("rbx"@[0] == 'r');
    assert("rbx"@[1] == 'b');
    assert("rbx"@[2] == 'x');
    assert("ebx"@.len() == 3);
    assert("ebx"@[0] == 'e');
    assert("ebx"@[1] == 'b');
    assert("ebx"@[2] == 'x');
    assert("rcx"@.len() == 3);
    assert("rcx"@[0] == 'r');
    assert("rcx"@[1] == 'c');
    assert("rcx"@[2] == 'x');
    assert("ecx"@.len() == 3);
    assert("ecx"@[0] == 'e');
    assert("ecx"@[1] == 'c');
    assert("ecx"@[2] == 'x');
    assert("rdx"@.len() == 3);
    assert("rdx"@[0] == 'r');
    assert("rdx"@[1] == 'd');
    assert("rdx"@[2] == 'x');
    assert("edx"@.len() == 3);
    assert("edx"@[0] == 'e');
    assert("edx"@[1] == 'd');
    assert("edx"@[2] == 'x');
    assert("r8"@.len() == 2);
    assert("r8"@[0] == 'r');
    assert("r8"@[1] == '8');
    assert("e8"@.len() == 2);
    assert("e8"@[0] == 'e');
    assert("e8"@[1] == '8');
    assert("r9"@.len() == 2);
    assert("r9"@[0] == 'r');
    assert("r9"@[1] == '9');
    assert("e9"@.len() == 2);
    assert("e9"@[0] == 'e');
    assert("e9"@[1] == '9');
    assert("r10"@.len() == 3);
    assert("r10"@[0] == 'r');
    assert("r10"@[1] == '1');
    assert("r10"@[2] == '0');
    assert("e10"@.len() == 3);
    assert("e10"@[0] == 'e');
    assert("e10"@[1] == '1');
    assert("e10"@[2] == '0');
    assert("r11"@.len() == 3);
    assert("r11"@[0] == 'r');
    assert("r11"@[1] == '1');
    assert("r11"@[2] == '1');
    assert("e11"@.len() == 3);
    assert("e11"@[0] == 'e');
    assert("e11"@[1] == '1');
    assert("e11"@[2] == '1');
    assert("r12"@.len() == 3);
    assert("r12"@[0] == 'r');
    assert("r12"@[1] == '1');
    assert("r12"@[2] == '2');
    assert("e12"@.len() == 3);
    assert("e12"@[0] == 'e');
    assert("e12"@[1] == '1');
    assert("e12"@[2] == '2');
    assert("r13"@.len() == 3);
    assert("r13"@[0] == 'r');
    assert("r13"@[1] == '1');
    assert("r13"@[2] == '3');
    assert("e13"@.len() == 3);
    assert("e13"@[0] == 'e');
    assert("e13"@[1] == '1');
    assert("e13"@[2] == '3');
    assert("r14"@.len() == 3);
    assert("r14"@[0] == 'r');
    assert("r14"@[1] == '1');
    assert("r14"@[2] == '4');
    assert("e14"@.len() == 3);
    assert("e14"@[0] == 'e');
    assert("e14"@[1] == '1');
    assert("e14"@[2] == '4');
    assert("r15"@.len() == 3);
    assert("r15"@[0] == 'r');
    assert("r15"@[1] == '1');
    assert("r15"@[2] == '5');
    assert("e15"@.len() == 3);
    assert("e15"@[0] == 'e');
    assert("e15"@[1] == '1');
    assert("e15"@[2] == '5');
    assert("rsi"@.len() == 3);
    assert("rsi"@[0] == 'r');
    assert("rsi"@[1] == 's');
    assert("rsi"@[2] == 'i');
    assert("esi"@.len() == 3);
    assert("esi"@[0] == 'e');
    assert("esi"@[1] == 's');
    assert("esi"@[2] == 'i');
    assert("rdi"@.len() == 3);
    assert("rdi"@[0] == 'r');
    assert("rdi"@[1] == 'd');
    assert("rdi"@[2] == 'i');
    assert("edi"@.len() == 3);
    assert("edi"@[0] == 'e');
    assert("edi"@[1] == 'd');
    assert("edi"@[2] == 'i');
    assert("rsp"@.len() == 3);
    assert("rsp"@[0] == 'r');
    assert("rsp"@[1] == 's');
    assert("rsp"@[2] == 'p');
    assert("esp"@.len() == 3);
    assert("esp"@[0] == 'e');
    assert("esp"@[1] == 's');
    assert("esp"@[2] == 'p');
    assert("rbp"@.len() == 3);
    assert("rbp"@[0] == 'r');
    assert("rbp"@[1] == 'b');
    assert("rbp"@[2] == 'p');
    assert("ebp"@.len() == 3);
    assert("ebp"@[0] == 'e');
    assert("ebp"@[1] == 'b');
    assert("ebp"@[2] == 'p');
    assert("rip"@.len() == 3);
    assert("rip"@[0] == 'r');
    assert("rip"@[1] == 'i');
    assert("rip"@[2] == 'p');
    assert("eip"@.len() == 3);
    assert("eip"@[0] == 'e');
    assert("eip"@[1] == 'i');
    assert("eip"@[2] == 'p');
    assert("rflags"@.len() == 6);
    assert("rflags"@[0] == 'r');
    assert("rflags"@[1] == 'f');
    assert("rflags"@[2] == 'l');
    assert("rflags"@[3] == 'a');
    assert("rflags"@[4] == 'g');
    assert("rflags"@[5] == 's');
    assert("fsbase"@.len() == 6);
    assert("fsbase"@[0] == 'f');
    assert("fsbase"@[1] == 's');
    assert("fsbase"@[2] == 'b');
    assert("fsbase"@[3] == 'a');
    assert("fsbase"@[4] == 's');
    assert("fsbase"@[5] == 'e');
}

/// The value the overflow list holds for a name: the value of the most
/// recent entry carrying that name, or 0 if the name was never written.
pub open spec fn rtemp_spec_get(entries: Seq<(String, u64)>, n: Seq<char>) -> u64
    decreases entries.len(),
{
    if entries.len() == 0 {
        0
    } else if entries.last().0@ == n {
        entries.last().1
    } else {
        rtemp_spec_get(entries.drop_last(), n)
    }
}

/// The value the register file returns for a name: the selected register,
/// 0 for `fsbase`, or the overflow list's value for the name.
pub open spec fn spec_reg_get(r: Regsx64, n: Seq<char>) -> u64 {
    let s = reg_slot(n);
    if s == 0 {
        r.rax
    } else if s == 1 {
        r.rbx
    } else if s == 2 {
        r.rcx
    } else if s == 3 {
        r.rdx
    } else if s == 4 {
        r.r8
    } else if s == 5 {
        r.r9
    } else if s == 6 {
        r.r10
    } else if s == 7 {
        r.r11
    } else if s == 8 {
        r.r12
    } else if s == 9 {
        r.r13
    } else if s == 10 {
        r.r14
    } else if s == 11 {
        r.r15
    } else if s == 12 {
        r.rsi
    } else if s == 13 {
        r.rdi
    } else if s == 14 {
        r.rsp
    } else if s == 15 {
        r.rbp
    } else if s == 16 {
        r.rip
    } else if n == "fsbase"@ {
        0
    } else {
        rtemp_spec_get(r.rtemp@, n)
    }
}

/// How writing `value` under `n` changes the register file: the selected
/// register takes the value, every other slot keeps its old contents, and a
/// name outside the modeled set appends to the overflow list.
pub open spec fn reg_set_rel(pre: Regsx64, post: Regsx64, n: Seq<char>, value: u64) -> bool {
    let s = reg_slot(n);
    &&& post.rax == (if s == 0 { value } else { pre.rax })
    &&& post.rbx == (if s == 1 { value } else { pre.rbx })
    &&& post.rcx == (if s == 2 { value } else { pre.rcx })
    &&& post.rdx == (if s == 3 { value } else { pre.rdx })
    &&& post.r8 == (if s == 4 { value } else { pre.r8 })
    &&& post.r9 == (if s == 5 { value } else { pre.r9 })
    &&& post.r10 == (if s == 6 { value } else { pre.r10 })
    &&& post.r11 == (if s == 7 { value } else { pre.r11 })
    &&& post.r12 == (if s == 8 { value } else { pre.r12 })
    &&& post.r13 == (if s == 9 { value } else { pre.r13 })
    &&& post.r14 == (if s == 10 { value } else { pre.r14 })
    &&& post.r15 == (if s == 11 { value } else { pre.r15 })
    &&& post.rsi == (if s == 12 { value } else { pre.rsi })
    &&& post.rdi == (if s == 13 { value } else { pre.rdi })
    &&& post.rsp == (if s == 14 { value } else { pre.rsp })
    &&& post.rbp == (if s == 15 { value } else { pre.rbp })
    &&& post.rip == (if s == 16 { value } else { pre.rip })
    &&& post.rflags == pre.rflags
    &&& post.rtemp@.len() == (if s == 17 { pre.rtemp@.len() + 1 } else { pre.rtemp@.len() })
    &&& (s == 17 ==> post.rtemp@.drop_last() == pre.rtemp@ && post.rtemp@.last().0@ == n
        && post.rtemp@.last().1 == value)
    &&& (s != 17 ==> post.rtemp@ == pre.rtemp@)
}

impl Regsx64 {
    /// True of a register file holding the fixed start-of-analysis values
    /// and an empty overflow list.
    pub open spec fn is_default(self) -> bool {
        &&& self.rax == 0x004006f6u64
        &&& self.rbx == 0x004008f0u64
        &&& self.rcx == 0x004008f0u64
        &&& self.rdx == 0x7fffffffe188u64
        &&& self.r8 == 0u64
        &&& self.r9 == 0x7ffff7fe0d50u64
        &&& self.r10 == 0xfffffffffffff40cu64
        &&& self.r11 == 0x7ffff7de6fc0u64
        &&& self.r12 == 0x00400600u64
        &&& self.r13 == 0x7fffffffe170u64
        &&& self.r14 == 0u64
        &&& self.r15 == 0u64
        &&& self.rsi == 0x7fffffffe178u64
        &&& self.rdi == 1u64
        &&& self.rsp == 0x7fffffffe088u64
        &&& self.rbp == 0u64
        &&& self.rip == 0u64
        &&& self.rflags == 0u64
        &&& self.rtemp@.len() == 0
    }

    /// A register file holding the fixed start-of-analysis values and an
    /// empty overflow list.
    pub fn new() -> (r: Regsx64)
        ensures
            r.is_default(),
    {
        Regsx64 {
            rax: 0x004006f6,
            rbx: 0x004008f0,
            rcx: 0x004008f0,
            rdx: 0x7fffffffe188,
            r8: 0x00000000,
            r9: 0x7ffff7fe0d50,
            r10: 0xfffffffffffff40c,
            r11: 0x7ffff7de6fc0,
            r12: 0x00400600,
            r13: 0x7fffffffe170,
            r14: 0x00000000,
            r15: 0x00000000,
            rsi: 0x7fffffffe178,
            rdi: 0x00000001,
            rsp: 0x7fffffffe088,
            rbp: 0,
            rip: 0,
            rflags: 0,
            rtemp: Vec::new(),
        }
    }

    /// Writes `value` under `name`: the selected register takes the value,
    /// and a name outside the modeled set is appended to the overflow list,
    /// where the most recent entry wins.
    pub fn set(&mut self, name: String, value: u64)
        ensures
            reg_set_rel(*old(self), *final(self), name@, value),
    {
        if string_is(&name, "rax") || string_is(&name, "eax") {
            self.rax = value;
        } else if string_is(&name, "rbx") || string_is(&name, "ebx") {
            self.rbx = value;
        } else if string_is(&name, "rcx") || string_is(&name, "ecx") {
            self.rcx = value;
        } else if string_is(&name, "rdx") || string_is(&name, "edx") {
            self.rdx = value;
        } else if string_is(&name, "r8") || string_is(&name, "e8") {
            self.r8 = value;
        } else if string_is(&name, "r9") || string_is(&name, "e9") {
            self.r9 = value;
        } else if string_is(&name, "r10") || string_is(&name, "e10") {
            self.r10 = value;
        } else if string_is(&name, "r11") || string_is(&name, "e11") {
            self.r11 = value;
        } else if string_is(&name, "r12") || string_is(&name, "e12") {
            self.r12 = value;
        } else if string_is(&name, "r13") || string_is(&name, "e13") {
            self.r13 = value;
        } else if string_is(&name, "r14") || string_is(&name, "e14") {
            self.r14 = value;
        } else if string_is(&name, "r15") || string_is(&name, "e15") {
            self.r15 = value;
        } else if string_is(&name, "rsi") || string_is(&name, "esi") {
            self.rsi = value;
        } else if string_is(&name, "rdi") || string_is(&name, "edi") {
            self.rdi = value;
        } else if string_is(&name, "rsp") || string_is(&name, "esp") {
            self.rsp = value;
        } else if string_is(&name, "rbp") || string_is(&name, "ebp") {
            self.rbp = value;
        } else if string_is(&name, "rip") || string_is(&name, "eip") {
            self.rip = value;
        } else {
            self.rtemp.push((name, value));
            proof {
                assert(self.rtemp@.drop_last() =~= old(self).rtemp@);
            }
        }
    }

    /// Reads the value under `name`: the selected register, 0 for `fsbase`
    /// or a never-written overflow name, or the overflow list's most recent
    /// entry for the name.
    pub fn get(&self, name: String) -> (value: u64)
        ensures
            value == spec_reg_get(*self, name@),
    {
        if string_is(&name, "rax") || string_is(&name, "eax") {
            self.rax
        } else if string_is(&name, "rbx") || string_is(&name, "ebx") {
            self.rbx
        } else if string_is(&name, "rcx") || string_is(&name, "ecx") {
            self.rcx
        } else if string_is(&name, "rdx") || string_is(&name, "edx") {
            self.rdx
        } else if string_is(&name, "r8") || string_is(&name, "e8") {
            self.r8
        } else if string_is(&name, "r9") || string_is(&name, "e9") {
            self.r9
        } else if string_is(&name, "r10") || string_is(&name, "e10") {
            self.r10
        } else if string_is(&name, "r11") || string_is(&name, "e11") {
            self.r11
        } else if string_is(&name, "r12") || string_is(&name, "e12") {
            self.r12
        } else if string_is(&name, "r13") || string_is(&name, "e13") {
            self.r13
        } else if string_is(&name, "r14") || string_is(&name, "e14") {
            self.r14
        } else if string_is(&name, "r15") || string_is(&name, "e15") {
            self.r15
        } else if string_is(&name, "rsi") || string_is(&name, "esi") {
            self.rsi
        } else if string_is(&name, "rdi") || string_is(&name, "edi") {
            self.rdi
        } else if string_is(&name, "rsp") || string_is(&name, "esp") {
            self.rsp
        } else if string_is(&name, "rbp") || string_is(&name, "ebp") {
            self.rbp
        } else if string_is(&name, "rip") || string_is(&name, "eip") {
            self.rip
        } else if string_is(&name, "fsbase") {
            0
        } else {
            let ghost full: Seq<(String, u64)> = self.rtemp@;
            let mut i: usize = self.rtemp.len();
            proof {
                assert(full.take(i as int) =~= full);
            }
            while i > 0
                invariant
                    i <= full.len(),
                    full == self.rtemp@,
                    reg_slot(name@) == 17,
                    name@ != "fsbase"@,
                    rtemp_spec_get(full, name@) == rtemp_spec_get(full.take(i as int), name@),
                decreases i,
            {
                i = i - 1;
                proof {
                    assert(full.take(i as int + 1).len() == i + 1);
                    assert(full.take(i as int + 1).last() == full[i as int]);
                    assert(full.take(i as int + 1).drop_last() =~= full.take(i as int));
                }
                let entry_matches: bool = self.rtemp[i].0 == name;
                if entry_matches {
                    proof {
                        assert(full[i as int].0@ == name@);
                        assert(rtemp_spec_get(full.take(i as int + 1), name@) == full[
                            i as int
                        ].1);
                    }
                    return self.rtemp[i].1;
                }
            }
            proof {
                assert(full.take(0) =~= Seq::<(String, u64)>::empty());
            }
            0
        }
    }
}

/// Writing a value under a name and reading the same name back yields the
/// value written, for every name — modeled, aliased or unmodeled — except
/// `fsbase`, which always reads as 0.
pub proof fn lemma_reg_set_get(pre: Regsx64, post: Regsx64, n: Seq<char>, v: u64)
    requires
        reg_set_rel(pre, post, n, v),
        n != "fsbase"@,
    ensures
        spec_reg_get(post, n) == v,
{
}

/// A write under one name leaves every name in a different slot reading
/// as before; an unmodeled name also leaves every other unmodeled name
/// unchanged.
pub proof fn lemma_reg_set_frame(pre: Regsx64, post: Regsx64, n: Seq<char>, v: u64, m: Seq<char>)
    requires
        reg_set_rel(pre, post, n, v),
        reg_slot(m) != reg_slot(n) || (reg_slot(m) == 17 && m != n),
    ensures
        spec_reg_get(post, m) == spec_reg_get(pre, m),
{
    if reg_slot(m) == 17 && reg_slot(n) == 17 && m != n {
        assert(post.rtemp@.last().0@ == n);
        assert(post.rtemp@.drop_last() == pre.rtemp@);
    }
}

/// The Aarch64 register file layout. The engine does not yet model this
/// architecture: the struct records the vocabulary a future register file
/// dispatches over.
pub struct RegsAarch64 {
    pub r0: u64,
    pub r1: u64,
    pub r2: u64,
    pub r3: u64,
    pub r4: u64,
    pub r5: u64,
    pub r6: u64,
    pub r7: u64,
    pub r8: u64,
    pub r9: u64,
    pub r10: u64,
    pub r11: u64,
    pub r12: u64,
    pub r13: u64,
    pub r14: u64,
    pub r15: u64,
    pub r16: u64,
    pub r17: u64,
    pub r18: u64,
    pub r19: u64,
    pub r20: u64,
    pub r21: u64,
    pub r22: u64,
    pub r23: u64,
    pub r24: u64,
    pub r25: u64,
    pub r26: u64,
    pub r27: u64,
    pub r28: u64,
    pub r29: u64,
    pub r30: u64,
    pub x0: u64,
    pub x1: u64,
    pub x2: u64,
    pub x3: u64,
    pub x4: u64,
    pub x5: u64,
    pub x6: u64,
    pub x7: u64,
    pub x8: u64,
    pub x9: u64,
    pub x10: u64,
    pub x11: u64,
    pub x12: u64,
    pub x13: u64,
    pub x14: u64,
    pub x15: u64,
    pub x16: u64,
    pub x17: u64,
    pub x18: u64,
    pub x19: u64,
    pub x20: u64,
    pub x21: u64,
    pub x22: u64,
    pub x23: u64,
    pub x24: u64,
    pub x25: u64,
    pub x26: u64,
    pub x27: u64,
    pub x28: u64,
    pub x29: u64,
    pub x30: u64,
    pub w0: u32,
    pub w1: u32,
    pub w2: u32,
    pub w3: u32,
    pub w4: u32,
    pub w5: u32,
    pub w6: u32,
    pub w7: u32,
    pub w8: u32,
    pub w9: u32,
    pub w10: u32,
    pub w11: u32,
    pub w12: u32,
    pub w13: u32,
    pub w14: u32,
    pub w15: u32,
    pub w16: u32,
    pub w17: u32,
    pub w18: u32,
    pub w19: u32,
    pub w20: u32,
    pub w21: u32,
    pub w22: u32,
    pub w23: u32,
    pub w24: u32,
    pub w25: u32,
    pub w26: u32,
    pub w27: u32,
    pub w28: u32,
    pub w29: u32,
    pub w30: u32,
    pub rflags: u64,
    pub rtemp: Vec<(String, u64)>,
}

/// The 32-bit Arm register file layout; recorded but not yet dispatched to,
/// as `RegsAarch64` is.
pub struct RegsArm {
    pub r0: u32,
    pub r1: u32,
    pub r2: u32,
    pub r3: u32,
    pub r4: u32,
    pub r5: u32,
    pub r6: u32,
    pub r7: u32,
    pub r8: u32,
    pub r9: u32,
    pub r10: u32,
    pub r11: u32,
    pub r12: u32,
    pub sp: u32,
    pub lr: u32,
    pub pc: u32,
    pub rflags: u64,
    pub rtemp: Vec<(String, u64)>,
}

/// The register file of a state, dispatched over the architecture tag. Only
/// the x86-64 file is populated; reads under any other tag yield 0 and
/// writes under any other tag change nothing.
pub struct Registers {
    pub x64: Option<Regsx64>,
    pub arm: Option<RegsArm>,
    pub aarch64: Option<RegsAarch64>,
}

/// The value the dispatching register file returns for a name under an
/// architecture tag: the x86-64 file's value, or 0 when the tag is not
/// x86-64 or no file is populated.
pub open spec fn spec_registers_get(rs: Registers, n: Seq<char>, arch: u64) -> u64 {
    if spec_arch_from(arch) == Arch::X86_64 {
        match rs.x64 {
            Some(x) => spec_reg_get(x, n),
            None => 0,
        }
    } else {
        0
    }
}

/// How a write to the dispatching register file changes it: under the
/// x86-64 tag the x86-64 file takes the write, under any other tag nothing
/// changes. The other architectures' slots never change.
pub open spec fn registers_set_rel(
    pre: Registers,
    post: Registers,
    n: Seq<char>,
    value: u64,
    arch: u64,
) -> bool {
    &&& post.arm == pre.arm
    &&& post.aarch64 == pre.aarch64
    &&& if spec_arch_from(arch) == Arch::X86_64 {
        match (pre.x64, post.x64) {
            (Some(x0), Some(x1)) => reg_set_rel(x0, x1, n, value),
            (None, None) => true,
            _ => false,
        }
    } else {
        post.x64 == pre.x64
    }
}

impl Registers {
    /// A register file for the given architecture tag: the x86-64 file is
    /// populated for the x86-64 tag, and no file for any other tag.
    pub fn new(arch: u64) -> (rs: Registers)
        ensures
            rs.arm is None,
            rs.aarch64 is None,
            spec_arch_from(arch) == Arch::X86_64 ==> (rs.x64 matches Some(x) && x.is_default()),
            spec_arch_from(arch) != Arch::X86_64 ==> rs.x64 is None,
    {
        let mut registers = Registers { x64: None, arm: None, aarch64: None };
        match Arch::from_u64(arch) {
            Arch::X86_64 => {
                registers.x64 = Some(Regsx64::new());
            },
            _ => {},
        }
        registers
    }

    /// Writes `value` under `name` in the file the architecture tag
    /// selects; under an unmodeled tag the write changes nothing.
    pub fn set(&mut self, name: String, value: u64, arch: u64)
        ensures
            registers_set_rel(*old(self), *final(self), name@, value, arch),
    {
        match Arch::from_u64(arch) {
            Arch::X86_64 => {
                match &mut self.x64 {
                    Some(x) => {
                        x.set(name, value);
                    },
                    None => {},
                }
            },
            _ => {},
        }
    }

    /// The stack-pointer register's value under the architecture tag, or 0
    /// for an unmodeled tag or an unpopulated file.
    pub fn get_stack_pointer(&mut self, arch: u64) -> (sp: u64)
        ensures
            *final(self) == *old(self),
            sp == spec_registers_get(*old(self), "rsp"@, arch),
    {
        match Arch::from_u64(arch) {
            Arch::X86_64 => {
                match &self.x64 {
                    Some(x) => {
                        proof {
                            lemma_reg_slots();
                        }
                        x.rsp
                    },
                    None => 0,
                }
            },
            _ => 0,
        }
    }

    /// Reads the stack-pointer register without changing it, like
    /// `get_stack_pointer`; kept as its own entry point for callers that
    /// pair it with a following write.
    pub fn set_stack_pointer(&mut self, arch: u64) -> (sp: u64)
        ensures
            *final(self) == *old(self),
            sp == spec_registers_get(*old(self), "rsp"@, arch),
    {
        self.get_stack_pointer(arch)
    }

    /// The value under `name` in the file the architecture tag selects, or
    /// 0 for an unmodeled tag.
    pub fn get(&self, name: String, arch: u64) -> (value: u64)
        ensures
            value == spec_registers_get(*self, name@, arch),
    {
        match Arch::from_u64(arch) {
            Arch::X86_64 => {
                match &self.x64 {
                    Some(x) => x.get(name),
                    None => 0,
                }
            },
            _ => 0,
        }
    }
}

/// The sparse memory map: write-populated, never pre-populated, and a read
/// of an address never written yields 0.
pub struct Memory {
    pub map: HashMap<u64, u64>,
}

/// The value a memory map holds at an address: the stored value, or 0 for
/// an address never stored to.
pub open spec fn spec_mem_get(m: Map<u64, u64>, addr: u64) -> u64 {
    if m.contains_key(addr) {
        m[addr]
    } else {
        0
    }
}

impl Memory {
    /// An empty memory map.
    pub fn new() -> (m: Memory)
        ensures
            m.map@ == Map::<u64, u64>::empty(),
    {
        Memory { map: HashMap::new() }
    }

    /// Stores `value` at `addr`, replacing any earlier value there.
    pub fn store(&mut self, addr: u64, value: u64)
        ensures
            final(self).map@ == old(self).map@.insert(addr, value),
    {
        self.map.insert(addr, value);
    }

    /// Loads the value at `addr`; an address never stored to reads as 0.
    pub fn load(&self, addr: u64) -> (value: u64)
        ensures
            value == spec_mem_get(self.map@, addr),
    {
        match self.map.get(&addr) {
            Some(v) => *v,
            None => 0,
        }
    }
}

/// The whole state of one concrete analysis run: the current program
/// address and intra-group index, the register file, the sparse memory, the
/// call-return stack, the simulated input buffer, and the architecture tag.
pub struct State {
    pub addr: u64,
    pub index: usize,
    pub memory: Memory,
    pub regs: Registers,
    pub call_stack: Vec<u64>,
    pub stdin: String,
    pub arch: u64,
}

impl State {
    /// The starting state for an architecture name: address and index 0,
    /// default registers for the architecture, empty memory, empty call
    /// stack, empty input buffer.
    pub fn new(arch_string: String) -> (s: State)
        ensures
            s.addr == 0,
            s.index == 0,
            s.memory.map@ == Map::<u64, u64>::empty(),
            s.call_stack@ == Seq::<u64>::empty(),
            s.stdin@ == Seq::<char>::empty(),
            s.arch == spec_arch_tag(arch_string@),
            s.regs.arm is None,
            s.regs.aarch64 is None,
            spec_arch_from(s.arch) == Arch::X86_64 ==> (s.regs.x64 matches Some(x)
                && x.is_default()),
            spec_arch_from(s.arch) != Arch::X86_64 ==> s.regs.x64 is None,
    {
        let arch = Convert_Arch_To_Enum(arch_string);
        State {
            addr: 0,
            index: 0,
            memory: Memory::new(),
            regs: Registers::new(arch),
            call_stack: Vec::new(),
            stdin: String::new(),
            arch,
        }
    }
}

} // verus!
