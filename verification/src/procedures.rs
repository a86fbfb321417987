//! Behavioral stand-ins for common library calls. When a call resolves to
//! one of these names the engine applies the stub's effect instead of
//! stepping into a body. The dispatch is closed: a name outside the table
//! falls to `unknown`, which changes nothing.

use crate::state::registers_set_rel;
use crate::state::string_is;
use crate::state::State;
use vstd::prelude::*;

verus! {

/// What `strlen` reports: the fixed simulated string length.
pub const STUB_STRLEN_RESULT: u64 = 4;

/// What `atoi` reports: the fixed simulated parsed number.
pub const STUB_ATOI_RESULT: u64 = 6;

/// Whether a resolved callee name is one the stub table simulates.
pub open spec fn is_stub_name(n: Seq<char>) -> bool {
    n == "puts"@ || n == "printf"@ || n == "fgets"@ || n == "strlen"@ || n == "atoi"@
}

/// Whether a resolved callee name is one the stub table simulates,
/// executable.
pub(crate) fn is_stub_name_exec(name: &String) -> (b: bool)
    ensures
        b == is_stub_name(name@),
{
    string_is(name, "puts") || string_is(name, "printf") || string_is(name, "fgets")
        || string_is(name, "strlen") || string_is(name, "atoi")
}

/// A state change that writes one value into the return-value register
/// and touches nothing else but, possibly, the input buffer.
pub open spec fn stub_writes_rax(pre: State, post: State, v: u64) -> bool {
    &&& registers_set_rel(pre.regs, post.regs, "rax"@, v, pre.arch)
    &&& post.addr == pre.addr
    &&& post.index == pre.index
    &&& post.memory == pre.memory
    &&& post.call_stack == pre.call_stack
    &&& post.arch == pre.arch
}

/// How dispatching a callee name changes the state: `puts` and `printf`
/// zero the return-value register; `fgets` zeroes it and overwrites the
/// simulated input buffer; `strlen` and `atoi` write their fixed results;
/// any other name changes nothing.
pub open spec fn spec_call_effect(name: Seq<char>, pre: State, post: State) -> bool {
    if name == "puts"@ || name == "printf"@ {
        stub_writes_rax(pre, post, 0) && post.stdin == pre.stdin
    } else if name == "fgets"@ {
        stub_writes_rax(pre, post, 0) && post.stdin@ == "1234"@
    } else if name == "strlen"@ {
        stub_writes_rax(pre, post, STUB_STRLEN_RESULT) && post.stdin == pre.stdin
    } else if name == "atoi"@ {
        stub_writes_rax(pre, post, STUB_ATOI_RESULT) && post.stdin == pre.stdin
    } else {
        post == pre
    }
}

/// Dispatches a resolved callee name to its simulated effect; a name
/// outside the table reaches `unknown` and changes nothing.
pub fn call(name: String, state: &mut State)
    ensures
        spec_call_effect(name@, *old(state), *final(state)),
{
    if string_is(&name, "puts") {
        puts(state);
    } else if string_is(&name, "printf") {
        printf(state);
    } else if string_is(&name, "fgets") {
        fgets(state);
    } else if string_is(&name, "strlen") {
        strlen(state);
    } else if string_is(&name, "atoi") {
        atoi(state);
    } else {
        unknown(state);
    }
}

/// Simulates `puts`: reports success through the return-value register.
fn puts(state: &mut State)
    ensures
        stub_writes_rax(*old(state), *final(state), 0),
        final(state).stdin == old(state).stdin,
{
    let arch = state.arch;
    state.regs.set("rax".to_owned(), 0, arch);
}

/// Simulates `printf`: reports success through the return-value register.
fn printf(state: &mut State)
    ensures
        stub_writes_rax(*old(state), *final(state), 0),
        final(state).stdin == old(state).stdin,
{
    let arch = state.arch;
    state.regs.set("rax".to_owned(), 0, arch);
}

/// Simulates `fgets`: fills the simulated input buffer with the fixed
/// line and reports success.
fn fgets(state: &mut State)
    ensures
        stub_writes_rax(*old(state), *final(state), 0),
        final(state).stdin@ == "1234"@,
{
    state.stdin = "1234".to_owned();
    let arch = state.arch;
    state.regs.set("rax".to_owned(), 0, arch);
}

/// Simulates `strlen`: reports the fixed simulated length.
fn strlen(state: &mut State)
    ensures
        stub_writes_rax(*old(state), *final(state), STUB_STRLEN_RESULT),
        final(state).stdin == old(state).stdin,
{
    let arch = state.arch;
    state.regs.set("rax".to_owned(), STUB_STRLEN_RESULT, arch);
}

/// Simulates `atoi`: reports the fixed simulated parse.
fn atoi(state: &mut State)
    ensures
        stub_writes_rax(*old(state), *final(state), STUB_ATOI_RESULT),
        final(state).stdin == old(state).stdin,
{
    let arch = state.arch;
    state.regs.set("rax".to_owned(), STUB_ATOI_RESULT, arch);
}

/// The fallback for a callee outside the table: no register and no other
/// part of the state changes.
fn unknown(state: &mut State)
    ensures
        *final(state) == *old(state),
{
}

} // verus!
