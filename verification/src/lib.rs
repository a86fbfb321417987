//! An instruction-level analysis engine over a small low-level IR.
//!
//! The engine answers three questions about a lifted program without running
//! it natively: what registers and memory hold after a number of steps
//! (concrete emulation), which values derive from declared sources (taint
//! tracking), and which values are symbolic (the bitvector layer). All three
//! share one IR model and one step discipline. The disassembler that lifts
//! machine code into the IR, the constraint solver, and any debugger bridge
//! are outside collaborators: callers hand the engine plain `Program` data.

pub mod bitvector;
pub mod emulator;
pub mod expression;
pub mod procedures;
pub mod program;
pub mod state;
pub mod symbolic_executor;
pub mod symbolic_state;
pub mod taint_tracker;
