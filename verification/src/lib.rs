//! An instruction-level emulator for a minimal 16-bit stack-oriented
//! processor: a flat word-addressed memory with an optional serial channel,
//! an ALU computing add-with-flags or NAND, a pure instruction decoder, and
//! the fetch-decode-execute-writeback loop that drives them.

use vstd::prelude::*;

pub mod alu;
pub mod decode;
pub mod memory;
pub mod cpu;

verus! {

/// The two unrecoverable failures the engine can report: a program selecting
/// one of the reserved left-operand codes, and a serial read that cannot
/// obtain two bytes from the input stream.
#[derive(Clone, Copy, Debug, PartialEq, Eq)]
pub enum EmuError {
    UnimplementedOperand,
    SerialUnderrun,
}

} // verus!
