//! Failure kinds of the interpreter.

use vstd::prelude::*;

verus! {

/// Why a run or a load could not go on.
#[derive(Debug, Clone, Copy, PartialEq, Eq, Structural)]
pub enum ExecError {
    /// The fetched opcode byte has no entry in the opcode table.
    InvalidInstruction,
    /// A bulk transfer would reach past the end of the address space.
    OutOfBounds,
    /// The instruction is well formed but the engine has no effect for it.
    Unimplemented,
}

} // verus!
