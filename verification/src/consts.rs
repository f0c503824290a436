//! Fixed quantities of the emulated machine.

use vstd::prelude::*;

verus! {

/// Number of cells in the address space.
pub const MEMORY_SIZE: usize = 0x1_0000;

/// Address at which a program image is placed and at which execution starts.
pub const ROM_ENTRYPOINT: u16 = 0x8000;

/// Bit 8 of a nine-bit sum: the carry out of an eight-bit addition.
pub const CARRY_MASK: u16 = 0x100;

} // verus!
