//! The same machine behind a second interface: registers grouped in a
//! register file, flags addressed by bit position, instructions described by
//! records, and the reset vector read from memory.

pub mod cpu;
pub mod cpu_flags;
pub mod decoder;
pub mod cpu_registers;
pub mod cpu_status;
pub mod mem;
pub mod memory;
pub mod opcode;
