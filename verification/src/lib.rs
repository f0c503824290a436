//! An interpreter core for a reduced instruction subset of an 8-bit
//! microprocessor: memory bus, register file, status flags, opcode table,
//! addressing-mode resolution and the fetch-decode-execute loop.
//!
//! Every executable function carries a contract over the mathematical model
//! in [`machine`], and the verifier checks each body against it.

pub mod consts;
pub mod error;
pub mod mem;
pub mod status;
pub mod opcode;
pub mod alu;
pub mod addressing;
pub mod machine;
pub mod cpu;
pub mod nes;

