//! The register file.

use vstd::prelude::*;
use crate::mem::{wrap_byte, wrap_word};

verus! {

/// Program counter, stack pointer, index registers and accumulator.
#[derive(Debug, Clone)]
pub struct CpuRegisters {
    pub pc: u16,
    pub sp: u8,
    pub x: u8,
    pub y: u8,
    pub acc: u8,
}

impl CpuRegisters {
    /// Moves the program counter forward, wrapping at the end of the
    /// address space.
    pub fn add_pc(&mut self, value: u16) -> (this: &mut Self)
        ensures
            *this == (CpuRegisters { pc: wrap_word(old(self).pc + value), ..*old(self) }),
            *final(self) == *final(this),
    {
        self.pc = self.pc.wrapping_add(value);
        self
    }

    /// Moves the stack pointer, wrapping within one byte.
    pub fn add_sp(&mut self, value: u8) -> (this: &mut Self)
        ensures
            *this == (CpuRegisters { sp: wrap_byte(old(self).sp + value), ..*old(self) }),
            *final(self) == *final(this),
    {
        self.sp = self.sp.wrapping_add(value);
        self
    }

    /// Moves the program counter forward by one, wrapping at the end of the
    /// address space.
    pub fn inc_pc(&mut self) -> (this: &mut Self)
        ensures
            *this == (CpuRegisters { pc: wrap_word(old(self).pc + 1), ..*old(self) }),
            *final(self) == *final(this),
    {
        self.add_pc(1)
    }

    /// Adds one to the stack pointer, wrapping within one byte.
    pub fn inc_sp(&mut self) -> (this: &mut Self)
        ensures
            *this == (CpuRegisters { sp: wrap_byte(old(self).sp + 1), ..*old(self) }),
            *final(self) == *final(this),
    {
        self.add_sp(1)
    }

    /// Registers that are all zero.
    pub fn new() -> (regs: Self)
        ensures
            regs == (CpuRegisters { pc: 0, sp: 0, x: 0, y: 0, acc: 0 }),
    {
        Self { pc: 0, sp: 0, x: 0, y: 0, acc: 0 }
    }
}

} // verus!
