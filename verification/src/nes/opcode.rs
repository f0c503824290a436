//! Instruction records.

use vstd::prelude::*;
use crate::nes::memory::AddressingMode;

verus! {

/// What an instruction does.
#[derive(Debug, Clone, Copy, PartialEq, Eq, Structural)]
pub enum OpcodeType {
    /// Load accumulator
    Lda,
    /// Increment X
    Inx,
    /// Increment Y
    Iny,
    /// Stop execution
    Brk,
    /// Store accumulator at memory location
    Sta,
    /// Store X at memory location
    Stx,
    /// Store Y at memory location
    Sty,
    /// Copy accumulator to the X
    Tax,
    /// Copy accumulator to the Y
    Tay,
    /// Accumulator AND memory
    And,
    /// Add memory and carry to the accumulator
    Adc,
    /// Shift left, the accumulator or a memory location
    Asl,
    /// Branch if carry is set
    Bcs,
    /// Branch if carry is clear
    Bcc,
    /// Branch if zero is set
    Beq,
    /// Branch if zero is clear
    Bne,
}

/// An instruction: its opcode byte, what it does, how it finds its operand
/// and how many operand bytes follow the opcode byte.
#[derive(Debug, Clone)]
pub struct Opcode {
    pub hex: u8,
    pub pc_offset: u16,
    pub opcode: OpcodeType,
    pub mode: AddressingMode,
}

impl Opcode {
    /// An instruction without operand bytes.
    pub fn zero_offset(hex: u8, opcode: OpcodeType) -> (op: Self)
        ensures
            op == (Opcode { hex, pc_offset: 0, opcode, mode: AddressingMode::Immediate }),
    {
        Self::new(hex, 0, opcode, AddressingMode::Immediate)
    }

    /// An instruction record with the given fields.
    pub fn new(hex: u8, pc_offset: u16, opcode: OpcodeType, mode: AddressingMode) -> (op: Self)
        ensures
            op == (Opcode { hex, pc_offset, opcode, mode }),
    {
        Self { hex, opcode, mode, pc_offset }
    }
}

} // verus!
