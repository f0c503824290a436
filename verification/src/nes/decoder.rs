//! From opcode bytes to instruction records.

use vstd::prelude::*;
use crate::mem::AddrMode;
use crate::nes::memory::AddressingMode;
use crate::nes::opcode::{Opcode, OpcodeType};
use crate::opcode::{lemma_table_is_well_formed, lookup_opcode, OpcodeTable};

verus! {

/// The memory addressing mode that `mode` is, if it is one.
pub open spec fn memory_mode(mode: AddrMode) -> Option<AddressingMode> {
    match mode {
        AddrMode::Immediate => Some(AddressingMode::Immediate),
        AddrMode::ZeroPage => Some(AddressingMode::ZeroPage),
        AddrMode::ZeroPageX => Some(AddressingMode::ZeroPageX),
        AddrMode::ZeroPageY => Some(AddressingMode::ZeroPageY),
        AddrMode::Absolute => Some(AddressingMode::Absolute),
        AddrMode::AbsoluteX => Some(AddressingMode::AbsoluteX),
        AddrMode::AbsoluteY => Some(AddressingMode::AbsoluteY),
        AddrMode::Indirect => Some(AddressingMode::Indirect),
        AddrMode::IndirectX => Some(AddressingMode::IndirectX),
        AddrMode::IndirectY => Some(AddressingMode::IndirectY),
        AddrMode::Relative | AddrMode::Accumulator => None,
    }
}

/// The record of an instruction that reads or writes memory: it needs a
/// memory addressing mode. A record without operand bytes stands for an
/// instruction on registers alone, so one that works on memory has at least
/// one.
pub open spec fn memory_record(
    hex: u8,
    kind: OpcodeType,
    mode: AddrMode,
    length: u16,
) -> Option<Opcode> {
    match memory_mode(mode) {
        Some(mode) if length != 0 => Some(Opcode { hex, pc_offset: length, opcode: kind, mode }),
        _ => None,
    }
}

/// The record of an instruction on registers alone.
pub open spec fn register_record(hex: u8, kind: OpcodeType) -> Opcode {
    Opcode { hex, pc_offset: 0, opcode: kind, mode: AddressingMode::Immediate }
}

/// The record of a branch: its one operand byte, the displacement, is read
/// where it stands.
pub open spec fn branch_record(hex: u8, kind: OpcodeType) -> Opcode {
    Opcode { hex, pc_offset: 1, opcode: kind, mode: AddressingMode::Immediate }
}

/// The record that describes the instruction `instr` with opcode byte `hex`,
/// if `instr` is an instruction and a record can describe it.
pub open spec fn record_of(hex: u8, instr: crate::opcode::Opcode) -> Option<Opcode> {
    match instr {
        crate::opcode::Opcode::Uninitialized => None,
        crate::opcode::Opcode::Brk => Some(register_record(hex, OpcodeType::Brk)),
        crate::opcode::Opcode::Inx => Some(register_record(hex, OpcodeType::Inx)),
        crate::opcode::Opcode::Iny => Some(register_record(hex, OpcodeType::Iny)),
        crate::opcode::Opcode::Tax => Some(register_record(hex, OpcodeType::Tax)),
        crate::opcode::Opcode::Tay => Some(register_record(hex, OpcodeType::Tay)),
        crate::opcode::Opcode::Bcs => Some(branch_record(hex, OpcodeType::Bcs)),
        crate::opcode::Opcode::Bcc => Some(branch_record(hex, OpcodeType::Bcc)),
        crate::opcode::Opcode::Beq => Some(branch_record(hex, OpcodeType::Beq)),
        crate::opcode::Opcode::Bne => Some(branch_record(hex, OpcodeType::Bne)),
        crate::opcode::Opcode::Asl(mode, length) => if mode == AddrMode::Accumulator {
            if length == 0 {
                Some(register_record(hex, OpcodeType::Asl))
            } else {
                None
            }
        } else {
            memory_record(hex, OpcodeType::Asl, mode, length)
        },
        crate::opcode::Opcode::And(mode, length) => memory_record(
            hex,
            OpcodeType::And,
            mode,
            length,
        ),
        crate::opcode::Opcode::Stx(mode, length) => memory_record(
            hex,
            OpcodeType::Stx,
            mode,
            length,
        ),
        crate::opcode::Opcode::Sty(mode, length) => memory_record(
            hex,
            OpcodeType::Sty,
            mode,
            length,
        ),
        crate::opcode::Opcode::Sta(mode, length) => memory_record(
            hex,
            OpcodeType::Sta,
            mode,
            length,
        ),
        crate::opcode::Opcode::Adc(mode, length) => memory_record(
            hex,
            OpcodeType::Adc,
            mode,
            length,
        ),
        crate::opcode::Opcode::Lda(mode, length) => memory_record(
            hex,
            OpcodeType::Lda,
            mode,
            length,
        ),
    }
}

/// The record of the instruction that the opcode byte `hex` stands for.
pub open spec fn decoded(hex: u8) -> Option<Opcode> {
    record_of(hex, crate::opcode::decode(hex))
}

fn to_memory_mode(mode: AddrMode) -> (res: Option<AddressingMode>)
    ensures
        res == memory_mode(mode),
{
    match mode {
        AddrMode::Immediate => Some(AddressingMode::Immediate),
        AddrMode::ZeroPage => Some(AddressingMode::ZeroPage),
        AddrMode::ZeroPageX => Some(AddressingMode::ZeroPageX),
        AddrMode::ZeroPageY => Some(AddressingMode::ZeroPageY),
        AddrMode::Absolute => Some(AddressingMode::Absolute),
        AddrMode::AbsoluteX => Some(AddressingMode::AbsoluteX),
        AddrMode::AbsoluteY => Some(AddressingMode::AbsoluteY),
        AddrMode::Indirect => Some(AddressingMode::Indirect),
        AddrMode::IndirectX => Some(AddressingMode::IndirectX),
        AddrMode::IndirectY => Some(AddressingMode::IndirectY),
        AddrMode::Relative | AddrMode::Accumulator => None,
    }
}

fn to_memory_record(hex: u8, kind: OpcodeType, mode: AddrMode, length: u16) -> (res: Option<
    Opcode,
>)
    ensures
        res == memory_record(hex, kind, mode, length),
{
    match to_memory_mode(mode) {
        Some(mode) => {
            if length != 0 {
                Some(Opcode::new(hex, length, kind, mode))
            } else {
                None
            }
        },
        None => None,
    }
}

/// Describes a decoded instruction by a record.
pub fn describe(hex: u8, instr: crate::opcode::Opcode) -> (res: Option<Opcode>)
    ensures
        res == record_of(hex, instr),
{
    match instr {
        crate::opcode::Opcode::Uninitialized => None,
        crate::opcode::Opcode::Brk => Some(Opcode::zero_offset(hex, OpcodeType::Brk)),
        crate::opcode::Opcode::Inx => Some(Opcode::zero_offset(hex, OpcodeType::Inx)),
        crate::opcode::Opcode::Iny => Some(Opcode::zero_offset(hex, OpcodeType::Iny)),
        crate::opcode::Opcode::Tax => Some(Opcode::zero_offset(hex, OpcodeType::Tax)),
        crate::opcode::Opcode::Tay => Some(Opcode::zero_offset(hex, OpcodeType::Tay)),
        crate::opcode::Opcode::Bcs => Some(
            Opcode::new(hex, 1, OpcodeType::Bcs, AddressingMode::Immediate),
        ),
        crate::opcode::Opcode::Bcc => Some(
            Opcode::new(hex, 1, OpcodeType::Bcc, AddressingMode::Immediate),
        ),
        crate::opcode::Opcode::Beq => Some(
            Opcode::new(hex, 1, OpcodeType::Beq, AddressingMode::Immediate),
        ),
        crate::opcode::Opcode::Bne => Some(
            Opcode::new(hex, 1, OpcodeType::Bne, AddressingMode::Immediate),
        ),
        crate::opcode::Opcode::Asl(mode, length) => {
            match mode {
                AddrMode::Accumulator => {
                    if length == 0 {
                        Some(Opcode::zero_offset(hex, OpcodeType::Asl))
                    } else {
                        None
                    }
                },
                _ => to_memory_record(hex, OpcodeType::Asl, mode, length),
            }
        },
        crate::opcode::Opcode::And(mode, length) => to_memory_record(
            hex,
            OpcodeType::And,
            mode,
            length,
        ),
        crate::opcode::Opcode::Stx(mode, length) => to_memory_record(
            hex,
            OpcodeType::Stx,
            mode,
            length,
        ),
        crate::opcode::Opcode::Sty(mode, length) => to_memory_record(
            hex,
            OpcodeType::Sty,
            mode,
            length,
        ),
        crate::opcode::Opcode::Sta(mode, length) => to_memory_record(
            hex,
            OpcodeType::Sta,
            mode,
            length,
        ),
        crate::opcode::Opcode::Adc(mode, length) => to_memory_record(
            hex,
            OpcodeType::Adc,
            mode,
            length,
        ),
        crate::opcode::Opcode::Lda(mode, length) => to_memory_record(
            hex,
            OpcodeType::Lda,
            mode,
            length,
        ),
    }
}

/// Every well-formed instruction has a record.
pub proof fn lemma_record_exists(hex: u8, instr: crate::opcode::Opcode)
    requires
        instr.well_formed(),
    ensures
        record_of(hex, instr) is None <==> instr is Uninitialized,
{
}

/// Looks up the record of the instruction that `hex` stands for; there is
/// none exactly for the bytes that stand for no instruction.
pub fn decode(table: &OpcodeTable, hex: u8) -> (res: Option<Opcode>)
    ensures
        res == decoded(hex),
        res is None <==> crate::opcode::decode(hex) is Uninitialized,
{
    let instr = lookup_opcode(table, hex);
    proof {
        lemma_table_is_well_formed(hex);
        lemma_record_exists(hex, instr);
    }
    describe(hex, instr)
}

} // verus!
