//! The addressing resolver: from an addressing mode, the position of the
//! operand, the index registers and the memory to an effective address.

use vstd::prelude::*;
use crate::mem::{word_at, wrap_byte, wrap_word, AddrMode, Byte, Memory, Word};

verus! {

/// Whether `mode` names a place in memory. An operand held in the accumulator
/// has no address.
pub open spec fn has_address(mode: AddrMode) -> bool {
    mode != AddrMode::Accumulator
}

/// Tells whether `mode` names a place in memory.
pub fn is_addressed(mode: AddrMode) -> (addressed: bool)
    ensures
        addressed == has_address(mode),
{
    match mode {
        AddrMode::Accumulator => false,
        _ => true,
    }
}

/// Number of operand bytes that an instruction in `mode` carries.
pub open spec fn operand_length(mode: AddrMode) -> Word {
    match mode {
        AddrMode::Accumulator => 0,
        AddrMode::Absolute | AddrMode::AbsoluteX | AddrMode::AbsoluteY | AddrMode::Indirect => 2,
        _ => 1,
    }
}

/// The effective address of an operand in `mode`, where `pc` is the position
/// of the first operand byte.
///
/// Zero-page sums wrap within one byte; sums on a 16-bit address wrap within
/// the address space. A relative operand resolves to its displacement byte.
pub open spec fn effective_address(
    mode: AddrMode,
    pc: Word,
    x: Byte,
    y: Byte,
    cells: Seq<u8>,
) -> Word
    recommends
        has_address(mode),
{
    let operand = cells[pc as int];
    match mode {
        AddrMode::Immediate => pc,
        AddrMode::ZeroPage => operand as Word,
        AddrMode::ZeroPageX => wrap_byte(operand + x) as Word,
        AddrMode::ZeroPageY => wrap_byte(operand + y) as Word,
        AddrMode::Relative => operand as Word,
        AddrMode::Absolute => word_at(cells, pc),
        AddrMode::AbsoluteX => wrap_word(word_at(cells, pc) + x),
        AddrMode::AbsoluteY => wrap_word(word_at(cells, pc) + y),
        AddrMode::Indirect => word_at(cells, word_at(cells, pc)),
        AddrMode::IndirectX => word_at(cells, wrap_byte(operand + x) as Word),
        AddrMode::IndirectY => wrap_word(word_at(cells, operand as Word) + y),
        AddrMode::Accumulator => pc,
    }
}

/// An address made from a zero-page operand and an index stays in the zero
/// page: the sum does not carry into the high byte.
pub proof fn lemma_zero_page_wraps(pc: Word, x: Byte, y: Byte, cells: Seq<u8>)
    ensures
        effective_address(AddrMode::ZeroPage, pc, x, y, cells) < 0x100,
        effective_address(AddrMode::ZeroPageX, pc, x, y, cells) < 0x100,
        effective_address(AddrMode::ZeroPageY, pc, x, y, cells) < 0x100,
{
}

/// Resolves the effective address of an operand. Reads memory, changes
/// nothing.
pub fn resolve(mode: AddrMode, pc: Word, x: Byte, y: Byte, mem: &Memory) -> (addr: Word)
    requires
        has_address(mode),
    ensures
        addr == effective_address(mode, pc, x, y, mem@),
{
    match mode {
        AddrMode::Immediate | AddrMode::Accumulator => pc,
        AddrMode::ZeroPage | AddrMode::Relative => mem.read(pc) as Word,
        AddrMode::ZeroPageX => mem.read(pc).wrapping_add(x) as Word,
        AddrMode::ZeroPageY => mem.read(pc).wrapping_add(y) as Word,
        AddrMode::Absolute => mem.read_word(pc),
        AddrMode::AbsoluteX => mem.read_word(pc).wrapping_add(x as Word),
        AddrMode::AbsoluteY => mem.read_word(pc).wrapping_add(y as Word),
        AddrMode::Indirect => mem.read_word(mem.read_word(pc)),
        AddrMode::IndirectX => mem.read_word(mem.read(pc).wrapping_add(x) as Word),
        AddrMode::IndirectY => mem.read_word(mem.read(pc) as Word).wrapping_add(y as Word),
    }
}

} // verus!
