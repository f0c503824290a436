//! The memory of the machine, with zero-page shorthands.

use vstd::prelude::*;
use crate::error::ExecError;
use crate::mem::{
    high_byte, in_bounds, low_byte, overlay, store_word, word_at, wrap_byte, AddrMode, Memory,
};

verus! {

/// The addressing modes that name a place in memory.
#[derive(Debug, Clone, Copy, PartialEq, Eq, Structural)]
pub enum AddressingMode {
    Immediate,
    ZeroPage,
    ZeroPageX,
    ZeroPageY,
    Absolute,
    AbsoluteX,
    AbsoluteY,
    Indirect,
    IndirectX,
    IndirectY,
}

impl AddressingMode {
    /// The same mode among the modes of the engine.
    pub open spec fn addr_mode(self) -> AddrMode {
        match self {
            AddressingMode::Immediate => AddrMode::Immediate,
            AddressingMode::ZeroPage => AddrMode::ZeroPage,
            AddressingMode::ZeroPageX => AddrMode::ZeroPageX,
            AddressingMode::ZeroPageY => AddrMode::ZeroPageY,
            AddressingMode::Absolute => AddrMode::Absolute,
            AddressingMode::AbsoluteX => AddrMode::AbsoluteX,
            AddressingMode::AbsoluteY => AddrMode::AbsoluteY,
            AddressingMode::Indirect => AddrMode::Indirect,
            AddressingMode::IndirectX => AddrMode::IndirectX,
            AddressingMode::IndirectY => AddrMode::IndirectY,
        }
    }

    /// The same mode among the modes of the engine.
    pub fn to_addr_mode(self) -> (mode: AddrMode)
        ensures
            mode == self.addr_mode(),
            mode != AddrMode::Accumulator,
    {
        match self {
            AddressingMode::Immediate => AddrMode::Immediate,
            AddressingMode::ZeroPage => AddrMode::ZeroPage,
            AddressingMode::ZeroPageX => AddrMode::ZeroPageX,
            AddressingMode::ZeroPageY => AddrMode::ZeroPageY,
            AddressingMode::Absolute => AddrMode::Absolute,
            AddressingMode::AbsoluteX => AddrMode::AbsoluteX,
            AddressingMode::AbsoluteY => AddrMode::AbsoluteY,
            AddressingMode::Indirect => AddrMode::Indirect,
            AddressingMode::IndirectX => AddrMode::IndirectX,
            AddressingMode::IndirectY => AddrMode::IndirectY,
        }
    }
}

/// The address space: 65536 cells of one byte.
#[derive(Debug, Clone)]
pub struct NesMemory {
    pub bus: Memory,
}

impl NesMemory {
    /// The cells, indexed by address.
    pub open spec fn view(&self) -> Seq<u8> {
        self.bus@
    }

    /// Lays `bulk` over the cells from `addr` on, or reports `OutOfBounds`
    /// and changes nothing when `bulk` would reach past the last cell.
    pub fn bulk_write(&mut self, addr: u16, bulk: &[u8]) -> (res: Result<(), ExecError>)
        ensures
            res == if in_bounds(addr, bulk@.len()) {
                Ok::<(), ExecError>(())
            } else {
                Err::<(), ExecError>(ExecError::OutOfBounds)
            },
            res is Ok ==> final(self)@ == overlay(old(self)@, addr as int, bulk@),
            res is Err ==> final(self)@ == old(self)@,
    {
        self.bus.copy_to(addr, bulk)
    }

    /// Lays `bulk` over the cells from the zero-page address `offset` on, as
    /// [`bulk_write`](Self::bulk_write) does.
    pub fn bulk_write_zp(&mut self, offset: u8, bulk: &[u8]) -> (res: Result<(), ExecError>)
        ensures
            res == if in_bounds(offset as u16, bulk@.len()) {
                Ok::<(), ExecError>(())
            } else {
                Err::<(), ExecError>(ExecError::OutOfBounds)
            },
            res is Ok ==> final(self)@ == overlay(old(self)@, offset as int, bulk@),
            res is Err ==> final(self)@ == old(self)@,
    {
        self.bulk_write(offset as u16, bulk)
    }

    /// Stores a little-endian word; at the last cell the high byte goes to
    /// address 0.
    pub fn write_u16(&mut self, addr: u16, value: u16) -> (this: &mut Self)
        ensures
            this@ == store_word(old(self)@, addr, value),
            *final(self) == *final(this),
    {
        self.bus.write_word(addr, value);
        self
    }

    /// Stores a little-endian word in the zero page; at the last cell of
    /// the page the high byte goes to the first cell of the page.
    pub fn write_u16_zp(&mut self, offset: u8, value: u16) -> (this: &mut Self)
        ensures
            this@ == old(self)@.update(offset as int, low_byte(value)).update(
                wrap_byte(offset + 1) as int,
                high_byte(value),
            ),
            *final(self) == *final(this),
    {
        self.bus.write(offset as u16, (value % 0x100) as u8);
        self.bus.write(offset.wrapping_add(1) as u16, (value / 0x100) as u8);
        self
    }

    /// Puts `value` in the cell at `addr`; every other cell stays.
    pub fn write(&mut self, addr: u16, value: u8)
        ensures
            final(self)@ == old(self)@.update(addr as int, value),
    {
        self.bus.write(addr, value);
    }

    /// Puts `value` in the zero-page cell at `offset`.
    pub fn write_zp(&mut self, offset: u8, value: u8)
        ensures
            final(self)@ == old(self)@.update(offset as int, value),
    {
        self.bus.write(offset as u16, value);
    }

    /// Reads a little-endian word; at the last cell the high byte comes from
    /// address 0.
    pub fn read_u16(&self, addr: u16) -> (word: u16)
        ensures
            word == word_at(self@, addr),
    {
        self.bus.read_word(addr)
    }

    /// Reads the little-endian word at the zero-page address `offset`; at the
    /// last cell of the page the high byte comes from the cell after the page.
    pub fn read_u16_zp(&self, offset: u8) -> (word: u16)
        ensures
            word == word_at(self@, offset as u16),
    {
        self.read_u16(offset as u16)
    }

    /// The byte in the cell at `addr`.
    pub fn read(&self, addr: u16) -> (value: u8)
        ensures
            value == self@[addr as int],
    {
        self.bus.read(addr)
    }

    /// The byte in the zero-page cell at `offset`.
    pub fn read_zp(&self, offset: u8) -> (value: u8)
        ensures
            value == self@[offset as int],
    {
        self.bus.read(offset as u16)
    }

    /// A memory whose cells are all 0.
    pub fn new() -> (memory: Self)
        ensures
            memory@ == Seq::new(crate::consts::MEMORY_SIZE as nat, |i: int| 0u8),
    {
        Self { bus: Memory::zeroed() }
    }
}

} // verus!
