//! The status register, with its flags addressed by bit position.

use vstd::prelude::*;
use crate::status::{flag_set, with_flag};

verus! {

/// The mask with only bit `index` set.
pub open spec fn bit_mask(index: u8) -> u8
    recommends
        index < 8,
{
    1u8 << index
}

/// The masks of the eight positions, from the highest down.
pub proof fn lemma_bit_masks()
    ensures
        bit_mask(7) == 0b1000_0000,
        bit_mask(6) == 0b0100_0000,
        bit_mask(5) == 0b0010_0000,
        bit_mask(4) == 0b0001_0000,
        bit_mask(3) == 0b0000_1000,
        bit_mask(2) == 0b0000_0100,
        bit_mask(1) == 0b0000_0010,
        bit_mask(0) == 0b0000_0001,
{
    assert(1u8 << 7u8 == 0b1000_0000 && 1u8 << 6u8 == 0b0100_0000 && 1u8 << 5u8 == 0b0010_0000
        && 1u8 << 4u8 == 0b0001_0000 && 1u8 << 3u8 == 0b0000_1000 && 1u8 << 2u8 == 0b0000_0100
        && 1u8 << 1u8 == 0b0000_0010 && 1u8 << 0u8 == 0b0000_0001) by (bit_vector);
}

/// The status register: eight flag bits.
#[derive(Debug, Clone, PartialEq, Eq)]
pub struct CpuStatus {
    inner: u8,
}

impl CpuStatus {
    /// Position of the Carry flag.
    pub const CARRY: u8 = 7;

    /// Position of the Zero flag.
    pub const ZERO: u8 = 6;

    /// Position of the Interrupt-disable flag.
    pub const INTERRUPT: u8 = 5;

    /// Position of the Decimal flag.
    pub const DECIMAL: u8 = 4;

    /// Position of the Break flag.
    pub const BREAK: u8 = 3;

    /// Position of the Overflow flag.
    pub const OVERFLOW: u8 = 1;

    /// Position of the Negative flag.
    pub const NEGATIVE: u8 = 0;

    /// The register's eight bits.
    pub closed spec fn view(&self) -> u8 {
        self.inner
    }

    /// Tells whether the flag at position `index` is set.
    pub fn by_index(&mut self, index: u8) -> (set: bool)
        requires
            index < 8,
        ensures
            set == flag_set(old(self)@, bit_mask(index)),
            *final(self) == *old(self),
    {
        let mask = 1u8 << index;
        (self.inner & (1u8 << index)) == mask
    }

    /// Clears the flag at position `index`; the other flags stay.
    pub fn turn_off(&mut self, index: u8)
        requires
            index < 8,
        ensures
            final(self)@ == with_flag(old(self)@, bit_mask(index), false),
    {
        self.inner &= !(1u8 << index);
    }

    /// Sets the flag at position `index`; the other flags stay.
    pub fn turn_on(&mut self, index: u8)
        requires
            index < 8,
        ensures
            final(self)@ == with_flag(old(self)@, bit_mask(index), true),
    {
        self.inner |= 1u8 << index;
    }

    /// Sets the flag at `index` to what `predicate` answers, and returns
    /// the register's bits.
    pub fn turn<T: Fn() -> bool>(&mut self, index: u8, predicate: T) -> (bits: u8)
        requires
            index < 8,
            predicate.requires(()),
        ensures
            exists|on: bool| #[trigger]
                predicate.ensures((), on) && final(self)@ == with_flag(
                    old(self)@,
                    bit_mask(index),
                    on,
                ),
            bits == final(self)@,
    {
        if predicate() {
            self.turn_on(index);
        } else {
            self.turn_off(index);
        }

        self.inner
    }

    /// A register whose flags are all clear.
    pub fn new() -> (status: Self)
        ensures
            status@ == 0,
    {
        Self { inner: 0 }
    }
}

} // verus!
