//! Flag bits as values.

use vstd::prelude::*;
use crate::nes::cpu_status::bit_mask;
use crate::status::{flag_set, with_flag};

verus! {

/// One binary digit.
#[derive(Debug, PartialEq, Eq, Structural, PartialOrd, Ord, Clone, Copy)]
pub enum Bit {
    Zero,
    One,
}

/// Eight flag bits, read and written as [`Bit`]s by position.
pub struct CpuFlags {
    inner: u8,
}

impl CpuFlags {
    /// Position of the Carry flag.
    pub const CARRY: u8 = 7;

    /// Position of the Zero flag.
    pub const ZERO: u8 = 6;

    /// Position of the Interrupt-disable flag.
    pub const INTERRUPT: u8 = 5;

    /// Position of the Decimal flag.
    pub const DECIMAL: u8 = 4;

    /// Position of the Break flag.
    pub const BREAK: u8 = 3;

    /// Position of the Overflow flag.
    pub const OVERFLOW: u8 = 1;

    /// Position of the Negative flag.
    pub const NEGATIVE: u8 = 0;

    /// The eight flag bits.
    pub closed spec fn view(&self) -> u8 {
        self.inner
    }

    /// The flag at position `index`.
    pub open spec fn bit(&self, index: u8) -> Bit {
        if flag_set(self@, bit_mask(index)) {
            Bit::One
        } else {
            Bit::Zero
        }
    }

    /// Reads the flag at position `index`.
    pub fn by_index(&self, index: u8) -> (bit: Bit)
        requires
            index < 8,
        ensures
            bit == self.bit(index),
    {
        proof {
            let bits = self.inner;
            assert(index < 8 ==> ((bits & (1u8 << index)) != 0 <==> (bits & (1u8 << index)) == (1u8
                << index))) by (bit_vector);
        }
        if (self.inner & (1u8 << index)) != 0 {
            Bit::from(1)
        } else {
            Bit::from(0)
        }
    }

    /// Writes the flag at position `index`; the other flags stay.
    pub fn modify_bit(&mut self, index: u8, to: Bit)
        requires
            index < 8,
        ensures
            final(self)@ == with_flag(old(self)@, bit_mask(index), to == Bit::One),
    {
        let raised: u8 = match to {
            Bit::One => 1,
            Bit::Zero => 0,
        };
        proof {
            let bits = self.inner;
            assert(index < 8 ==> (bits & !(1u8 << index)) | (1u8 << index) == bits | (1u8 << index))
                by (bit_vector);
            assert(index < 8 ==> (bits & !(1u8 << index)) | (0u8 << index) == bits & !(1u8
                << index)) by (bit_vector);
        }
        self.inner = (self.inner & !(1u8 << index)) | (raised << index);
    }

    /// Replaces the flag at `index` by what `predicate` makes of it.
    pub fn modify_by_predicate<T: Fn(Bit) -> Bit>(&mut self, index: u8, predicate: T)
        requires
            index < 8,
            predicate.requires((old(self).bit(index),)),
        ensures
            exists|to: Bit| #[trigger]
                predicate.ensures((old(self).bit(index),), to) && final(self)@ == with_flag(
                    old(self)@,
                    bit_mask(index),
                    to == Bit::One,
                ),
    {
        self.modify_bit(index, predicate(self.by_index(index)));
    }

    /// Flags with the given bits.
    pub fn new(inner: u8) -> (flags: Self)
        ensures
            flags@ == inner,
    {
        Self { inner }
    }

    /// Flags that are all clear.
    pub fn zero() -> (flags: Self)
        ensures
            flags@ == 0,
    {
        Self { inner: 0 }
    }
}

impl Bit {
    /// Whether the bit is 1.
    pub fn on(self) -> (on: bool)
        ensures
            on == (self == Bit::One),
    {
        self == Bit::One
    }

    /// Whether the bit is 0.
    pub fn off(self) -> (off: bool)
        ensures
            off == (self == Bit::Zero),
    {
        self == Bit::Zero
    }

    /// The bit that the number 0 or 1 stands for.
    pub fn from(value: u8) -> (bit: Bit)
        requires
            value <= 1,
        ensures
            bit == if value == 1 {
                Bit::One
            } else {
                Bit::Zero
            },
    {
        match value {
            0 => Self::Zero,
            _ => Self::One,
        }
    }
}

} // verus!
