//! Arithmetic of the instruction set on plain bytes and words: the rule that
//! derives the Zero and Negative flags from a result, add-with-carry, the
//! left shift and the target of a relative branch.

use vstd::prelude::*;
use crate::consts::CARRY_MASK;
use crate::mem::{wrap_byte, wrap_word, Byte, Word};
use crate::status::{flag_set, lemma_flag_kept, lemma_flag_written, with_flag, CpuStatus, NEG_MASK};

verus! {

/// Whether bit 7 of `value` is set.
pub open spec fn sign_bit(value: Byte) -> bool {
    value & NEG_MASK != 0
}

/// `value` read as a two's-complement number.
pub open spec fn signed(value: Byte) -> int {
    if value >= 0x80 {
        value - 0x100
    } else {
        value as int
    }
}

/// Bit 7 is set exactly in the bytes from 128 on, which are the bytes that
/// read as negative numbers.
pub proof fn lemma_sign_bit(value: Byte)
    ensures
        sign_bit(value) <==> value >= 0x80,
        sign_bit(value) <==> signed(value) < 0,
{
    assert((value & 0x80 != 0) <==> value >= 0x80) by (bit_vector);
}

/// `flags` after the Zero and Negative flags are recomputed from `value`:
/// Zero is set exactly when `value` is 0, Negative exactly when bit 7 of
/// `value` is set, and the other flags stay.
pub open spec fn with_zero_negative(flags: u8, value: Byte) -> u8 {
    with_flag(
        with_flag(flags, CpuStatus::NEGATIVE, sign_bit(value)),
        CpuStatus::ZERO,
        value == 0,
    )
}

/// After the Zero and Negative flags are recomputed from a byte, Zero tells
/// whether the byte is 0 and Negative whether its bit 7 is set; Carry and
/// Overflow are as before.
pub proof fn lemma_zero_negative(flags: u8, value: Byte)
    ensures
        flag_set(with_zero_negative(flags, value), CpuStatus::ZERO) == (value == 0),
        flag_set(with_zero_negative(flags, value), CpuStatus::NEGATIVE) == ((value & 0x80)
            != 0),
        flag_set(with_zero_negative(flags, value), CpuStatus::CARRY) == flag_set(
            flags,
            CpuStatus::CARRY,
        ),
        flag_set(with_zero_negative(flags, value), CpuStatus::OVERFLOW) == flag_set(
            flags,
            CpuStatus::OVERFLOW,
        ),
{
    let negative = with_flag(flags, CpuStatus::NEGATIVE, sign_bit(value));
    assert(CpuStatus::ZERO & CpuStatus::NEGATIVE == 0) by (bit_vector);
    assert(CpuStatus::ZERO & CpuStatus::CARRY == 0) by (bit_vector);
    assert(CpuStatus::ZERO & CpuStatus::OVERFLOW == 0) by (bit_vector);
    assert(CpuStatus::NEGATIVE & CpuStatus::CARRY == 0) by (bit_vector);
    assert(CpuStatus::NEGATIVE & CpuStatus::OVERFLOW == 0) by (bit_vector);
    lemma_flag_written(flags, CpuStatus::NEGATIVE, sign_bit(value));
    lemma_flag_written(negative, CpuStatus::ZERO, value == 0);
    lemma_flag_kept(negative, CpuStatus::ZERO, value == 0, CpuStatus::NEGATIVE);
    lemma_flag_kept(negative, CpuStatus::ZERO, value == 0, CpuStatus::CARRY);
    lemma_flag_kept(negative, CpuStatus::ZERO, value == 0, CpuStatus::OVERFLOW);
    lemma_flag_kept(flags, CpuStatus::NEGATIVE, sign_bit(value), CpuStatus::CARRY);
    lemma_flag_kept(flags, CpuStatus::NEGATIVE, sign_bit(value), CpuStatus::OVERFLOW);
}

/// The sum of an add-with-carry before it is cut to eight bits.
pub open spec fn adc_sum(acc: Byte, operand: Byte, carry: bool) -> int {
    acc + operand + if carry {
        1int
    } else {
        0int
    }
}

/// The low eight bits of the sum.
pub open spec fn adc_value(acc: Byte, operand: Byte, carry: bool) -> Byte {
    wrap_byte(adc_sum(acc, operand, carry))
}

/// Bit 8 of the sum: the carry out.
pub open spec fn adc_carry(acc: Byte, operand: Byte, carry: bool) -> bool {
    adc_sum(acc, operand, carry) >= 0x100
}

/// Signed overflow of the addition: both operands have the same sign, and the
/// result has the other.
pub open spec fn adc_overflow(acc: Byte, operand: Byte, carry: bool) -> bool {
    &&& sign_bit(acc) == sign_bit(operand)
    &&& sign_bit(adc_value(acc, operand, carry)) != sign_bit(acc)
}

/// The overflow rule flags exactly the additions whose sum, taken over the
/// signed readings of both operands, does not fit a signed byte.
pub proof fn lemma_overflow_is_signed_overflow(acc: Byte, operand: Byte, carry: bool)
    ensures
        adc_overflow(acc, operand, carry) <==> !(-0x80 <= signed(acc) + signed(operand) + if carry {
            1int
        } else {
            0int
        } < 0x80),
{
    lemma_sign_bit(acc);
    lemma_sign_bit(operand);
    lemma_sign_bit(adc_value(acc, operand, carry));
}

/// What an add-with-carry yields.
#[derive(Debug, Clone, Copy, PartialEq, Eq, Structural)]
pub struct Sum {
    pub value: Byte,
    pub carry: bool,
    pub overflow: bool,
}

/// Adds `operand` and the carry to `acc` at a width that keeps the carry out.
pub fn add_with_carry(acc: Byte, operand: Byte, carry: bool) -> (sum: Sum)
    ensures
        sum.value == adc_value(acc, operand, carry),
        sum.carry == adc_carry(acc, operand, carry),
        sum.overflow == adc_overflow(acc, operand, carry),
{
    let carry_in: Word = if carry {
        1
    } else {
        0
    };
    let wide: Word = acc as Word + operand as Word + carry_in;
    let carry_out = (wide & CARRY_MASK) == CARRY_MASK;
    let value = (wide % 0x100) as Byte;
    let overflow = ((acc ^ value) & (operand ^ value) & NEG_MASK) != 0;
    proof {
        assert(wide < 0x200 ==> ((wide & 0x100 == 0x100) <==> wide >= 0x100)) by (bit_vector);
        assert((((acc ^ value) & (operand ^ value) & 0x80) != 0) <==> ((acc & 0x80 != 0) == (operand
            & 0x80 != 0) && (value & 0x80 != 0) != (acc & 0x80 != 0))) by (bit_vector);
    }
    Sum { value, carry: carry_out, overflow }
}

/// `value` shifted left by one bit, cut to eight bits.
pub open spec fn asl_value(value: Byte) -> Byte {
    wrap_byte(value * 2)
}

/// The bit that the shift pushes out: bit 7 of `value`.
pub open spec fn asl_carry(value: Byte) -> bool {
    sign_bit(value)
}

/// Shifts `value` left by one bit and tells which bit fell out.
pub fn shift_left(value: Byte) -> (shifted: (Byte, bool))
    ensures
        shifted.0 == asl_value(value),
        shifted.1 == asl_carry(value),
{
    proof {
        lemma_sign_bit(value);
    }
    let carry = value >= NEG_MASK;
    let low = value % NEG_MASK;
    (low * 2, carry)
}

/// Where a taken branch lands: `pc`, the position right after the operand
/// byte, moved by the displacement read as a two's-complement number.
pub open spec fn branch_target(pc: Word, displacement: Byte) -> Word {
    wrap_word(pc + signed(displacement))
}

/// Computes the target of a taken branch.
pub fn branch_to(pc: Word, displacement: Byte) -> (target: Word)
    ensures
        target == branch_target(pc, displacement),
{
    if displacement >= NEG_MASK {
        pc.wrapping_sub(0x100 - displacement as Word)
    } else {
        pc.wrapping_add(displacement as Word)
    }
}

} // verus!
