//! The arithmetic of the processor on bytes: addition and subtraction with
//! carry, comparison, shifts and rotates. Each function is pure; what it
//! returns is stated over the integers.
//!
//! The definitions are opaque, so that proofs about the machine do not
//! unfold them: a proof that needs one reveals it.

use vstd::prelude::*;
use crate::flags::{is_negative, weight};

verus! {

/// The result of an addition or subtraction.
#[derive(Copy, Clone, Debug, PartialEq, Eq, Structural)]
pub struct Sum {
    pub value: u8,
    pub carry: bool,
    pub overflow: bool,
}

/// The result of a shift or rotate: the new byte and the bit that left it.
#[derive(Copy, Clone, Debug, PartialEq, Eq, Structural)]
pub struct Shifted {
    pub value: u8,
    pub carry: bool,
}

/// The flags that a comparison leaves.
#[derive(Copy, Clone, Debug, PartialEq, Eq, Structural)]
pub struct Comparison {
    pub negative: bool,
    pub zero: bool,
    pub carry: bool,
}

/// A byte read as a two's-complement number.
pub open spec fn signed(value: u8) -> int {
    if value >= 128 {
        value - 256
    } else {
        value as int
    }
}

/// `a + m + carry` in eight bits. The carry is the ninth bit of the sum.
/// Overflow is set when both operands have the same sign and the result has
/// the other one.
#[verifier::opaque]
pub open spec fn sum_with_carry(a: u8, m: u8, carry: bool) -> Sum {
    let sum = a + m + weight(carry);
    let value = (sum % 256) as u8;
    Sum {
        value,
        carry: sum > 255,
        overflow: is_negative(a) == is_negative(m) && is_negative(value) != is_negative(a),
    }
}

/// `a - m - (1 - carry)` in eight bits: a clear carry borrows one. The carry
/// of the result is set when nothing had to be borrowed. Overflow is set
/// when the operands have different signs and the result has the sign of
/// `m`.
#[verifier::opaque]
pub open spec fn difference_with_borrow(a: u8, m: u8, carry: bool) -> Sum {
    let difference = a - m - (1 - weight(carry));
    let value = (difference % 256) as u8;
    Sum {
        value,
        carry: difference >= 0,
        overflow: is_negative(a) != is_negative(m) && is_negative(value) != is_negative(a),
    }
}

/// The flags of `register - m`: carry when `register` is not below `m`,
/// zero when they are equal, negative from the eight-bit difference.
#[verifier::opaque]
pub open spec fn comparison(register: u8, m: u8) -> Comparison {
    Comparison {
        negative: is_negative(((register - m) % 256) as u8),
        zero: register == m,
        carry: register >= m,
    }
}

/// `value` moved one bit to the left, `carry_in` entering at bit 0 and
/// bit 7 leaving.
#[verifier::opaque]
pub open spec fn shifted_left(value: u8, carry_in: bool) -> Shifted {
    Shifted { value: ((2 * value) % 256 + weight(carry_in)) as u8, carry: value >= 128 }
}

/// `value` moved one bit to the right, `carry_in` entering at bit 7 and
/// bit 0 leaving.
#[verifier::opaque]
pub open spec fn shifted_right(value: u8, carry_in: bool) -> Shifted {
    Shifted { value: (value / 2 + 128 * weight(carry_in)) as u8, carry: value % 2 == 1 }
}

/// `value + 1` in eight bits.
#[verifier::opaque]
pub open spec fn incremented(value: u8) -> u8 {
    ((value + 1) % 256) as u8
}

/// `value - 1` in eight bits.
#[verifier::opaque]
pub open spec fn decremented(value: u8) -> u8 {
    ((value - 1) % 256) as u8
}

proof fn lemma_sign_test(a: u8, m: u8, r: u8)
    by (bit_vector)
    ensures
        ((a ^ r) & (m ^ r) & 0x80u8 != 0u8) == ((a >= 128u8) == (m >= 128u8) && (r >= 128u8) != (a
            >= 128u8)),
{
}

proof fn lemma_left_shift(value: u8)
    by (bit_vector)
    ensures
        (value << 1u8) == (2u8 * value) % 256,
        ((value << 1u8) | 1u8) == (2u8 * value) % 256 + 1,
{
}

proof fn lemma_right_shift(value: u8)
    by (bit_vector)
    ensures
        (value >> 1u8) == value / 2u8,
        ((value >> 1u8) | 0x80u8) == value / 2u8 + 128u8,
        (value & 0x80u8 != 0u8) == (value >= 128u8),
        (value & 0x01u8 != 0u8) == (value % 2u8 == 1u8),
{
}

/// Adds `m` and the carry to `a`.
pub fn adc(a: u8, m: u8, carry: bool) -> (sum: Sum)
    ensures
        sum == sum_with_carry(a, m, carry),
{
    proof {
        reveal(sum_with_carry);
    }
    let wide: u16 = a as u16 + m as u16 + if carry {
        1
    } else {
        0
    };
    let value: u8 = (wide % 256) as u8;
    proof {
        lemma_sign_test(a, m, value);
    }
    Sum { value, carry: wide > 0xFF, overflow: (a ^ value) & (m ^ value) & 0x80 != 0 }
}

/// Subtracts `m` and the borrow from `a`, as the hardware does: by adding
/// the complement of `m`.
pub fn sbc(a: u8, m: u8, carry: bool) -> (sum: Sum)
    ensures
        sum == difference_with_borrow(a, m, carry),
{
    proof {
        reveal(sum_with_carry);
        reveal(difference_with_borrow);
    }
    adc(a, 255 - m, carry)
}

/// Compares a register with `m`.
pub fn compare(register: u8, m: u8) -> (flags: Comparison)
    ensures
        flags == comparison(register, m),
{
    proof {
        reveal(comparison);
    }
    let difference = register.wrapping_sub(m);
    Comparison { negative: difference >= 0x80, zero: register == m, carry: register >= m }
}

/// Shifts or rotates one bit to the left: a shift passes `false` for
/// `carry_in`, a rotate the carry flag.
pub fn shift_left(value: u8, carry_in: bool) -> (shifted: Shifted)
    ensures
        shifted == shifted_left(value, carry_in),
{
    proof {
        reveal(shifted_left);
    }
    proof {
        lemma_left_shift(value);
        lemma_right_shift(value);
    }
    let moved: u8 = if carry_in {
        (value << 1u8) | 1
    } else {
        value << 1u8
    };
    Shifted { value: moved, carry: value & 0x80 != 0 }
}

/// Shifts or rotates one bit to the right: a shift passes `false` for
/// `carry_in`, a rotate the carry flag.
pub fn shift_right(value: u8, carry_in: bool) -> (shifted: Shifted)
    ensures
        shifted == shifted_right(value, carry_in),
{
    proof {
        reveal(shifted_right);
    }
    proof {
        lemma_left_shift(value);
        lemma_right_shift(value);
    }
    let moved: u8 = if carry_in {
        (value >> 1u8) | 0x80
    } else {
        value >> 1u8
    };
    Shifted { value: moved, carry: value & 0x01 != 0 }
}

/// Adds one, wrapping from `$FF` to `$00`.
pub fn increment(value: u8) -> (result: u8)
    ensures
        result == incremented(value),
{
    proof {
        reveal(incremented);
    }
    value.wrapping_add(1)
}

/// Subtracts one, wrapping from `$00` to `$FF`.
pub fn decrement(value: u8) -> (result: u8)
    ensures
        result == decremented(value),
{
    proof {
        reveal(decremented);
    }
    value.wrapping_sub(1)
}

/// The overflow flag of an addition tells whether the sum of the operands,
/// read as signed numbers, lies outside the range of a signed byte.
pub proof fn lemma_add_overflow_is_signed_overflow(a: u8, m: u8, carry: bool)
    ensures
        sum_with_carry(a, m, carry).overflow <==> !(-128 <= signed(a) + signed(m) + weight(carry)
            <= 127),
        !sum_with_carry(a, m, carry).overflow ==> signed(sum_with_carry(a, m, carry).value)
            == signed(a) + signed(m) + weight(carry),
{
    reveal(sum_with_carry);
}

/// The overflow flag of a subtraction tells whether the difference of the
/// operands, read as signed numbers, lies outside the range of a signed
/// byte.
pub proof fn lemma_subtract_overflow_is_signed_overflow(a: u8, m: u8, carry: bool)
    ensures
        difference_with_borrow(a, m, carry).overflow <==> !(-128 <= signed(a) - signed(m) - (1
            - weight(carry)) <= 127),
        !difference_with_borrow(a, m, carry).overflow ==> signed(
            difference_with_borrow(a, m, carry).value,
        ) == signed(a) - signed(m) - (1 - weight(carry)),
{
    reveal(difference_with_borrow);
}

/// A comparison is a subtraction without borrow whose result is dropped.
pub proof fn lemma_comparison_is_subtraction(register: u8, m: u8)
    ensures
        comparison(register, m).carry == difference_with_borrow(register, m, true).carry,
        comparison(register, m).zero == (difference_with_borrow(register, m, true).value == 0),
        comparison(register, m).negative == is_negative(
            difference_with_borrow(register, m, true).value,
        ),
{
    reveal(comparison);
    reveal(difference_with_borrow);
}

/// A rotate to the left and then to the right, each fed the bit that the
/// other let out, gives the byte back.
pub proof fn lemma_rotate_round_trip(value: u8, carry: bool)
    ensures
        ({
            let left = shifted_left(value, carry);
            let back = shifted_right(left.value, left.carry);
            back.value == value && back.carry == carry
        }),
{
    reveal(shifted_left);
    reveal(shifted_right);
}

} // verus!
