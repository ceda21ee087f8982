//! Arithmetic on bytes: addition and subtraction in binary and in decimal,
//! shifts, rotates and comparison, each with its flags.

use vstd::prelude::*;
use super::bits::is_negative;
use super::bits::sign_bit;
use super::bits::signed_of;
use super::bits::wrap8;

verus! {

/// What an addition or subtraction produces: the result byte and the four
/// flags that it defines.
#[derive(Clone, Copy, PartialEq, Eq, Debug, Structural)]
pub struct Sum {
    pub value: u8,
    pub carry: bool,
    pub overflow: bool,
    pub zero: bool,
    pub negative: bool,
}

/// What a shift or rotate produces: the result byte and the bit that left
/// it.
#[derive(Clone, Copy, PartialEq, Eq, Debug, Structural)]
pub struct Shifted {
    pub value: u8,
    pub carry: bool,
}

/// What a comparison produces: the three flags of the difference, which is
/// not kept.
#[derive(Clone, Copy, PartialEq, Eq, Debug, Structural)]
pub struct Comparison {
    pub carry: bool,
    pub zero: bool,
    pub negative: bool,
}

/// Carry as a number.
pub open spec fn carry_of(carry: bool) -> int {
    if carry {
        1
    } else {
        0
    }
}

/// The sum is outside the range of a signed byte.
pub open spec fn overflows(signed_sum: int) -> bool {
    signed_sum < -128 || signed_sum > 127
}

/// Binary addition with carry. Carry is set when the unsigned sum exceeds
/// 255; Overflow is set when the sum of the operands, read as signed
/// bytes, does not fit a signed byte.
pub open spec fn add_binary_of(a: u8, m: u8, carry: bool) -> Sum {
    let sum = a + m + carry_of(carry);
    Sum {
        value: wrap8(sum),
        carry: sum > 255,
        overflow: overflows(signed_of(a) + signed_of(m) + carry_of(carry)),
        zero: wrap8(sum) == 0,
        negative: is_negative(wrap8(sum)),
    }
}

/// Binary subtraction with borrow, where a clear Carry is a borrow. Carry
/// is set when no borrow is needed; Overflow is set when the difference of
/// the operands, read as signed bytes, does not fit a signed byte.
pub open spec fn subtract_binary_of(a: u8, m: u8, carry: bool) -> Sum {
    let difference = a - m - (1 - carry_of(carry));
    Sum {
        value: wrap8(difference),
        carry: difference >= 0,
        overflow: overflows(signed_of(a) - signed_of(m) - (1 - carry_of(carry))),
        zero: wrap8(difference) == 0,
        negative: is_negative(wrap8(difference)),
    }
}

/// The byte made of the high nibble of `value`.
pub open spec fn high_nibble_of(value: u8) -> u8 {
    (value / 16 * 16) as u8
}

/// The low nibble of `value`.
pub open spec fn low_nibble_of(value: u8) -> u8 {
    value % 16
}

/// Decimal addition with carry, as the processor performs it: the low
/// nibbles are added and corrected by six when they pass nine, the high
/// nibbles likewise. Carry and the result come from the corrected sum;
/// Negative and Overflow from the sum before the high nibble is corrected;
/// Zero from the binary sum.
pub open spec fn add_decimal_of(a: u8, m: u8, carry: bool) -> Sum {
    let low = low_nibble_of(a) + low_nibble_of(m) + carry_of(carry);
    let low_corrected = if low >= 10 {
        (low + 6) % 16 + 16
    } else {
        low
    };
    let partial = high_nibble_of(a) + high_nibble_of(m) + low_corrected;
    let corrected = if partial >= 0xA0 {
        partial + 0x60
    } else {
        partial
    };
    Sum {
        value: wrap8(corrected),
        carry: corrected >= 0x100,
        overflow: overflows(
            signed_of(high_nibble_of(a)) + signed_of(high_nibble_of(m)) + low_corrected,
        ),
        zero: wrap8(a + m + carry_of(carry)) == 0,
        negative: is_negative(wrap8(partial)),
    }
}

/// Decimal subtraction with borrow, as the processor performs it: the low
/// nibbles are subtracted and corrected by six when they borrow, the high
/// nibbles likewise. The four flags are those of the binary subtraction.
pub open spec fn subtract_decimal_of(a: u8, m: u8, carry: bool) -> Sum {
    let low = low_nibble_of(a) - low_nibble_of(m) - (1 - carry_of(carry));
    let low_corrected = if low < 0 {
        (low - 6) % 16 - 16
    } else {
        low
    };
    let partial = high_nibble_of(a) - high_nibble_of(m) + low_corrected;
    let corrected = if partial < 0 {
        partial - 0x60
    } else {
        partial
    };
    Sum { value: wrap8(corrected), ..subtract_binary_of(a, m, carry) }
}

/// A shift to the left by one bit: bit 7 leaves into Carry, and bit 0
/// becomes zero.
pub open spec fn shift_left_of(value: u8) -> Shifted {
    Shifted { value: wrap8(value * 2), carry: is_negative(value) }
}

/// A shift to the right by one bit: bit 0 leaves into Carry, and bit 7
/// becomes zero.
pub open spec fn shift_right_of(value: u8) -> Shifted {
    Shifted { value: value / 2, carry: value % 2 == 1 }
}

/// A rotation to the left by one bit through Carry: bit 7 leaves into
/// Carry, and the old Carry becomes bit 0.
pub open spec fn rotate_left_of(value: u8, carry: bool) -> Shifted {
    Shifted { value: wrap8(value * 2 + carry_of(carry)), carry: is_negative(value) }
}

/// A rotation to the right by one bit through Carry: bit 0 leaves into
/// Carry, and the old Carry becomes bit 7.
pub open spec fn rotate_right_of(value: u8, carry: bool) -> Shifted {
    Shifted { value: (value / 2 + 128 * carry_of(carry)) as u8, carry: value % 2 == 1 }
}

/// A comparison: the register minus the operand, of which only the flags
/// are kept. Carry is set when the register is not below the operand, Zero
/// when the two are equal, Negative when bit 7 of the difference is set.
pub open spec fn compare_of(register: u8, m: u8) -> Comparison {
    Comparison {
        carry: register >= m,
        zero: register == m,
        negative: is_negative(wrap8(register - m)),
    }
}

/// The byte and its ones' complement add up to 255.
proof fn lemma_complement(value: u8)
    by (bit_vector)
    ensures
        !value == 255 - value,
{
}

/// The sign test that the adder uses: both operands have the same sign,
/// and the result has the other one.
proof fn lemma_sign_test(a: u8, m: u8, value: u8)
    by (bit_vector)
    ensures
        ((a ^ value) & (m ^ value) & 0x80 != 0) == ((a >= 128) == (m >= 128) && (value >= 128) != (a
            >= 128)),
{
}

/// The nibbles of a byte, by masks and by arithmetic.
proof fn lemma_nibbles(value: u8)
    by (bit_vector)
    ensures
        value & 0x0F == value % 16,
        value & 0xF0 == value / 16 * 16,
{
}

/// A shift to the left by one bit doubles the byte modulo 256 and leaves
/// bit 0 clear.
proof fn lemma_shift_left(value: u8)
    by (bit_vector)
    ensures
        value << 1u8 == (value * 2) % 256,
        (value << 1u8) | 0x01 == (value * 2) % 256 + 1,
{
}

/// A shift to the right by one bit halves the byte and leaves bit 7
/// clear; bit 0 tells whether the byte is odd.
proof fn lemma_shift_right(value: u8)
    by (bit_vector)
    ensures
        value >> 1u8 == value / 2,
        (value >> 1u8) | 0x80 == value / 2 + 128,
        (value & 0x01 != 0) == (value % 2 == 1),
{
}

/// Shifts a byte to the left by one bit.
pub fn shift_left(value: u8) -> (shifted: Shifted)
    ensures
        shifted == shift_left_of(value),
{
    proof {
        lemma_shift_left(value);
    }
    Shifted { value: value << 1u8, carry: sign_bit(value) }
}

/// Shifts a byte to the right by one bit.
pub fn shift_right(value: u8) -> (shifted: Shifted)
    ensures
        shifted == shift_right_of(value),
{
    proof {
        lemma_shift_right(value);
    }
    Shifted { value: value >> 1u8, carry: value & 0x01 != 0 }
}

/// Rotates a byte to the left by one bit through the carry.
pub fn rotate_left(value: u8, carry: bool) -> (shifted: Shifted)
    ensures
        shifted == rotate_left_of(value, carry),
{
    proof {
        lemma_shift_left(value);
    }
    let rotated: u8 = if carry {
        (value << 1u8) | 0x01
    } else {
        value << 1u8
    };
    Shifted { value: rotated, carry: sign_bit(value) }
}

/// Rotates a byte to the right by one bit through the carry.
pub fn rotate_right(value: u8, carry: bool) -> (shifted: Shifted)
    ensures
        shifted == rotate_right_of(value, carry),
{
    proof {
        lemma_shift_right(value);
    }
    let rotated: u8 = if carry {
        (value >> 1u8) | 0x80
    } else {
        value >> 1u8
    };
    Shifted { value: rotated, carry: value & 0x01 != 0 }
}

/// Compares a register with an operand.
pub fn compare(register: u8, m: u8) -> (comparison: Comparison)
    ensures
        comparison == compare_of(register, m),
{
    Comparison {
        carry: register >= m,
        zero: register == m,
        negative: sign_bit(register.wrapping_sub(m)),
    }
}

/// Adds two bytes and the carry.
pub fn add_binary(a: u8, m: u8, carry: bool) -> (sum: Sum)
    ensures
        sum == add_binary_of(a, m, carry),
{
    let carry_in: u16 = if carry {
        1
    } else {
        0
    };
    let total: u16 = a as u16 + m as u16 + carry_in;
    let value: u8 = (total % 256) as u8;
    proof {
        lemma_sign_test(a, m, value);
    }
    Sum {
        value,
        carry: total > 0xFF,
        overflow: (a ^ value) & (m ^ value) & 0x80 != 0,
        zero: value == 0,
        negative: sign_bit(value),
    }
}

/// Subtracts a byte and the borrow from a byte, by adding the ones'
/// complement.
pub fn subtract_binary(a: u8, m: u8, carry: bool) -> (difference: Sum)
    ensures
        difference == subtract_binary_of(a, m, carry),
{
    proof {
        lemma_complement(m);
    }
    add_binary(a, !m, carry)
}

/// Both nibbles of the byte are decimal digits.
pub open spec fn is_decimal(value: u8) -> bool {
    value / 16 <= 9 && value % 16 <= 9
}

/// The number from 0 to 99 that a byte of two decimal digits stands for.
pub open spec fn decimal_value_of(value: u8) -> int {
    (value / 16) * 10 + value % 16
}

/// The Overflow rule in terms of signs: an addition overflows if and only
/// if both operands have the same sign and the result has the other one.
pub proof fn lemma_overflow_by_signs(a: u8, m: u8, carry: bool)
    ensures
        add_binary_of(a, m, carry).overflow <==> is_negative(a) == is_negative(m) && is_negative(
            add_binary_of(a, m, carry).value,
        ) != is_negative(a),
{
}

/// Subtraction is the addition of the ones' complement of the operand.
pub proof fn lemma_subtract_adds_complement(a: u8, m: u8, carry: bool)
    ensures
        subtract_binary_of(a, m, carry) == add_binary_of(a, (255 - m) as u8, carry),
{
}

/// The digits of a sum of decimal digits: `16 * tens + units` is the byte
/// whose nibbles are the two digits.
proof fn lemma_digits(tens: int, units: int)
    requires
        0 <= tens <= 9,
        0 <= units <= 9,
    ensures
        (16 * tens + units) / 16 == tens,
        (16 * tens + units) % 16 == units,
        (16 * tens + units) % 256 == 16 * tens + units,
        (16 * tens + units + 256) % 256 == 16 * tens + units,
        (16 * tens + units - 256) % 256 == 16 * tens + units,
        (10 * tens + units) % 100 == 10 * tens + units,
        (10 * tens + units + 100) % 100 == 10 * tens + units,
        (10 * tens + units - 100) % 100 == 10 * tens + units,
{
    let byte = 16 * tens + units;
    let number = 10 * tens + units;
    vstd::arithmetic::div_mod::lemma_fundamental_div_mod_converse(byte, 16, tens, units);
    vstd::arithmetic::div_mod::lemma_fundamental_div_mod_converse(byte, 256, 0, byte);
    vstd::arithmetic::div_mod::lemma_fundamental_div_mod_converse(byte + 256, 256, 1, byte);
    vstd::arithmetic::div_mod::lemma_fundamental_div_mod_converse(byte - 256, 256, -1, byte);
    vstd::arithmetic::div_mod::lemma_fundamental_div_mod_converse(number, 100, 0, number);
    vstd::arithmetic::div_mod::lemma_fundamental_div_mod_converse(number + 100, 100, 1, number);
    vstd::arithmetic::div_mod::lemma_fundamental_div_mod_converse(number - 100, 100, -1, number);
}

/// On decimal operands, decimal addition adds the numbers that the bytes
/// stand for: the result is the sum modulo 100, again in decimal digits,
/// and Carry tells whether the sum reached 100.
pub proof fn lemma_decimal_addition(a: u8, m: u8, carry: bool)
    requires
        is_decimal(a),
        is_decimal(m),
    ensures
        ({
            let sum = decimal_value_of(a) + decimal_value_of(m) + carry_of(carry);
            &&& is_decimal(add_decimal_of(a, m, carry).value)
            &&& decimal_value_of(add_decimal_of(a, m, carry).value) == sum % 100
            &&& add_decimal_of(a, m, carry).carry <==> sum >= 100
        }),
{
    let (a_tens, a_units) = (a as int / 16, a as int % 16);
    let (m_tens, m_units) = (m as int / 16, m as int % 16);
    let low = a_units + m_units + carry_of(carry);
    // The units of the sum, and the tens with the carry out of the units.
    let units = if low >= 10 {
        low - 10
    } else {
        low
    };
    let tens = a_tens + m_tens + if low >= 10 {
        1int
    } else {
        0int
    };
    let kept_tens = if tens >= 10 {
        tens - 10
    } else {
        tens
    };
    lemma_digits(kept_tens, units);
    let low_corrected = if low >= 10 {
        (low + 6) % 16 + 16
    } else {
        low
    };
    assert(low_corrected == if low >= 10 {
        units + 16
    } else {
        units
    }) by {
        if low >= 10 {
            vstd::arithmetic::div_mod::lemma_fundamental_div_mod_converse(low + 6, 16, 1, units);
        }
    }
    let partial = high_nibble_of(a) + high_nibble_of(m) + low_corrected;
    assert(partial == 16 * tens + units);
    let corrected = if partial >= 0xA0 {
        partial + 0x60
    } else {
        partial
    };
    assert(corrected == if tens >= 10 {
        16 * kept_tens + units + 256
    } else {
        16 * kept_tens + units
    });
    let value = wrap8(corrected);
    assert(value == 16 * kept_tens + units);
    assert(add_decimal_of(a, m, carry).value == value);
    assert(add_decimal_of(a, m, carry).carry == (tens >= 10));
    assert(decimal_value_of(a) + decimal_value_of(m) + carry_of(carry) == 10 * tens + units);
}

/// On decimal operands, decimal subtraction subtracts the numbers that the
/// bytes stand for: the result is the difference modulo 100, again in
/// decimal digits, and Carry tells that no borrow was needed.
pub proof fn lemma_decimal_subtraction(a: u8, m: u8, carry: bool)
    requires
        is_decimal(a),
        is_decimal(m),
    ensures
        ({
            let difference = decimal_value_of(a) - decimal_value_of(m) - (1 - carry_of(carry));
            &&& is_decimal(subtract_decimal_of(a, m, carry).value)
            &&& decimal_value_of(subtract_decimal_of(a, m, carry).value) == difference % 100
            &&& subtract_decimal_of(a, m, carry).carry <==> difference >= 0
        }),
{
    let (a_tens, a_units) = (a as int / 16, a as int % 16);
    let (m_tens, m_units) = (m as int / 16, m as int % 16);
    let low = a_units - m_units - (1 - carry_of(carry));
    // The units of the difference, and the tens with the borrow of the
    // units.
    let units = if low < 0 {
        low + 10
    } else {
        low
    };
    let tens = a_tens - m_tens - if low < 0 {
        1int
    } else {
        0int
    };
    let kept_tens = if tens < 0 {
        tens + 10
    } else {
        tens
    };
    lemma_digits(kept_tens, units);
    let low_corrected = if low < 0 {
        (low - 6) % 16 - 16
    } else {
        low
    };
    assert(low_corrected == if low < 0 {
        units - 16
    } else {
        units
    }) by {
        if low < 0 {
            vstd::arithmetic::div_mod::lemma_fundamental_div_mod_converse(low - 6, 16, -1, units);
        }
    }
    let partial = high_nibble_of(a) - high_nibble_of(m) + low_corrected;
    assert(partial == 16 * tens + units);
    let corrected = if partial < 0 {
        partial - 0x60
    } else {
        partial
    };
    assert(corrected == if tens < 0 {
        16 * kept_tens + units - 256
    } else {
        16 * kept_tens + units
    });
    let value = wrap8(corrected);
    assert(value == 16 * kept_tens + units);
    assert(subtract_decimal_of(a, m, carry).value == value);
    assert(decimal_value_of(a) - decimal_value_of(m) - (1 - carry_of(carry)) == 10 * tens + units);
    assert(a as int - m as int - (1 - carry_of(carry)) == 16 * (a_tens - m_tens) + low);
}

/// Reads a byte as a two's complement number.
fn signed(value: u8) -> (number: i16)
    ensures
        number == signed_of(value),
{
    if value >= 0x80 {
        value as i16 - 0x100
    } else {
        value as i16
    }
}

/// Adds two bytes and the carry as packed decimal numbers.
pub fn add_decimal(a: u8, m: u8, carry: bool) -> (sum: Sum)
    ensures
        sum == add_decimal_of(a, m, carry),
{
    proof {
        lemma_nibbles(a);
        lemma_nibbles(m);
    }
    let carry_in: u16 = if carry {
        1
    } else {
        0
    };
    let mut low: u16 = (a & 0x0F) as u16 + (m & 0x0F) as u16 + carry_in;
    if low >= 0x0A {
        low = (low + 0x06) % 16 + 0x10;
    }
    let partial: u16 = (a & 0xF0) as u16 + (m & 0xF0) as u16 + low;
    let signed_partial: i16 = signed(a & 0xF0) + signed(m & 0xF0) + low as i16;
    let corrected: u16 = if partial >= 0xA0 {
        partial + 0x60
    } else {
        partial
    };
    Sum {
        value: (corrected % 256) as u8,
        carry: corrected >= 0x100,
        overflow: signed_partial < -128 || signed_partial > 127,
        zero: add_binary(a, m, carry).zero,
        negative: sign_bit((partial % 256) as u8),
    }
}

/// Subtracts a byte and the borrow from a byte as packed decimal numbers.
pub fn subtract_decimal(a: u8, m: u8, carry: bool) -> (difference: Sum)
    ensures
        difference == subtract_decimal_of(a, m, carry),
{
    proof {
        lemma_nibbles(a);
        lemma_nibbles(m);
    }
    let borrow: i16 = if carry {
        0
    } else {
        1
    };
    let mut low: i16 = (a & 0x0F) as i16 - (m & 0x0F) as i16 - borrow;
    if low < 0 {
        // The nibble wraps below zero, is corrected by six, and borrows
        // from the high nibble.
        let wrapped: i16 = if low - 6 < -16 {
            low - 6 + 32
        } else {
            low - 6 + 16
        };
        assert(wrapped == (low - 6) % 16);
        low = wrapped - 0x10;
    }
    let partial: i16 = (a & 0xF0) as i16 - (m & 0xF0) as i16 + low;
    let corrected: i16 = if partial < 0 {
        partial - 0x60
    } else {
        partial
    };
    assert((corrected + 0x200) % 256 == corrected as int % 256) by {
        vstd::arithmetic::div_mod::lemma_mod_multiples_vanish(2, corrected as int, 256);
    }
    let binary: Sum = subtract_binary(a, m, carry);
    Sum {
        value: ((corrected + 0x200) % 256) as u8,
        carry: binary.carry,
        overflow: binary.overflow,
        zero: binary.zero,
        negative: binary.negative,
    }
}

} // verus!
