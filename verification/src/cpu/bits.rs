//! Bytes and words as numbers: how the bit operations of the processor read
//! in arithmetic.

use vstd::prelude::*;

verus! {

/// The 16-bit word whose low byte is `low` and whose high byte is `high`.
pub open spec fn word_of(low: u8, high: u8) -> u16 {
    (high as int * 256 + low as int) as u16
}

/// The low byte of a word.
pub open spec fn low_of(word: u16) -> u8 {
    (word % 256) as u8
}

/// The high byte of a word, which is also the number of its page.
pub open spec fn high_of(word: u16) -> u8 {
    (word / 256) as u8
}

/// The first address of the page that holds `word`.
pub open spec fn page_start_of(word: u16) -> u16 {
    (word - word % 256) as u16
}

/// The integer reduced into the 8-bit range.
pub open spec fn wrap8(value: int) -> u8 {
    (value % 256) as u8
}

/// The integer reduced into the 16-bit range.
pub open spec fn wrap16(value: int) -> u16 {
    (value % 65536) as u16
}

/// The byte read as a two's complement number.
pub open spec fn signed_of(value: u8) -> int {
    if value >= 128 {
        value as int - 256
    } else {
        value as int
    }
}

/// Bit 7 of the byte is set.
pub open spec fn is_negative(value: u8) -> bool {
    value >= 128
}

/// Builds a word from its two bytes.
pub fn make_word(low: u8, high: u8) -> (word: u16)
    ensures
        word == word_of(low, high),
{
    let word: u16 = ((high as u16) << 8) | (low as u16);
    assert(((high as u16) << 8) | (low as u16) == high as u16 * 256 + low as u16) by (bit_vector);
    word
}

/// Splits a word into its low and high byte.
pub fn split_word(word: u16) -> (bytes: (u8, u8))
    ensures
        bytes.0 == low_of(word),
        bytes.1 == high_of(word),
        word == word_of(bytes.0, bytes.1),
{
    assert((word & 0xFF) == word % 256 && (word >> 8) == word / 256) by (bit_vector);
    let low: u8 = (word & 0xFF) as u8;
    let high: u8 = (word >> 8) as u8;
    (low, high)
}

/// The first address of the page that holds `word`.
pub fn page_start(word: u16) -> (start: u16)
    ensures
        start == page_start_of(word),
{
    assert(word & 0xFF00 == word - word % 256) by (bit_vector);
    word & 0xFF00
}

/// Tells whether two addresses lie in different pages.
pub fn pages_differ(first: u16, second: u16) -> (differ: bool)
    ensures
        differ == (high_of(first) != high_of(second)),
{
    assert(((first & 0xFF00) != (second & 0xFF00)) == (first / 256 != second / 256)) by (bit_vector);
    (first & 0xFF00) != (second & 0xFF00)
}

/// Tests bit 7 of a byte.
pub fn sign_bit(value: u8) -> (set: bool)
    ensures
        set == is_negative(value),
{
    assert((value & 0x80 != 0) == (value >= 128)) by (bit_vector);
    value & 0x80 != 0
}

/// Adds a signed 8-bit displacement to an address, wrapping at 16 bits.
pub fn displace(base: u16, offset: u8) -> (target: u16)
    ensures
        target == wrap16(base + signed_of(offset)),
{
    if offset < 0x80 {
        base.wrapping_add(offset as u16)
    } else {
        base.wrapping_sub(0x100 - offset as u16)
    }
}

} // verus!
