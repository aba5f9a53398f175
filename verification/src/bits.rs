//! Fixed-width conversions of the integers that window messages carry.

use vstd::prelude::*;

verus! {

/// The signed reading of the low 32 bits of `n`.
pub open spec fn signed_low_bits(n: int) -> int {
    let low = n % 0x1_0000_0000;
    if low < 0x8000_0000 {
        low
    } else {
        low - 0x1_0000_0000
    }
}

/// The signed reading of a 16-bit word.
pub open spec fn signed_word(word: int) -> int {
    if word < 0x8000 {
        word
    } else {
        word - 0x1_0000
    }
}

/// The low 32 bits of a machine word.
pub fn low_bits(n: usize) -> (low: u32)
    ensures
        low == n as int % 0x1_0000_0000,
{
    let wide: u64 = n as u64;
    assert(wide as u32 == wide % 0x1_0000_0000) by (bit_vector);
    wide as u32
}

/// The low 32 bits of a machine word, read as a signed number.
pub fn low_bits_signed(n: usize) -> (low: i32)
    ensures
        low == signed_low_bits(n as int),
{
    reinterpret_signed(low_bits(n))
}

/// A 32-bit number read as a signed one.
pub fn reinterpret_signed(n: u32) -> (signed: i32)
    ensures
        signed == signed_low_bits(n as int),
{
    assert(n < 0x8000_0000 ==> n as i32 == n) by (bit_vector);
    assert(n >= 0x8000_0000 ==> n as i32 == n - 0x1_0000_0000) by (bit_vector);
    n as i32
}

/// The high 16 bits of a 32-bit number.
pub fn high_word(n: u32) -> (word: u16)
    ensures
        word == n / 0x1_0000,
{
    assert(((n >> 16) & 0xFFFF) as u16 == n / 0x1_0000) by (bit_vector);
    ((n >> 16) & 0xFFFF) as u16
}

/// The high 16 bits of a 32-bit number, read as a signed number.
pub fn high_word_signed(n: u32) -> (word: i16)
    ensures
        word == signed_word(n as int / 0x1_0000),
{
    let word: u16 = high_word(n);
    assert(word < 0x8000 ==> word as i16 == word) by (bit_vector);
    assert(word >= 0x8000 ==> word as i16 == word - 0x1_0000) by (bit_vector);
    word as i16
}

/// Whether the sign bit of a 16-bit number is set.
pub fn sign_bit(n: i16) -> (set: bool)
    ensures
        set == (n < 0),
{
    assert(((n as u16) & 0x8000 != 0) == (n < 0)) by (bit_vector);
    (n as u16) & 0x8000 != 0
}

/// The signed reading of a number differs from it by a multiple of 2^32 and
/// lies in the range of signed 32-bit numbers. No other number does.
pub proof fn law_signed_reading_is_congruent(n: int, other: int)
    ensures
        -0x8000_0000 <= signed_low_bits(n) < 0x8000_0000,
        (n - signed_low_bits(n)) % 0x1_0000_0000 == 0,
        -0x8000_0000 <= other < 0x8000_0000 && (n - other) % 0x1_0000_0000 == 0 ==> other
            == signed_low_bits(n),
{
}

/// The signed reading of a 16-bit word differs from it by a multiple of 2^16
/// and lies in the range of signed 16-bit numbers.
pub proof fn law_signed_word_is_congruent(word: int)
    requires
        0 <= word < 0x1_0000,
    ensures
        -0x8000 <= signed_word(word) < 0x8000,
        (word - signed_word(word)) % 0x1_0000 == 0,
{
}

} // verus!
