//! Bytes and 16-bit words: splitting, joining and wrapping arithmetic, stated
//! over plain integers so that the rest of the crate can reason about them
//! without the bit-vector solver.

use vstd::prelude::*;

verus! {

/// The low eight bits of a word.
pub open spec fn low(word: u16) -> u8 {
    (word % 256) as u8
}

/// The high eight bits of a word.
pub open spec fn high(word: u16) -> u8 {
    (word / 256) as u8
}

/// The word made of a low and a high byte.
pub open spec fn join(lo: u8, hi: u8) -> u16 {
    (hi * 256 + lo) as u16
}

/// An integer wrapped into the range of a byte.
pub open spec fn wrap8(value: int) -> u8 {
    (value % 256) as u8
}

/// An integer wrapped into the range of a 16-bit word.
pub open spec fn wrap16(value: int) -> u16 {
    (value % 65536) as u16
}

/// The value of a byte read as a two's complement number.
pub open spec fn signed(byte: u8) -> int {
    if byte >= 128 {
        byte - 256
    } else {
        byte as int
    }
}

/// Whether bit `index` (0 is the least significant) of a byte is set.
pub open spec fn bit(byte: u8, index: nat) -> bool
    recommends
        index < 8,
{
    (byte as int / pow2(index)) % 2 == 1
}

/// Two to the power of `exponent`, for the eight exponents a byte uses.
pub open spec fn pow2(exponent: nat) -> int {
    if exponent == 0 {
        1
    } else if exponent == 1 {
        2
    } else if exponent == 2 {
        4
    } else if exponent == 3 {
        8
    } else if exponent == 4 {
        16
    } else if exponent == 5 {
        32
    } else if exponent == 6 {
        64
    } else {
        128
    }
}

pub fn low_byte(word: u16) -> (byte: u8)
    ensures
        byte == low(word),
{
    (word % 256) as u8
}

pub fn high_byte(word: u16) -> (byte: u8)
    ensures
        byte == high(word),
{
    (word / 256) as u8
}

pub fn make_word(lo: u8, hi: u8) -> (word: u16)
    ensures
        word == join(lo, hi),
        low(word) == lo,
        high(word) == hi,
{
    (hi as u16) * 256 + (lo as u16)
}

/// Adds two bytes, discarding the carry.
pub fn add8(left: u8, right: u8) -> (sum: u8)
    ensures
        sum == wrap8(left + right),
{
    let total: u16 = left as u16 + right as u16;
    (total % 256) as u8
}

/// Subtracts one byte from another, wrapping below zero.
pub fn sub8(left: u8, right: u8) -> (difference: u8)
    ensures
        difference == wrap8(left - right),
{
    let total: u16 = 256 + left as u16 - right as u16;
    (total % 256) as u8
}

/// Adds two words, discarding the carry.
pub fn add16(left: u16, right: u16) -> (sum: u16)
    ensures
        sum == wrap16(left + right),
{
    let total: u32 = left as u32 + right as u32;
    (total % 65536) as u16
}

/// Subtracts one word from another, wrapping below zero.
pub fn sub16(left: u16, right: u16) -> (difference: u16)
    ensures
        difference == wrap16(left - right),
{
    let total: u32 = 65536 + left as u32 - right as u32;
    (total % 65536) as u16
}

/// Whether bit `index` of a byte is set.
pub fn test_bit(byte: u8, index: u8) -> (set: bool)
    requires
        index < 8,
    ensures
        set == bit(byte, index as nat),
{
    let divisor: u8 = if index == 0 {
        1
    } else if index == 1 {
        2
    } else if index == 2 {
        4
    } else if index == 3 {
        8
    } else if index == 4 {
        16
    } else if index == 5 {
        32
    } else if index == 6 {
        64
    } else {
        128
    };
    (byte / divisor) % 2 == 1
}

/// Stepping a byte down by one and up again returns to it.
pub proof fn lemma_step_back(byte: u8)
    ensures
        wrap8(wrap8(byte - 1) + 1) == byte,
        wrap8(wrap8(byte + 1) - 1) == byte,
        wrap8(byte - 1) != byte,
{
}

/// A word is the join of its halves, and stepping back and forth by one
/// returns to it.
pub proof fn lemma_split_join(word: u16)
    ensures
        join(low(word), high(word)) == word,
        wrap16(wrap16(word - 1) + 1) == word,
        wrap16(wrap16(word + 1) + 1) == wrap16(word + 2),
{
}

/// The splitting and joining of words agree with the shift-and-mask forms in
/// which hardware manuals write them.
pub proof fn lemma_word_bit_forms(word: u16, lo: u8, hi: u8)
    by (bit_vector)
    ensures
        word % 256 == word & 0xFF,
        word / 256 == word >> 8,
        (hi as u16) * 256 + (lo as u16) == ((hi as u16) << 8) | (lo as u16),
{
}

} // verus!
