//! Binary-coded decimal, as the arithmetic instructions use it in decimal
//! mode: one decimal digit in each half of a byte.

use vstd::prelude::*;

verus! {

/// The number that a byte stands for when each of its halves is read as a
/// decimal digit. A half above 9 counts for its full value.
pub open spec fn bcd_value(byte: u8) -> int {
    (byte / 16) * 10 + byte % 16
}

/// The byte that holds the two decimal digits of `number`. A number of
/// 100 or more keeps its tens modulo 16.
#[verifier::opaque]
pub open spec fn bcd_digits(number: int) -> u8 {
    (((number / 10) % 16) * 16 + number % 10) as u8
}

/// The number behind two decimal digits.
pub fn bcd_to_hex(byte: u8) -> (number: u8)
    ensures
        number == bcd_value(byte),
{
    (byte / 16) * 10 + byte % 16
}

/// The two decimal digits of a number.
pub fn hex_to_bcd(number: u8) -> (byte: u8)
    ensures
        byte == bcd_digits(number as int),
{
    reveal(bcd_digits);
    ((number / 10) % 16) * 16 + number % 10
}

/// A number below 100 survives the trip through its digits.
pub proof fn lemma_bcd_round_trip(number: u8)
    requires
        number < 100,
    ensures
        bcd_value(bcd_digits(number as int)) == number,
{
    reveal(bcd_digits);
}

} // verus!
