//! IEEE-754 single-precision numbers as the 32-bit words that encode them.
//!
//! Bit 31 is the sign, bits 23 to 30 the biased exponent, bits 0 to 22 the
//! significand. The predicates here read a word the way the number it encodes
//! compares; no arithmetic is done on words.
use vstd::prelude::*;

verus! {

/// The word of positive zero.
pub const ZERO: u32 = 0;

/// The word of the number one.
pub const ONE: u32 = 0x3F80_0000;

/// The word of positive infinity, the largest word that encodes a number
/// with a clear sign bit.
pub const INFINITY: u32 = 0x7F80_0000;

/// The sign bit alone: the word of negative zero.
pub const SIGN: u32 = 0x8000_0000;

/// The word encodes no number: its exponent is all ones and its significand
/// is not zero.
pub open spec fn is_nan(w: u32) -> bool {
    0x7F80_0000 < w < 0x8000_0000 || 0xFF80_0000 < w
}

/// The number that the word encodes is greater than zero. Zero of either
/// sign, negative numbers and words that encode no number are not.
pub open spec fn is_positive(w: u32) -> bool {
    0 < w <= 0x7F80_0000
}

/// The word encodes zero, of either sign.
pub open spec fn is_zero(w: u32) -> bool {
    w == 0 || w == 0x8000_0000
}

/// The numbers that the two words encode compare equal: neither word is
/// without a number, and they are the same word or both encode zero.
pub open spec fn same_number(a: u32, b: u32) -> bool {
    !is_nan(a) && !is_nan(b) && (a == b || (is_zero(a) && is_zero(b)))
}

/// Tells whether the number in `w` is greater than zero.
pub fn positive(w: u32) -> (r: bool)
    ensures
        r == is_positive(w),
{
    0 < w && w <= INFINITY
}

/// Tells whether `w` encodes no number.
pub fn nan(w: u32) -> (r: bool)
    ensures
        r == is_nan(w),
{
    (INFINITY < w && w < SIGN) || 0xFF80_0000 < w
}

/// Tells whether the numbers in `a` and `b` compare equal.
pub fn equal(a: u32, b: u32) -> (r: bool)
    ensures
        r == same_number(a, b),
{
    if nan(a) || nan(b) {
        false
    } else {
        a == b || ((a == ZERO || a == SIGN) && (b == ZERO || b == SIGN))
    }
}

} // verus!
