//! Numbers as the tree holds them.
//!
//! A number literal is a double-precision value, kept as the 64 bits of its
//! IEEE 754 encoding: one sign bit, eleven exponent bits, fifty-two fraction
//! bits. Every question the tree asks of a number is answered from those
//! bits.

use vstd::prelude::*;

verus! {

/// The sign bit of the encoding.
pub const SIGN_BIT: u64 = 0x8000_0000_0000_0000;

/// The encoding of positive infinity: every exponent bit set, no fraction bit.
pub const INFINITY_BITS: u64 = 0x7ff0_0000_0000_0000;

/// The encoding of the largest finite value.
pub const MAX_FINITE_BITS: u64 = 0x7fef_ffff_ffff_ffff;

/// The encoding with the sign bit cleared: that of the absolute value.
pub open spec fn magnitude_bits(bits: u64) -> u64 {
    if bits >= SIGN_BIT {
        (bits - SIGN_BIT) as u64
    } else {
        bits
    }
}

/// The encoding is not a number: exponent all ones and a fraction that is not
/// zero.
pub open spec fn is_nan(bits: u64) -> bool {
    magnitude_bits(bits) > INFINITY_BITS
}

/// The encoding is positive or negative infinity.
pub open spec fn is_infinite(bits: u64) -> bool {
    magnitude_bits(bits) == INFINITY_BITS
}

/// The sign bit is set.
pub open spec fn is_sign_negative(bits: u64) -> bool {
    bits >= SIGN_BIT
}

/// The encoding is positive or negative zero.
pub open spec fn is_zero(bits: u64) -> bool {
    magnitude_bits(bits) == 0
}

/// The value is at most zero. False of a value that is not a number.
pub open spec fn is_at_most_zero(bits: u64) -> bool {
    !is_nan(bits) && (is_sign_negative(bits) || is_zero(bits))
}

/// The encoding of the negated value: the sign bit flipped.
pub open spec fn negated(bits: u64) -> u64 {
    if bits >= SIGN_BIT {
        (bits - SIGN_BIT) as u64
    } else {
        (bits + SIGN_BIT) as u64
    }
}

/// The two values are equal as IEEE 754 compares them: neither is NaN, and
/// they have the same encoding or are both zero.
pub open spec fn ieee_eq(a: u64, b: u64) -> bool {
    !is_nan(a) && !is_nan(b) && (a == b || (is_zero(a) && is_zero(b)))
}

/// The value can stand as a timestamp: it is a number, finite, and neither
/// the largest nor the smallest finite value.
pub open spec fn is_timestamp(bits: u64) -> bool {
    !is_nan(bits) && !is_infinite(bits) && magnitude_bits(bits) != MAX_FINITE_BITS
}

fn magnitude(bits: u64) -> (r: u64)
    ensures
        r == magnitude_bits(bits),
{
    if bits >= SIGN_BIT {
        bits - SIGN_BIT
    } else {
        bits
    }
}

/// Whether the encoding is not a number.
pub fn bits_is_nan(bits: u64) -> (r: bool)
    ensures
        r == is_nan(bits),
{
    magnitude(bits) > INFINITY_BITS
}

/// Whether the encoding is positive or negative infinity.
pub fn bits_is_infinite(bits: u64) -> (r: bool)
    ensures
        r == is_infinite(bits),
{
    magnitude(bits) == INFINITY_BITS
}

/// Whether the sign bit is set.
pub fn bits_is_sign_negative(bits: u64) -> (r: bool)
    ensures
        r == is_sign_negative(bits),
{
    bits >= SIGN_BIT
}

/// Whether the value is at most zero.
pub fn bits_is_at_most_zero(bits: u64) -> (r: bool)
    ensures
        r == is_at_most_zero(bits),
{
    let m = magnitude(bits);
    m <= INFINITY_BITS && (bits >= SIGN_BIT || m == 0)
}

/// The encoding of the negated value.
pub fn bits_negated(bits: u64) -> (r: u64)
    ensures
        r == negated(bits),
        negated(r) == bits,
{
    if bits >= SIGN_BIT {
        bits - SIGN_BIT
    } else {
        bits + SIGN_BIT
    }
}

/// Whether the two values are equal as IEEE 754 compares them.
pub fn bits_ieee_eq(a: u64, b: u64) -> (r: bool)
    ensures
        r == ieee_eq(a, b),
{
    let ma = magnitude(a);
    let mb = magnitude(b);
    ma <= INFINITY_BITS && mb <= INFINITY_BITS && (a == b || (ma == 0 && mb == 0))
}

/// Whether the value can stand as a timestamp.
pub fn bits_is_timestamp(bits: u64) -> (r: bool)
    ensures
        r == is_timestamp(bits),
{
    magnitude(bits) < MAX_FINITE_BITS
}

/// Negating twice gives the number back, and negation keeps what kind of
/// number it is.
pub proof fn lemma_negated(bits: u64)
    ensures
        negated(negated(bits)) == bits,
        is_sign_negative(negated(bits)) == !is_sign_negative(bits),
        magnitude_bits(negated(bits)) == magnitude_bits(bits),
        is_nan(negated(bits)) == is_nan(bits),
        is_infinite(negated(bits)) == is_infinite(bits),
        is_timestamp(negated(bits)) == is_timestamp(bits),
{
}

} // verus!
