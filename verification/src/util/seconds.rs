//! A number of seconds, given as a double-precision value, in whole
//! milliseconds.
//!
//! `millis_of_seconds` is what double-precision arithmetic makes of
//! `|secs| * 1000`, rounded to a whole number and brought into 64 bits. It is
//! stated over the integers: a finite double is a significand of at most 53
//! bits times a power of two, so its product with 1000 is an integer times a
//! power of two; the multiplication keeps 53 significant bits of it, rounding
//! to nearest with ties to even, and the rounding to a whole number goes to
//! nearest with ties away from zero.

use crate::util::number::is_nan;
use crate::util::number::magnitude_bits;
use crate::util::number::INFINITY_BITS;
use crate::util::number::SIGN_BIT;
use vstd::arithmetic::div_mod::lemma_basic_div;
use vstd::arithmetic::div_mod::lemma_div_nonincreasing;
use vstd::arithmetic::div_mod::lemma_small_mod;
use vstd::prelude::*;

verus! {

/// Two to the power `k`.
pub open spec fn two_to(k: nat) -> nat
    decreases k,
{
    if k == 0 {
        1
    } else {
        2 * two_to((k - 1) as nat)
    }
}

/// The number of binary digits of `n`; none for zero.
pub open spec fn bit_width(n: nat) -> nat
    decreases n,
{
    if n == 0 {
        0
    } else {
        1 + bit_width(n / 2)
    }
}

/// `n / 2^k`, rounded to the nearest whole number; a tie goes to the even
/// neighbour.
pub open spec fn div_ties_even(n: nat, k: nat) -> nat {
    let quotient = n / two_to(k);
    let rest = n % two_to(k);
    if 2 * rest > two_to(k) || (2 * rest == two_to(k) && quotient % 2 == 1) {
        quotient + 1
    } else {
        quotient
    }
}

/// `n / 2^k`, rounded to the nearest whole number; a tie goes up.
pub open spec fn div_ties_away(n: nat, k: nat) -> nat {
    let quotient = n / two_to(k);
    let rest = n % two_to(k);
    if 2 * rest >= two_to(k) {
        quotient + 1
    } else {
        quotient
    }
}

/// Two to the power 52: one more than the largest fraction field.
pub const FRACTION_UNIT: u64 = 0x10_0000_0000_0000;

/// The significand of the encoded value, as an integer: the fraction field,
/// with the hidden bit before it unless the exponent field is zero.
pub open spec fn significand(bits: u64) -> nat {
    let fraction = magnitude_bits(bits) % FRACTION_UNIT;
    if magnitude_bits(bits) / FRACTION_UNIT == 0 {
        fraction as nat
    } else {
        (FRACTION_UNIT + fraction) as nat
    }
}

/// The power of two that scales the significand: the absolute value encoded
/// is `significand * 2^exponent`.
pub open spec fn exponent(bits: u64) -> int {
    let field = magnitude_bits(bits) / FRACTION_UNIT;
    if field == 0 {
        -1074
    } else {
        field - 1075
    }
}

/// The significant bits that a double-precision result keeps.
pub const PRECISION: u64 = 53;

/// The whole milliseconds in the absolute value of a number of seconds:
/// `|secs| * 1000` as double-precision arithmetic computes it, rounded to a
/// whole number, and `u64::MAX` where that exceeds 64 bits. Zero for a value
/// that is not a number.
pub open spec fn millis_of_seconds(bits: u64) -> u64 {
    if is_nan(bits) {
        0
    } else {
        let product = 1000 * significand(bits);
        let dropped = if bit_width(product) > PRECISION {
            (bit_width(product) - PRECISION) as nat
        } else {
            0
        };
        let kept = div_ties_even(product, dropped);
        let scale = exponent(bits) + dropped;
        let whole = if scale >= 0 {
            kept * two_to(scale as nat)
        } else {
            div_ties_away(kept, (-scale) as nat)
        };
        if whole > u64::MAX {
            u64::MAX
        } else {
            whole as u64
        }
    }
}

proof fn lemma_two_to_grows(a: nat, b: nat)
    requires
        a <= b,
    ensures
        0 < two_to(a) <= two_to(b),
    decreases b,
{
    if a < b {
        lemma_two_to_grows(a, (b - 1) as nat);
    } else if a > 0 {
        lemma_two_to_grows((a - 1) as nat, (a - 1) as nat);
    }
}

proof fn lemma_two_to_values()
    ensures
        two_to(16) == 0x1_0000,
        two_to(32) == 0x1_0000_0000,
        two_to(48) == 0x1_0000_0000_0000,
        two_to(63) == 0x8000_0000_0000_0000,
        two_to(64) == 0x1_0000_0000_0000_0000,
        two_to(65) == 0x2_0000_0000_0000_0000,
{
    assert(two_to(16) == 0x1_0000) by {
        reveal_with_fuel(two_to, 17);
    }
    assert(two_to(32) == 0x1_0000 * two_to(16)) by {
        reveal_with_fuel(two_to, 17);
    }
    assert(two_to(48) == 0x1_0000 * two_to(32)) by {
        reveal_with_fuel(two_to, 17);
    }
    assert(two_to(63) == 0x8000 * two_to(48)) by {
        reveal_with_fuel(two_to, 16);
    }
    assert(two_to(65) == 4 * two_to(63)) by {
        reveal_with_fuel(two_to, 3);
    }
}

proof fn lemma_bit_width_bounds(n: nat)
    requires
        n > 0,
    ensures
        bit_width(n) > 0,
        two_to((bit_width(n) - 1) as nat) <= n < two_to(bit_width(n)),
    decreases n,
{
    if n >= 2 {
        lemma_bit_width_bounds(n / 2);
    } else {
        reveal_with_fuel(bit_width, 3);
        reveal_with_fuel(two_to, 3);
    }
}

fn power_of_two(k: u64) -> (r: u128)
    requires
        k <= 64,
    ensures
        r == two_to(k as nat),
        0 < r <= 0x1_0000_0000_0000_0000,
{
    let mut r: u128 = 1;
    let mut i: u64 = 0;
    proof {
        lemma_two_to_values();
    }
    while i < k
        invariant
            i <= k <= 64,
            r == two_to(i as nat),
            two_to(64) == 0x1_0000_0000_0000_0000,
        decreases k - i,
    {
        proof {
            lemma_two_to_grows((i + 1) as nat, 64);
        }
        r = r * 2;
        i += 1;
    }
    proof {
        lemma_two_to_grows(k as nat, 64);
    }
    r
}

fn width(n: u64) -> (w: u64)
    ensures
        w == bit_width(n as nat),
{
    let mut w: u64 = 0;
    let mut rest: u64 = n;
    while rest > 0
        invariant
            bit_width(n as nat) == w + bit_width(rest as nat),
            w + rest <= n,
        decreases rest,
    {
        rest = rest / 2;
        w += 1;
    }
    w
}

fn saturate(whole: u128) -> (r: u64)
    ensures
        r == if whole > u64::MAX {
            u64::MAX
        } else {
            whole as u64
        },
{
    if whole > u64::MAX as u128 {
        u64::MAX
    } else {
        whole as u64
    }
}

/// The whole milliseconds in the absolute value of a number of seconds.
pub fn bits_millis_of_seconds(bits: u64) -> (r: u64)
    ensures
        r == millis_of_seconds(bits),
{
    let magnitude = if bits >= SIGN_BIT {
        bits - SIGN_BIT
    } else {
        bits
    };
    if magnitude > INFINITY_BITS {
        return 0;
    }
    let field: u64 = magnitude / FRACTION_UNIT;
    let fraction: u64 = magnitude % FRACTION_UNIT;
    let significand: u64 = if field == 0 {
        fraction
    } else {
        FRACTION_UNIT + fraction
    };
    let product: u64 = 1000 * significand;
    let digits = width(product);
    proof {
        lemma_two_to_values();
        if product > 0 {
            lemma_bit_width_bounds(product as nat);
            if digits >= 64 {
                lemma_two_to_grows(63, (digits - 1) as nat);
            }
        }
    }
    let dropped: u64 = if digits > PRECISION {
        digits - PRECISION
    } else {
        0
    };
    let unit = power_of_two(dropped);
    let quotient = product as u128 / unit;
    let rest = product as u128 % unit;
    let kept: u128 = if 2 * rest > unit || (2 * rest == unit && quotient % 2 == 1) {
        quotient + 1
    } else {
        quotient
    };
    proof {
        lemma_div_nonincreasing(product as int, unit as int);
    }
    if field != 0 && field + dropped >= 1075 {
        let scale: u64 = field + dropped - 1075;
        if kept == 0 {
            proof {
                let factor = two_to(scale as nat);
                assert(kept * factor == 0) by (nonlinear_arith)
                    requires
                        kept == 0,
                ;
            }
            0
        } else if scale >= 64 {
            proof {
                lemma_two_to_grows(64, scale as nat);
                let factor = two_to(scale as nat);
                assert(kept * factor >= factor) by (nonlinear_arith)
                    requires
                        kept >= 1,
                        factor >= 0,
                ;
            }
            u64::MAX
        } else {
            let factor = power_of_two(scale);
            proof {
                lemma_two_to_grows(scale as nat, 63);
                assert(kept * factor <= 0x8000_0000_0000_0000 * 0x8000_0000_0000_0000)
                    by (nonlinear_arith)
                    requires
                        kept <= 0x8000_0000_0000_0000,
                        factor <= 0x8000_0000_0000_0000,
                ;
            }
            saturate(kept * factor)
        }
    } else {
        let shift: u64 = if field == 0 {
            1074 - dropped
        } else {
            1075 - field - dropped
        };
        if shift > 64 {
            proof {
                lemma_two_to_grows(65, shift as nat);
                let unit = two_to(shift as nat);
                lemma_basic_div(kept as int, unit as int);
                lemma_small_mod(kept as nat, unit);
            }
            0
        } else {
            let unit = power_of_two(shift);
            let quotient = kept / unit;
            let rest = kept % unit;
            let whole = if 2 * rest >= unit {
                quotient + 1
            } else {
                quotient
            };
            saturate(whole)
        }
    }
}

} // verus!
