//! Root-window pointer coordinates.
//!
//! Pointer positions are IEEE 754 binary64 values. They are taken as their bit
//! patterns, so that rounding and range are decided in integer arithmetic.

use vstd::prelude::*;

verus! {

/// The biased exponent field of a binary64 bit pattern.
pub open spec fn exponent_field(bits: u64) -> nat {
    ((bits / 0x10_0000_0000_0000) % 0x800) as nat
}

/// The fraction field of a binary64 bit pattern.
pub open spec fn fraction_field(bits: u64) -> nat {
    (bits % 0x10_0000_0000_0000) as nat
}

/// The value is neither infinite nor a NaN.
pub open spec fn is_finite(bits: u64) -> bool {
    exponent_field(bits) != 0x7ff
}

/// The sign bit is set.
pub open spec fn is_negative(bits: u64) -> bool {
    bits >= 0x8000_0000_0000_0000
}

/// The significand of a finite value, as an integer.
pub open spec fn significand(bits: u64) -> nat {
    if exponent_field(bits) == 0 {
        fraction_field(bits)
    } else {
        0x10_0000_0000_0000 + fraction_field(bits)
    }
}

/// The power of two that scales the significand of a finite value: the value's
/// magnitude is `significand * 2^scale`.
pub open spec fn scale(bits: u64) -> int {
    if exponent_field(bits) == 0 {
        -1074
    } else {
        exponent_field(bits) - 1075
    }
}

/// The magnitude of a finite value rounded to the nearest integer, halves up:
/// the integral part of `magnitude + 1/2`.
pub open spec fn rounded_magnitude(bits: u64) -> nat {
    if scale(bits) >= 0 {
        significand(bits) * vstd::arithmetic::power2::pow2(scale(bits) as nat)
    } else {
        (significand(bits) + vstd::arithmetic::power2::pow2((-scale(bits) - 1) as nat)) / vstd::arithmetic::power2::pow2((-scale(bits)) as nat)
    }
}

/// A finite value rounded to the nearest integer, halves away from zero.
pub open spec fn rounded(bits: u64) -> int {
    if is_negative(bits) {
        -rounded_magnitude(bits)
    } else {
        rounded_magnitude(bits) as int
    }
}

/// `n` is a signed 16-bit coordinate.
pub open spec fn fits_coordinate(n: int) -> bool {
    i16::MIN <= n <= i16::MAX
}

fn coordinate(bits: u64) -> (res: Option<i16>)
    ensures
        res is Some <==> is_finite(bits) && fits_coordinate(rounded(bits)),
        res matches Some(n) ==> n == rounded(bits),
{
    let exponent: u64 = (bits / 0x10_0000_0000_0000) % 0x800;
    let fraction: u64 = bits % 0x10_0000_0000_0000;
    if exponent == 0x7ff {
        return None;
    }
    let significand: u64 = if exponent == 0 {
        fraction
    } else {
        0x10_0000_0000_0000 + fraction
    };
    if exponent >= 1075 {
        // No fractional bits are left, and the magnitude is at least 2^52.
        proof {
            vstd::arithmetic::power2::lemma_pow2_pos(scale(bits) as nat);
            assert(rounded_magnitude(bits) >= 0x10_0000_0000_0000) by (nonlinear_arith)
                requires
                    rounded_magnitude(bits) == significand as nat * vstd::arithmetic::power2::pow2(scale(bits) as nat),
                    significand >= 0x10_0000_0000_0000,
                    vstd::arithmetic::power2::pow2(scale(bits) as nat) >= 1,
            ;
        }
        return None;
    }
    let magnitude: u64 = if exponent < 1022 {
        // The magnitude is below one half.
        proof {
            let k = (-scale(bits)) as nat;
            vstd::arithmetic::power2::lemma_pow2_unfold(k);
            vstd::arithmetic::power2::lemma2_to64_rest();
            if k - 1 > 53 {
                vstd::arithmetic::power2::lemma_pow2_strictly_increases(53, (k - 1) as nat);
            }
            let half = vstd::arithmetic::power2::pow2((k - 1) as nat);
            assert((significand as nat + half) / vstd::arithmetic::power2::pow2(k) == 0) by (nonlinear_arith)
                requires
                    significand as nat + half < vstd::arithmetic::power2::pow2(k),
                    vstd::arithmetic::power2::pow2(k) > 0,
            ;
        }
        0
    } else {
        let shift: u64 = 1075 - exponent;
        proof {
            vstd::bits::lemma_u64_pow2_no_overflow((shift - 1) as nat);
            vstd::bits::lemma_u64_shl_is_mul(1, (shift - 1) as u64);
            vstd::arithmetic::power2::lemma2_to64_rest();
            if shift < 53 {
                vstd::arithmetic::power2::lemma_pow2_strictly_increases((shift - 1) as nat, 52);
            }
            vstd::bits::lemma_u64_shr_is_div(
                (significand + vstd::arithmetic::power2::pow2((shift - 1) as nat)) as u64,
                shift,
            );
        }
        let half: u64 = 1u64 << (shift - 1);
        (significand + half) >> shift
    };
    let negative = bits >= 0x8000_0000_0000_0000;
    if negative {
        if magnitude <= 32768 {
            Some((-(magnitude as i64)) as i16)
        } else {
            None
        }
    } else if magnitude <= 32767 {
        Some(magnitude as i16)
    } else {
        None
    }
}

/// Core XTEST coordinates are signed 16-bit root-screen pixels. Falling back is
/// preferable to wrapping a large desktop coordinate onto another output.
///
/// `position` holds the binary64 bit patterns of the two coordinates.
pub fn root_pointer_coordinates(position: (u64, u64)) -> (res: Option<(i16, i16)>)
    ensures
        res is Some <==> {
            &&& is_finite(position.0)
            &&& is_finite(position.1)
            &&& fits_coordinate(rounded(position.0))
            &&& fits_coordinate(rounded(position.1))
        },
        res matches Some((x, y)) ==> x == rounded(position.0) && y == rounded(position.1),
{
    match (coordinate(position.0), coordinate(position.1)) {
        (Some(x), Some(y)) => Some((x, y)),
        _ => None,
    }
}

/// Rounding is to a nearest integer: the rounded magnitude is off by at most one
/// half, and by one half only upwards. Both sides are scaled by the denominator
/// of the magnitude.
pub proof fn rounding_is_to_nearest(bits: u64)
    requires
        scale(bits) < 0,
    ensures
        ({
            let denominator = vstd::arithmetic::power2::pow2((-scale(bits)) as nat);
            let error = denominator * rounded_magnitude(bits) - significand(bits);
            -denominator < 2 * error <= denominator
        }),
{
    let k = (-scale(bits)) as nat;
    let denominator = vstd::arithmetic::power2::pow2(k);
    let half = vstd::arithmetic::power2::pow2((k - 1) as nat);
    vstd::arithmetic::power2::lemma_pow2_unfold(k);
    vstd::arithmetic::power2::lemma_pow2_pos(k);
    let sum = (significand(bits) + half) as int;
    vstd::arithmetic::div_mod::lemma_fundamental_div_mod(sum, denominator as int);
    vstd::arithmetic::div_mod::lemma_mod_bound(sum, denominator as int);
}

/// A magnitude without fractional bits is left alone by rounding.
pub proof fn integers_round_to_themselves(bits: u64, n: nat)
    requires
        scale(bits) < 0,
        significand(bits) == n * vstd::arithmetic::power2::pow2((-scale(bits)) as nat),
    ensures
        rounded_magnitude(bits) == n,
{
    let k = (-scale(bits)) as nat;
    let denominator = vstd::arithmetic::power2::pow2(k) as int;
    let half = vstd::arithmetic::power2::pow2((k - 1) as nat) as int;
    vstd::arithmetic::power2::lemma_pow2_unfold(k);
    vstd::arithmetic::power2::lemma_pow2_pos((k - 1) as nat);
    vstd::arithmetic::div_mod::lemma_fundamental_div_mod_converse(
        n * denominator + half,
        denominator,
        n as int,
        half,
    );
}

/// Rounding does not depend on the sign: a value and its opposite round to
/// opposite integers, and are finite together.
pub proof fn opposite_values_round_to_opposite_integers(bits: u64)
    requires
        bits < 0x8000_0000_0000_0000,
    ensures
        ({
            let opposite = (bits + 0x8000_0000_0000_0000) as u64;
            &&& rounded(bits) >= 0
            &&& rounded(opposite) == -rounded(bits)
            &&& is_finite(opposite) <==> is_finite(bits)
        }),
{
}

/// A pattern stands for its fields: a value is finite unless all bits of its
/// exponent are set, and its significand has the implicit bit unless all of them
/// are clear. Sign, exponent and fraction make up the pattern.
pub proof fn patterns_are_sign_exponent_and_fraction(bits: u64)
    ensures
        bits == (if is_negative(bits) {
            0x8000_0000_0000_0000int
        } else {
            0
        }) + 0x10_0000_0000_0000 * exponent_field(bits) + fraction_field(bits),
        exponent_field(bits) <= 2047,
        fraction_field(bits) < 0x10_0000_0000_0000,
        is_finite(bits) <==> exponent_field(bits) < 2047,
        exponent_field(bits) > 0 ==> significand(bits) == 0x10_0000_0000_0000 + fraction_field(bits)
            && scale(bits) + 1075 == exponent_field(bits),
        exponent_field(bits) == 0 ==> significand(bits) == fraction_field(bits) && scale(bits)
            + 1074 == 0,
{
}

/// Coordinates are those of a signed 16-bit number, no more and no less.
pub proof fn coordinates_do_not_wrap(n: int)
    ensures
        fits_coordinate(n) <==> -32768 <= n <= 32767,
        fits_coordinate(n) ==> n as i16 == n,
{
}

} // verus!
