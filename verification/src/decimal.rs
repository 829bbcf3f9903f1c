//! Fixed-point decimal amounts.
//!
//! Every token quantity in this crate is a [`Decimal`]: an `i128` count of
//! micro-units, one millionth of a whole token. The cap percentage is a
//! `Decimal` as well, with `1.0` represented by [`SCALE`]. Multiplication
//! and division of decimals round toward zero.

use vstd::prelude::*;

verus! {

/// Micro-units per whole token; also the fixed-point representation of `1.0`.
pub const SCALE: i128 = 1_000_000;

/// Largest magnitude, in micro-units, accepted for the total supply, the
/// aggregated non-circulating amount, the initially vested amount and the
/// reserve balance. Equals 10^19 whole tokens; chosen so that every
/// intermediate of the cap formula fits in an `i128`.
pub const MAX_MAG: i128 = 10_000_000_000_000_000_000_000_000;

/// Largest magnitude, in micro-units, accepted for a single external pool
/// read. [`MAX_CALLS`] reads of this size sum to at most [`MAX_MAG`].
pub const MAX_READ_MAG: i128 = 10_000_000_000_000_000_000_000;

/// Largest number of registered pool descriptors.
pub const MAX_CALLS: usize = 1000;

/// Bound on the magnitude of the cumulative unvested total. Wide enough to
/// hold any value the cap formula can produce from in-range inputs.
pub const UNVESTED_MAG: i128 = 100_000_000_000_000_000_000_000_000_000_000;

/// Integer division rounding toward zero, defined for a positive divisor.
/// This is the rounding used when decimals are multiplied or divided.
pub open spec fn div_towards_zero(a: int, b: int) -> int {
    if a >= 0 {
        a / b
    } else {
        -((-a) / b)
    }
}

/// `div_towards_zero` never grows the magnitude of its dividend when the
/// divisor is at least one, and it preserves the dividend's sign.
pub proof fn lemma_div_towards_zero_bounds(a: int, b: int)
    requires
        b >= 1,
    ensures
        a >= 0 ==> 0 <= div_towards_zero(a, b) <= a,
        a < 0 ==> a <= div_towards_zero(a, b) <= 0,
{
    if a >= 0 {
        vstd::arithmetic::div_mod::lemma_div_pos_is_pos(a, b);
        vstd::arithmetic::div_mod::lemma_div_nonincreasing(a, b);
    } else {
        vstd::arithmetic::div_mod::lemma_div_pos_is_pos(-a, b);
        vstd::arithmetic::div_mod::lemma_div_nonincreasing(-a, b);
    }
}

/// A product of a factor in `[0, xb]` and a factor in `[-yb, yb]` lies in
/// `[-(xb * yb), xb * yb]`.
pub proof fn lemma_mul_magnitude(x: int, xb: int, y: int, yb: int)
    requires
        0 <= x <= xb,
        -yb <= y <= yb,
        0 <= yb,
    ensures
        -(xb * yb) <= x * y <= xb * yb,
{
    if y >= 0 {
        vstd::arithmetic::mul::lemma_mul_upper_bound(x, xb, y, yb);
        vstd::arithmetic::mul::lemma_mul_nonnegative(x, y);
    } else {
        vstd::arithmetic::mul::lemma_mul_upper_bound(x, xb, -y, yb);
        vstd::arithmetic::mul::lemma_mul_nonnegative(x, -y);
        vstd::arithmetic::mul::lemma_mul_unary_negation(x, y);
    }
}

/// A dividend bounded by `m * b` divides (toward zero, by `b`) to a
/// quotient bounded by `m`.
pub proof fn lemma_div_towards_zero_scaled(a: int, m: int, b: int)
    requires
        b >= 1,
        0 <= m,
        -(m * b) <= a <= m * b,
    ensures
        -m <= div_towards_zero(a, b) <= m,
{
    vstd::arithmetic::div_mod::lemma_div_by_multiple(m, b);
    if a >= 0 {
        vstd::arithmetic::div_mod::lemma_div_is_ordered(a, m * b, b);
        vstd::arithmetic::div_mod::lemma_div_pos_is_pos(a, b);
    } else {
        vstd::arithmetic::div_mod::lemma_div_is_ordered(-a, m * b, b);
        vstd::arithmetic::div_mod::lemma_div_pos_is_pos(-a, b);
    }
}

/// Truncating division on machine integers, for a positive divisor.
pub fn div_trunc(a: i128, b: i128) -> (r: i128)
    requires
        b > 0,
        a > i128::MIN,
    ensures
        r == div_towards_zero(a as int, b as int),
        a >= 0 ==> 0 <= r <= a,
        a < 0 ==> a <= r <= 0,
{
    proof {
        lemma_div_towards_zero_bounds(a as int, b as int);
    }
    if a >= 0 {
        let q: u128 = (a as u128) / (b as u128);
        q as i128
    } else {
        let neg: i128 = -a;
        let m: u128 = (neg as u128) / (b as u128);
        -(m as i128)
    }
}

/// A fixed-point decimal: `micro` micro-units, i.e. the value
/// `micro / SCALE` in whole tokens.
#[derive(Clone, Copy, PartialEq, Eq, Structural, Debug)]
pub struct Decimal {
    pub micro: i128,
}

impl Decimal {
    /// The zero amount.
    pub fn zero() -> (r: Decimal)
        ensures
            r.micro == 0,
    {
        Decimal { micro: 0 }
    }

    /// The amount of `micro` micro-units.
    pub fn from_micro(micro: i128) -> (r: Decimal)
        ensures
            r.micro == micro,
    {
        Decimal { micro }
    }

    /// The amount of `units` whole tokens.
    pub fn from_units(units: i64) -> (r: Decimal)
        ensures
            r.micro == units * SCALE,
    {
        Decimal { micro: (units as i128) * SCALE }
    }
}

} // verus!
