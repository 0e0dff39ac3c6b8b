//! Trusted primitives for IEEE 754 binary64 arithmetic on bit patterns.
//!
//! Verus has no model of floating-point arithmetic, so each basic operation
//! is performed by a small trusted function whose result the contracts refer
//! to through an uninterpreted name: `add_of(a, b)` is, by definition, the
//! bit pattern that Rust's `f64` addition produces on the patterns `a` and
//! `b`. Those operations are deterministic, bit-exact functions of their
//! argument bits on every conforming platform, which is what naming them
//! claims. Beside each name stand only the few facts of IEEE 754 round-to-
//! nearest arithmetic that callers in this crate need.

use core::primitive::f64 as Fbin;
use vstd::prelude::*;

use crate::fbits::is_finite_bits;
use crate::fbits::is_nan_bits;
use crate::fbits::is_zero_bits;
use crate::fbits::le_bits;
use crate::fbits::lt_bits;
use crate::fbits::neg_bits;
use crate::fbits::F64_ONE;
use crate::fbits::sign_bit;
use crate::fbits::POS_ZERO;

verus! {

/// The pattern of the sum of the values with patterns `a` and `b`.
pub uninterp spec fn add_of(a: u64, b: u64) -> u64;

/// The pattern of the difference of the values with patterns `a` and `b`.
pub uninterp spec fn sub_of(a: u64, b: u64) -> u64;

/// The pattern of the product of the values with patterns `a` and `b`.
pub uninterp spec fn mul_of(a: u64, b: u64) -> u64;

/// The pattern of the quotient of the values with patterns `a` and `b`.
pub uninterp spec fn div_of(a: u64, b: u64) -> u64;

/// The pattern of the value with pattern `a` rounded to the nearest
/// integer, ties away from zero (`f64::round`).
pub uninterp spec fn round_of(a: u64) -> u64;

/// The `i32` that the saturating cast `as i32` yields on the value with
/// pattern `a`.
pub uninterp spec fn cast_i32_of(a: u64) -> i32;

/// Relies on Rust's `f64` addition (IEEE 754 binary64, round to nearest):
/// the result is a bit-exact function of the argument bits, and a finite
/// value plus its own negation is exactly `+0.0`.
#[verifier::external_body]
pub(crate) fn f64_add(a: u64, b: u64) -> (r: u64)
    ensures
        r == add_of(a, b),
        is_finite_bits(a) && b == neg_bits(a) ==> r == POS_ZERO,
{
    (Fbin::from_bits(a) + Fbin::from_bits(b)).to_bits()
}

/// Relies on Rust's `f64` subtraction, computing `a - b`: the result is a
/// bit-exact function of the argument bits; for finite `b < a` the exact
/// difference `a - b` is positive and at least the smallest subnormal, so
/// the rounded result is positive (possibly `+inf`), never a zero or a NaN.
#[verifier::external_body]
pub(crate) fn f64_sub(a: u64, b: u64) -> (r: u64)
    ensures
        r == sub_of(a, b),
        is_finite_bits(a) && is_finite_bits(b) && lt_bits(b, a) ==> !is_nan_bits(r)
            && !sign_bit(r) && !is_zero_bits(r),
{
    (Fbin::from_bits(a) - Fbin::from_bits(b)).to_bits()
}

/// Relies on Rust's `f64` multiplication: the result is a bit-exact
/// function of the argument bits; a product with a zero factor is a zero
/// for a finite co-factor and a NaN for an infinite or NaN one.
#[verifier::external_body]
pub(crate) fn f64_mul(a: u64, b: u64) -> (r: u64)
    ensures
        r == mul_of(a, b),
        is_zero_bits(b) ==> is_zero_bits(r) || is_nan_bits(r),
{
    (Fbin::from_bits(a) * Fbin::from_bits(b)).to_bits()
}

/// Relies on Rust's `f64` division: the result is a bit-exact function of
/// the argument bits; a NaN arises only from `0/0`, `inf/inf` or a NaN
/// operand, so a non-negative numerator over a positive finite nonzero
/// denominator is non-negative and non-NaN; `+0.0` over such a
/// denominator is exactly `+0.0`; and division of a finite non-negative
/// value by a finite divisor of at least `1.0` cannot grow its magnitude,
/// so the result stays finite and non-negative.
#[verifier::external_body]
pub(crate) fn f64_div(a: u64, b: u64) -> (r: u64)
    ensures
        r == div_of(a, b),
        !is_nan_bits(a) && !sign_bit(a) && !sign_bit(b) && is_finite_bits(b) && !is_zero_bits(b)
            ==> !is_nan_bits(r) && !sign_bit(r),
        a == POS_ZERO && !sign_bit(b) && is_finite_bits(b) && !is_zero_bits(b) ==> r == POS_ZERO,
        is_finite_bits(a) && !sign_bit(a) && is_finite_bits(b) && le_bits(F64_ONE, b)
            ==> is_finite_bits(r) && !sign_bit(r),
{
    (Fbin::from_bits(a) / Fbin::from_bits(b)).to_bits()
}

/// Relies on `f64::round`: the result is a bit-exact function of the
/// argument bits; a zero rounds to a zero and a NaN stays a NaN.
#[verifier::external_body]
pub(crate) fn f64_round(a: u64) -> (r: u64)
    ensures
        r == round_of(a),
        is_zero_bits(a) ==> is_zero_bits(r),
        is_nan_bits(a) ==> is_nan_bits(r),
{
    Fbin::from_bits(a).round().to_bits()
}

/// Relies on Rust's saturating `as i32` cast on `f64`: the result is a
/// bit-exact function of the argument bits; a zero and a NaN both cast
/// to `0`.
#[verifier::external_body]
pub(crate) fn f64_cast_i32(a: u64) -> (r: i32)
    ensures
        r == cast_i32_of(a),
        is_zero_bits(a) || is_nan_bits(a) ==> r == 0,
{
    Fbin::from_bits(a) as i32
}

} // verus!
