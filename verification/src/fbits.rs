//! Exact bit-level model of IEEE 754 binary64 scalars.
//!
//! A scalar is a `u64` holding the bit pattern of an `f64` (the patterns
//! that `f64::to_bits` and `f64::from_bits` exchange). Classification
//! (NaN, finite, zero) and the order that Rust's `f64` comparison
//! operators induce are pure functions of those bits, so they are defined
//! here as ordinary spec functions and implemented by verified bit
//! arithmetic: no floating-point instruction is involved.

use vstd::prelude::*;

verus! {

/// Mask of the sign bit of a binary64 pattern.
pub const SIGN_MASK: u64 = 0x8000000000000000;
/// Mask of the magnitude (exponent and mantissa) bits.
pub const MAG_MASK: u64 = 0x7FFFFFFFFFFFFFFF;
/// Magnitude of an infinity: all exponent bits set, mantissa zero.
/// A larger magnitude is a NaN, a smaller one a finite value.
pub const INF_MAG: u64 = 0x7FF0000000000000;
/// The bit pattern of `+0.0`.
pub const POS_ZERO: u64 = 0;
/// The bit pattern of `1.0`.
pub const F64_ONE: u64 = 0x3FF0000000000000;
/// The bit pattern of `2.0`.
pub const F64_TWO: u64 = 0x4000000000000000;
/// The bit pattern of `3.0`.
pub const F64_THREE: u64 = 0x4008000000000000;
/// The bit pattern of `4.0`.
pub const F64_FOUR: u64 = 0x4010000000000000;
/// The bit pattern of `0.1`.
pub const F64_TENTH: u64 = 0x3FB999999999999A;
/// The bit pattern of `0.8`.
pub const F64_EIGHT_TENTHS: u64 = 0x3FE999999999999A;
/// The bit pattern of `1.25`.
pub const F64_FIVE_QUARTERS: u64 = 0x3FF4000000000000;
/// The bit pattern of `0.3`.
pub const F64_THREE_TENTHS: u64 = 0x3FD3333333333333;
/// The bit pattern of `pi / 8`.
pub const F64_FRAC_PI_8: u64 = 0x3FD921FB54442D18;

/// The sign bit of `a` is set.
pub open spec fn sign_bit(a: u64) -> bool {
    a & SIGN_MASK == SIGN_MASK
}

/// The magnitude bits of `a`: the pattern with the sign cleared.
pub open spec fn mag(a: u64) -> u64 {
    a & MAG_MASK
}

/// `a` is the pattern of a NaN.
pub open spec fn is_nan_bits(a: u64) -> bool {
    mag(a) > INF_MAG
}

/// `a` is the pattern of a finite value (neither an infinity nor a NaN).
pub open spec fn is_finite_bits(a: u64) -> bool {
    mag(a) < INF_MAG
}

/// `a` is the pattern of `+0.0` or `-0.0`.
pub open spec fn is_zero_bits(a: u64) -> bool {
    mag(a) == 0
}

/// `x < y` for the f64 values `x`, `y` with patterns `a`, `b`: false when
/// either is a NaN, `-0.0` and `+0.0` are equal, and otherwise the values
/// are ordered by sign, then by magnitude.
pub open spec fn lt_bits(a: u64, b: u64) -> bool {
    if is_nan_bits(a) || is_nan_bits(b) {
        false
    } else if is_zero_bits(a) && is_zero_bits(b) {
        false
    } else if sign_bit(a) != sign_bit(b) {
        sign_bit(a)
    } else if !sign_bit(a) {
        mag(a) < mag(b)
    } else {
        mag(b) < mag(a)
    }
}

/// `x == y` for f64 values: never for a NaN, and `-0.0 == +0.0`.
pub open spec fn eq_bits(a: u64, b: u64) -> bool {
    &&& !is_nan_bits(a)
    &&& !is_nan_bits(b)
    &&& (a == b || (is_zero_bits(a) && is_zero_bits(b)))
}

/// `x <= y` for f64 values.
pub open spec fn le_bits(a: u64, b: u64) -> bool {
    lt_bits(a, b) || eq_bits(a, b)
}

/// The pattern of `-x` for the f64 `x` with pattern `a`: the sign bit flipped.
pub open spec fn neg_bits(a: u64) -> u64 {
    a ^ SIGN_MASK
}

/// The half-open interval test `lo <= v && v < hi` on f64 values, exactly as
/// `Range::<f64>::contains` decides it.
pub open spec fn in_range_bits(lo: u64, hi: u64, v: u64) -> bool {
    le_bits(lo, v) && lt_bits(v, hi)
}

/// The scale constants `1.0`, `2.0`, `3.0` and `4.0` are finite, positive,
/// nonzero patterns, and `1.0` is the least of them in the f64 order.
pub proof fn lemma_scale_consts()
    ensures
        is_finite_bits(F64_ONE) && !sign_bit(F64_ONE) && !is_zero_bits(F64_ONE),
        is_finite_bits(F64_TWO) && !sign_bit(F64_TWO) && !is_zero_bits(F64_TWO),
        is_finite_bits(F64_THREE) && !sign_bit(F64_THREE) && !is_zero_bits(F64_THREE),
        is_finite_bits(F64_FOUR) && !sign_bit(F64_FOUR) && !is_zero_bits(F64_FOUR),
        le_bits(F64_ONE, F64_TWO),
        le_bits(F64_ONE, F64_THREE),
{
    assert(0x3FF0000000000000u64 & 0x7FFFFFFFFFFFFFFFu64 == 0x3FF0000000000000u64) by (bit_vector);
    assert(0x3FF0000000000000u64 & 0x8000000000000000u64 == 0u64) by (bit_vector);
    assert(0x4000000000000000u64 & 0x7FFFFFFFFFFFFFFFu64 == 0x4000000000000000u64) by (bit_vector);
    assert(0x4000000000000000u64 & 0x8000000000000000u64 == 0u64) by (bit_vector);
    assert(0x4008000000000000u64 & 0x7FFFFFFFFFFFFFFFu64 == 0x4008000000000000u64) by (bit_vector);
    assert(0x4008000000000000u64 & 0x8000000000000000u64 == 0u64) by (bit_vector);
    assert(0x4010000000000000u64 & 0x7FFFFFFFFFFFFFFFu64 == 0x4010000000000000u64) by (bit_vector);
    assert(0x4010000000000000u64 & 0x8000000000000000u64 == 0u64) by (bit_vector);
}

/// The pattern `+0.0` is a zero.
pub proof fn lemma_pos_zero_is_zero()
    ensures
        is_zero_bits(POS_ZERO),
{
    assert(0u64 & 0x7FFFFFFFFFFFFFFFu64 == 0u64) by (bit_vector);
}

/// Executable sign-bit test.
pub fn f64_sign_bit(a: u64) -> (r: bool)
    ensures
        r == sign_bit(a),
{
    a & SIGN_MASK == SIGN_MASK
}

/// Executable magnitude extraction.
pub fn f64_mag(a: u64) -> (r: u64)
    ensures
        r == mag(a),
{
    a & MAG_MASK
}

/// Executable NaN test on a bit pattern.
pub fn f64_is_nan(a: u64) -> (r: bool)
    ensures
        r == is_nan_bits(a),
{
    f64_mag(a) > INF_MAG
}

/// Executable finiteness test on a bit pattern.
pub fn f64_is_finite(a: u64) -> (r: bool)
    ensures
        r == is_finite_bits(a),
{
    f64_mag(a) < INF_MAG
}

/// Executable zero test on a bit pattern.
pub fn f64_is_zero(a: u64) -> (r: bool)
    ensures
        r == is_zero_bits(a),
{
    f64_mag(a) == 0
}

/// Executable `<` on f64 bit patterns.
pub fn f64_lt(a: u64, b: u64) -> (r: bool)
    ensures
        r == lt_bits(a, b),
{
    if f64_is_nan(a) || f64_is_nan(b) {
        false
    } else if f64_is_zero(a) && f64_is_zero(b) {
        false
    } else if f64_sign_bit(a) != f64_sign_bit(b) {
        f64_sign_bit(a)
    } else if !f64_sign_bit(a) {
        f64_mag(a) < f64_mag(b)
    } else {
        f64_mag(b) < f64_mag(a)
    }
}

/// Executable `==` on f64 bit patterns (the f64 equality, not bit equality).
pub fn f64_eq(a: u64, b: u64) -> (r: bool)
    ensures
        r == eq_bits(a, b),
{
    !f64_is_nan(a) && !f64_is_nan(b) && (a == b || (f64_is_zero(a) && f64_is_zero(b)))
}

/// Executable `<=` on f64 bit patterns.
pub fn f64_le(a: u64, b: u64) -> (r: bool)
    ensures
        r == le_bits(a, b),
{
    f64_lt(a, b) || f64_eq(a, b)
}

/// Executable negation of a bit pattern: flips the sign bit, which is the
/// exact effect of `-x` on an `f64`.
pub fn f64_neg(a: u64) -> (r: u64)
    ensures
        r == neg_bits(a),
{
    a ^ SIGN_MASK
}

/// Executable half-open range membership `lo <= v && v < hi` on f64 values.
pub fn f64_in_range(lo: u64, hi: u64, v: u64) -> (r: bool)
    ensures
        r == in_range_bits(lo, hi, v),
{
    f64_le(lo, v) && f64_lt(v, hi)
}

} // verus!
