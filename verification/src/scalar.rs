//! IEEE-754 binary32 scalar kernels over raw bit patterns.
//!
//! Every scalar lane in this crate is carried as the `u32` bit pattern of an
//! IEEE-754 binary32 value: the patterns are exactly the lane content that an
//! exchange with GPU code carries. Arithmetic on the encoded values is done by
//! `const_soft_float`, a software implementation of IEEE-754 single-precision
//! arithmetic whose result bits depend on the operand bits alone, on every
//! machine. The results of the four arithmetic operations and of the square
//! root are given names here (`add_bits` and so on); the contracts of the
//! vector kernels are stated over those names.

use vstd::prelude::*;
use const_soft_float::soft_f32::SoftF32;

verus! {

/// Bit pattern of the value 1.0.
pub const ONE_BITS: u32 = 0x3F80_0000;

/// Bit pattern of the value 3.0.
pub const THREE_BITS: u32 = 0x4040_0000;

/// Bit pattern of the value 0.5.
pub const HALF_BITS: u32 = 0x3F00_0000;

/// Every bit set except the sign bit: the lane mask that the absolute-value
/// kernel selects through.
pub const ABS_MASK_BITS: u32 = 0x7FFF_FFFF;

/// The bits of the IEEE-754 binary32 sum of the values encoded by `a` and `b`,
/// rounded to nearest, ties to even.
pub uninterp spec fn add_bits(a: u32, b: u32) -> u32;

/// The bits of the IEEE-754 binary32 difference of the values encoded by `a`
/// and `b`, rounded to nearest, ties to even.
pub uninterp spec fn sub_bits(a: u32, b: u32) -> u32;

/// The bits of the IEEE-754 binary32 product of the values encoded by `a` and
/// `b`, rounded to nearest, ties to even.
pub uninterp spec fn mul_bits(a: u32, b: u32) -> u32;

/// The bits of the IEEE-754 binary32 quotient of the values encoded by `a`
/// and `b`, rounded to nearest, ties to even.
pub uninterp spec fn div_bits(a: u32, b: u32) -> u32;

/// The bits of the correctly rounded IEEE-754 binary32 square root of the
/// value encoded by `a`.
pub uninterp spec fn sqrt_bits(a: u32) -> u32;

/// Whether `a` encodes a NaN: biased exponent all ones and a nonzero
/// significand, that is, a magnitude above the infinity pattern.
pub open spec fn is_nan_bits(a: u32) -> bool {
    a & ABS_MASK_BITS > 0x7F80_0000
}

/// The bits of the IEEE-754 absolute value of the value encoded by `a`:
/// the sign bit cleared, every other bit kept.
pub open spec fn abs_bits(a: u32) -> u32 {
    a & ABS_MASK_BITS
}

/// Whether `a` and `b` encode IEEE-754-equal values: neither is a NaN — a
/// NaN equals nothing, itself included — and the patterns are the same or
/// both encode a zero (positive and negative zero are equal).
pub open spec fn lane_eq_bits(a: u32, b: u32) -> bool {
    !is_nan_bits(a) && !is_nan_bits(b) && (a == b || (abs_bits(a) | abs_bits(b)) == 0)
}

/// Decides IEEE-754 equality of two encoded lanes ([`lane_eq_bits`]).
pub(crate) fn lane_eq(a: u32, b: u32) -> (r: bool)
    ensures
        r == lane_eq_bits(a, b),
{
    let a_abs = a & ABS_MASK_BITS;
    let b_abs = b & ABS_MASK_BITS;
    a_abs <= 0x7F80_0000 && b_abs <= 0x7F80_0000 && (a == b || (a_abs | b_abs) == 0)
}

/// Relies on `const_soft_float::soft_f32::SoftF32::add`: IEEE-754 binary32
/// addition, round to nearest even; its result bits are a function of the
/// operand bits alone.
#[verifier::external_body]
pub(crate) fn soft_add(a: u32, b: u32) -> (r: u32)
    ensures
        r == add_bits(a, b),
{
    SoftF32::from_bits(a).add(SoftF32::from_bits(b)).to_bits()
}

/// Relies on `const_soft_float::soft_f32::SoftF32::sub`: IEEE-754 binary32
/// subtraction (addition of the negated right operand), round to nearest
/// even; its result bits are a function of the operand bits alone.
#[verifier::external_body]
pub(crate) fn soft_sub(a: u32, b: u32) -> (r: u32)
    ensures
        r == sub_bits(a, b),
{
    SoftF32::from_bits(a).sub(SoftF32::from_bits(b)).to_bits()
}

/// Relies on `const_soft_float::soft_f32::SoftF32::mul`: IEEE-754 binary32
/// multiplication, round to nearest even. Its result bits are a function of
/// the operand bits alone, and the correctly rounded product of two non-NaN
/// operands does not depend on their order (sign, exponent and significand
/// are combined symmetrically; only its NaN passthrough prefers the left
/// operand).
#[verifier::external_body]
pub(crate) fn soft_mul(a: u32, b: u32) -> (r: u32)
    ensures
        r == mul_bits(a, b),
        !is_nan_bits(a) && !is_nan_bits(b) ==> r == mul_bits(b, a),
{
    SoftF32::from_bits(a).mul(SoftF32::from_bits(b)).to_bits()
}

/// Relies on `const_soft_float::soft_f32::SoftF32::div`: IEEE-754 binary32
/// division, round to nearest even; a zero divisor gives an infinity or a
/// NaN, never a panic. Its result bits are a function of the operand bits
/// alone.
#[verifier::external_body]
pub(crate) fn soft_div(a: u32, b: u32) -> (r: u32)
    ensures
        r == div_bits(a, b),
{
    SoftF32::from_bits(a).div(SoftF32::from_bits(b)).to_bits()
}

/// Relies on `const_soft_float::soft_f32::SoftF32::sqrt`: the correctly
/// rounded IEEE-754 binary32 square root, computed bit by bit; a negative
/// input gives a NaN, never a panic (its internal comparisons are on finite
/// constants, so their unordered branch is unreachable). Its result bits are
/// a function of the input bits alone.
#[verifier::external_body]
pub(crate) fn soft_sqrt(a: u32) -> (r: u32)
    ensures
        r == sqrt_bits(a),
{
    SoftF32::from_bits(a).sqrt().to_bits()
}

/// One Newton-Raphson refinement factor for an estimate of the reciprocal
/// square root of the value encoded by `v`, written over bit patterns:
/// `(3 - v * rr) / 2`, where `rr` encodes the squared estimate.
pub open spec fn rsqrt_step_bits(v: u32, rr: u32) -> u32 {
    mul_bits(HALF_BITS, sub_bits(THREE_BITS, mul_bits(v, rr)))
}

/// The fast reciprocal-square-root kernel on one lane: an initial estimate
/// of `1 / sqrt(v)` — here the correctly rounded quotient `1 / sqrt(v)`
/// itself, a portable stand-in of better accuracy than a hardware estimate
/// lane — refined by exactly one Newton-Raphson step.
pub open spec fn fast_rsqrt_bits(v: u32) -> u32 {
    let r0 = div_bits(ONE_BITS, sqrt_bits(v));
    mul_bits(r0, rsqrt_step_bits(v, mul_bits(r0, r0)))
}

/// Runs the fast reciprocal-square-root kernel on one lane's bit pattern.
pub(crate) fn rsqrt_lane(v: u32) -> (r: u32)
    ensures
        r == fast_rsqrt_bits(v),
{
    let r0 = soft_div(ONE_BITS, soft_sqrt(v));
    let rr = soft_mul(r0, r0);
    let step = soft_mul(HALF_BITS, soft_sub(THREE_BITS, soft_mul(v, rr)));
    soft_mul(r0, step)
}

} // verus!
