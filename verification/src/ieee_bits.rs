//! IEEE-754 binary64 arithmetic over raw bit patterns.
//!
//! The engine carries every real number as the 64-bit pattern of a binary64
//! value.  What an operation returns is named by an uninterpreted spec
//! function, and a trusted wrapper around `rustc_apfloat` (a software
//! implementation of IEEE-754, rounding to nearest with ties to even, as the
//! hardware does) performs it.  Every result is a function of the argument
//! bits alone.

use vstd::prelude::*;
use rustc_apfloat::Float;
use rustc_apfloat::ieee::Double;

verus! {

/// Bits of the binary64 value 1.0.
pub const ONE: u64 = 0x3FF0_0000_0000_0000;
/// Bits of the binary64 value 4.0.
pub const FOUR: u64 = 0x4010_0000_0000_0000;
/// Bits of the binary64 value 16.0.
pub const SIXTEEN: u64 = 0x4030_0000_0000_0000;
/// Bits of the binary64 value 0.25.
pub const QUARTER: u64 = 0x3FD0_0000_0000_0000;
/// The smallest bit pattern whose binary64 value is not finite: the
/// positive infinity.  Every pattern strictly between zero and this one is
/// a positive finite value.
pub const POSITIVE_INFINITY: u64 = 0x7FF0_0000_0000_0000;

/// The sum of the binary64 values with bit patterns `a` and `b`.
pub uninterp spec fn add_bits(a: u64, b: u64) -> u64;

/// The difference of the binary64 values with bit patterns `a` and `b`.
pub uninterp spec fn sub_bits(a: u64, b: u64) -> u64;

/// The product of the binary64 values with bit patterns `a` and `b`.
pub uninterp spec fn mul_bits(a: u64, b: u64) -> u64;

/// The quotient of the binary64 values with bit patterns `a` and `b`.
pub uninterp spec fn div_bits(a: u64, b: u64) -> u64;

/// The negation of the binary64 value with bit pattern `a`.
pub uninterp spec fn neg_bits(a: u64) -> u64;

/// Whether the binary64 value with bit pattern `a` compares strictly below
/// the one with bit pattern `b` (false when either is a NaN).
pub uninterp spec fn lt_bits(a: u64, b: u64) -> bool;

/// Whether the binary64 values with bit patterns `a` and `b` compare equal
/// (zeroes of either sign compare equal; NaNs compare equal to nothing).
pub uninterp spec fn eq_bits(a: u64, b: u64) -> bool;

/// The bit pattern of the binary64 value nearest to the integer `x`.
pub uninterp spec fn double_of_u64(x: u64) -> u64;

/// The integer that the binary64 value with bit pattern `a` yields when
/// rounded toward zero and saturated to the range of 64-bit integers
/// (zero for a NaN).
pub uninterp spec fn u64_of_double(a: u64) -> u64;

/// Relies on `rustc_apfloat::ieee::Double`'s addition: IEEE-754 binary64,
/// round to nearest, ties to even.
#[verifier::external_body]
pub(crate) fn fadd(a: u64, b: u64) -> (r: u64)
    ensures
        r == add_bits(a, b),
{
    (Double::from_bits(a as u128) + Double::from_bits(b as u128)).value.to_bits() as u64
}

/// Relies on `rustc_apfloat::ieee::Double`'s subtraction: IEEE-754 binary64,
/// round to nearest, ties to even.
#[verifier::external_body]
pub(crate) fn fsub(a: u64, b: u64) -> (r: u64)
    ensures
        r == sub_bits(a, b),
{
    (Double::from_bits(a as u128) - Double::from_bits(b as u128)).value.to_bits() as u64
}

/// Relies on `rustc_apfloat::ieee::Double`'s multiplication: IEEE-754
/// binary64, round to nearest, ties to even.
#[verifier::external_body]
pub(crate) fn fmul(a: u64, b: u64) -> (r: u64)
    ensures
        r == mul_bits(a, b),
{
    (Double::from_bits(a as u128) * Double::from_bits(b as u128)).value.to_bits() as u64
}

/// Relies on `rustc_apfloat::ieee::Double`'s division: IEEE-754 binary64,
/// round to nearest, ties to even.
#[verifier::external_body]
pub(crate) fn fdiv(a: u64, b: u64) -> (r: u64)
    ensures
        r == div_bits(a, b),
{
    (Double::from_bits(a as u128) / Double::from_bits(b as u128)).value.to_bits() as u64
}

/// Relies on `rustc_apfloat::ieee::Double`'s negation, which flips the sign
/// bit.
#[verifier::external_body]
pub(crate) fn fneg(a: u64) -> (r: u64)
    ensures
        r == neg_bits(a),
{
    (-Double::from_bits(a as u128)).to_bits() as u64
}

/// Relies on `rustc_apfloat::ieee::Double`'s `PartialOrd`, the IEEE-754
/// comparison: false whenever either operand is a NaN.
#[verifier::external_body]
pub(crate) fn flt(a: u64, b: u64) -> (r: bool)
    ensures
        r == lt_bits(a, b),
{
    Double::from_bits(a as u128) < Double::from_bits(b as u128)
}

/// Relies on `rustc_apfloat::ieee::Double`'s `PartialEq`, the IEEE-754
/// equality: zeroes of either sign are equal, a NaN is equal to nothing.
#[verifier::external_body]
pub(crate) fn feq(a: u64, b: u64) -> (r: bool)
    ensures
        r == eq_bits(a, b),
{
    Double::from_bits(a as u128) == Double::from_bits(b as u128)
}

/// Relies on `rustc_apfloat::ieee::Double::from_u128`: the nearest binary64
/// value, ties to even.
#[verifier::external_body]
pub(crate) fn f_of_u64(x: u64) -> (r: u64)
    ensures
        r == double_of_u64(x),
{
    Double::from_u128(x as u128).value.to_bits() as u64
}

/// Relies on `rustc_apfloat::ieee::Double::to_u128`: rounds toward zero and
/// saturates; a NaN yields zero.
#[verifier::external_body]
pub(crate) fn f_to_u64(a: u64) -> (r: u64)
    ensures
        r == u64_of_double(a),
{
    Double::from_bits(a as u128).to_u128(64).value as u64
}

} // verus!
