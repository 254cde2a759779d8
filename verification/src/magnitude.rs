//! The trusted magnitude layer. A magnitude is an IEEE 754 binary64 value
//! carried as its raw bit pattern (`u64`). Every binary64 operation the
//! library needs is performed by an outside software floating-point
//! implementation and is reachable only through the wrappers below; each
//! wrapper names its result with an uninterpreted spec function, since the
//! result is a function of the operand bit patterns alone.

use const_soft_float::soft_f64::SoftF64;
use rustc_apfloat::Float;
use vstd::prelude::*;

verus! {

// The binary64 bit pattern of the value one hundred, used by the renderer to
// move two decimal digits in front of the point before rounding.
pub const HUNDRED_BITS: u64 = 0x4059000000000000;

// The binary64 sum of the values with bit patterns `a` and `b`, rounded to
// nearest, ties to even, as a bit pattern.
pub uninterp spec fn sum_bits(a: u64, b: u64) -> u64;

// The binary64 difference `a - b`, as a bit pattern.
pub uninterp spec fn diff_bits(a: u64, b: u64) -> u64;

// The binary64 product `a * b`, as a bit pattern.
pub uninterp spec fn prod_bits(a: u64, b: u64) -> u64;

// The binary64 quotient `a / b`, as a bit pattern.
pub uninterp spec fn quot_bits(a: u64, b: u64) -> u64;

// The binary64 square root, as a bit pattern.
pub uninterp spec fn sqrt_bits(a: u64) -> u64;

// The sine of the binary64 value with bit pattern `a`, as a bit pattern.
pub uninterp spec fn sin_bits(a: u64) -> u64;

// The cosine of the binary64 value with bit pattern `a`, as a bit pattern.
pub uninterp spec fn cos_bits(a: u64) -> u64;

// The integer nearest (ties to even) to the binary64 value with bit pattern
// `a`.
pub uninterp spec fn nearest_int(a: u64) -> i128;

/// Relies on `const_soft_float::soft_f64::SoftF64::add`: IEEE 754 binary64
/// addition on bit patterns. The sum of two positive zeros is positive zero.
#[verifier::external_body]
pub(crate) fn add_mag(a: u64, b: u64) -> (r: u64)
    ensures
        r == sum_bits(a, b),
        a == 0u64 && b == 0u64 ==> r == 0u64,
{
    SoftF64::from_bits(a).add(SoftF64::from_bits(b)).to_bits()
}

/// Relies on `const_soft_float::soft_f64::SoftF64::sub`: IEEE 754 binary64
/// subtraction on bit patterns.
#[verifier::external_body]
pub(crate) fn sub_mag(a: u64, b: u64) -> (r: u64)
    ensures
        r == diff_bits(a, b),
{
    SoftF64::from_bits(a).sub(SoftF64::from_bits(b)).to_bits()
}

/// Relies on `const_soft_float::soft_f64::SoftF64::mul`: IEEE 754 binary64
/// multiplication on bit patterns. The product of two positive zeros is
/// positive zero.
#[verifier::external_body]
pub(crate) fn mul_mag(a: u64, b: u64) -> (r: u64)
    ensures
        r == prod_bits(a, b),
        a == 0u64 && b == 0u64 ==> r == 0u64,
{
    SoftF64::from_bits(a).mul(SoftF64::from_bits(b)).to_bits()
}

/// Relies on `const_soft_float::soft_f64::SoftF64::div`: IEEE 754 binary64
/// division on bit patterns.
#[verifier::external_body]
pub(crate) fn div_mag(a: u64, b: u64) -> (r: u64)
    ensures
        r == quot_bits(a, b),
{
    SoftF64::from_bits(a).div(SoftF64::from_bits(b)).to_bits()
}

/// Relies on `const_soft_float::soft_f64::SoftF64::sqrt`: IEEE 754 binary64
/// square root on bit patterns. The square root of positive zero is positive
/// zero.
#[verifier::external_body]
pub(crate) fn sqrt_mag(a: u64) -> (r: u64)
    ensures
        r == sqrt_bits(a),
        a == 0u64 ==> r == 0u64,
{
    SoftF64::from_bits(a).sqrt().to_bits()
}

/// Relies on `const_soft_float::soft_f64::SoftF64::sin`: sine of a binary64
/// value, on bit patterns.
#[verifier::external_body]
pub(crate) fn sin_mag(a: u64) -> (r: u64)
    ensures
        r == sin_bits(a),
{
    SoftF64::from_bits(a).sin().to_bits()
}

/// Relies on `const_soft_float::soft_f64::SoftF64::cos`: cosine of a binary64
/// value, on bit patterns.
#[verifier::external_body]
pub(crate) fn cos_mag(a: u64) -> (r: u64)
    ensures
        r == cos_bits(a),
{
    SoftF64::from_bits(a).cos().to_bits()
}

/// Relies on `rustc_apfloat::Float::to_i128_r` with rounding to nearest, ties
/// to even, at full width: the integer nearest to a binary64 value, taken from
/// its bit pattern.
#[verifier::external_body]
pub(crate) fn mag_to_nearest_int(a: u64) -> (r: i128)
    ensures
        r == nearest_int(a),
{
    let v = rustc_apfloat::ieee::Double::from_bits(a as u128);
    let mut exact = false;
    v.to_i128_r(128, rustc_apfloat::Round::NearestTiesToEven, &mut exact).value
}

/// Relies on `alloc::string::String::from_utf8`: bytes below 128 are valid
/// UTF-8 and decode to the characters with the same values.
#[verifier::external_body]
pub(crate) fn ascii_to_string(v: Vec<u8>) -> (r: String)
    requires
        forall|i: int| 0 <= i < v@.len() ==> v@[i] < 128,
    ensures
        r@.len() == v@.len(),
        forall|i: int| 0 <= i < v@.len() ==> r@[i] == (v@[i] as char),
{
    String::from_utf8(v).unwrap_or_default()
}

} // verus!
