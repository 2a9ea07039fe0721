//! The numeric domain of observations and bucket thresholds.
//!
//! Observed values and threshold bounds are IEEE-754 double-precision
//! numbers, carried everywhere as their 64-bit encodings.  Ordering them
//! never needs floating-point hardware: the encodings are mapped by
//! [`key_of`] to keys whose unsigned order is the IEEE total order
//! (negative numbers below negative zero, negative zero below positive
//! zero, positive numbers above, NaN encodings at the very top), which on
//! non-NaN values agrees with numeric order.  Only arithmetic on the
//! encoded values — summing observations, generating bucket sequences —
//! goes to an outside software implementation of IEEE-754, through the
//! trusted items below.

use vstd::prelude::*;
use rustc_apfloat::Float;

verus! {

/// Encoding of positive zero.
pub const POS_ZERO_BITS: u64 = 0;

/// Encoding of 1.0.
pub const ONE_BITS: u64 = 0x3FF0_0000_0000_0000;

/// The sign bit of an encoded double.
pub const SIGN_BITS: u64 = 0x8000_0000_0000_0000;

/// The encoding of positive infinity; also the magnitude bound that
/// separates finite encodings from infinities and NaNs.
pub const POS_INF_BITS: u64 = 0x7FF0_0000_0000_0000;

/// The magnitude of an encoded double: its encoding with the sign bit cleared.
pub open spec fn abs_bits(b: u64) -> int {
    if b >= SIGN_BITS {
        b - SIGN_BITS
    } else {
        b as int
    }
}

/// Whether `b` encodes a NaN.
pub open spec fn is_nan_bits(b: u64) -> bool {
    abs_bits(b) > POS_INF_BITS
}

/// Whether `b` encodes a finite number (neither an infinity nor a NaN).
pub open spec fn is_finite_bits(b: u64) -> bool {
    abs_bits(b) < POS_INF_BITS
}

/// The total-order key of an encoded double.  `key_of(a) <= key_of(b)`
/// is the IEEE total order on the encoded values, which on non-NaN
/// values agrees with the usual numeric order (up to the two zeros,
/// which it keeps adjacent).
pub open spec fn key_of(b: u64) -> int {
    if b < SIGN_BITS {
        b + SIGN_BITS
    } else {
        0xFFFF_FFFF_FFFF_FFFF - b
    }
}

/// Whether `b` encodes a number strictly above positive zero.
/// NaN encodings do not qualify, matching a strict floating comparison.
pub open spec fn is_above_zero(b: u64) -> bool {
    !is_nan_bits(b) && key_of(b) > key_of(POS_ZERO_BITS)
}

/// Whether `b` encodes a number strictly above 1.0.
/// NaN encodings do not qualify, matching a strict floating comparison.
pub open spec fn is_above_one(b: u64) -> bool {
    !is_nan_bits(b) && key_of(b) > key_of(ONE_BITS)
}

/// The total-order key of an encoded double, as a machine word.
pub fn order_key(b: u64) -> (k: u64)
    ensures
        k == key_of(b),
{
    if b < SIGN_BITS {
        b + SIGN_BITS
    } else {
        0xFFFF_FFFF_FFFF_FFFF - b
    }
}

/// Whether the value encoded by `a` is at or below the value encoded by
/// `b` in the total order.
pub fn le_bits(a: u64, b: u64) -> (r: bool)
    ensures
        r == (key_of(a) <= key_of(b)),
{
    order_key(a) <= order_key(b)
}

/// Whether the value encoded by `a` is strictly below the value encoded
/// by `b` in the total order.
pub fn lt_bits(a: u64, b: u64) -> (r: bool)
    ensures
        r == (key_of(a) < key_of(b)),
{
    order_key(a) < order_key(b)
}

/// Whether `b` encodes a finite number.
pub fn finite_bits(b: u64) -> (r: bool)
    ensures
        r == is_finite_bits(b),
{
    let m: u64 = if b >= SIGN_BITS {
        b - SIGN_BITS
    } else {
        b
    };
    m < POS_INF_BITS
}

/// Whether `b` encodes a number strictly above positive zero.
pub fn above_zero_bits(b: u64) -> (r: bool)
    ensures
        r == is_above_zero(b),
{
    let m: u64 = if b >= SIGN_BITS {
        b - SIGN_BITS
    } else {
        b
    };
    m <= POS_INF_BITS && order_key(b) > order_key(POS_ZERO_BITS)
}

/// Whether `b` encodes a number strictly above 1.0.
pub fn above_one_bits(b: u64) -> (r: bool)
    ensures
        r == is_above_one(b),
{
    let m: u64 = if b >= SIGN_BITS {
        b - SIGN_BITS
    } else {
        b
    };
    m <= POS_INF_BITS && order_key(b) > order_key(ONE_BITS)
}

/// The encoding of the IEEE sum (round to nearest, ties to even) of the
/// doubles encoded by `a` and `b`.  A function of the two encodings alone.
pub uninterp spec fn add_of(a: u64, b: u64) -> u64;

/// The encoding of the IEEE product (round to nearest, ties to even) of
/// the doubles encoded by `a` and `b`.  A function of the two encodings alone.
pub uninterp spec fn mul_of(a: u64, b: u64) -> u64;

/// The decimal rendering of the double encoded by `b`.  A function of the
/// encoding alone.
pub uninterp spec fn text_of(b: u64) -> Seq<u8>;

/// Relies on `rustc_apfloat::ieee::Double`: `add_r` with round to nearest,
/// ties to even, is IEEE-754 addition on the encoded values.
#[verifier::external_body]
pub fn add_bits(a: u64, b: u64) -> (r: u64)
    ensures
        r == add_of(a, b),
{
    let x = rustc_apfloat::ieee::Double::from_bits(a as u128);
    let y = rustc_apfloat::ieee::Double::from_bits(b as u128);
    x.add_r(y, rustc_apfloat::Round::NearestTiesToEven).value.to_bits() as u64
}

/// Relies on `rustc_apfloat::ieee::Double`: `mul_r` with round to nearest,
/// ties to even, is IEEE-754 multiplication on the encoded values.
#[verifier::external_body]
pub fn mul_bits(a: u64, b: u64) -> (r: u64)
    ensures
        r == mul_of(a, b),
{
    let x = rustc_apfloat::ieee::Double::from_bits(a as u128);
    let y = rustc_apfloat::ieee::Double::from_bits(b as u128);
    x.mul_r(y, rustc_apfloat::Round::NearestTiesToEven).value.to_bits() as u64
}

/// Relies on `rustc_apfloat::ieee::Double`'s `Display`: the decimal
/// rendering depends on the encoding alone.
#[verifier::external_body]
pub fn text_bits(b: u64) -> (r: Vec<u8>)
    ensures
        r@ == text_of(b),
{
    let x = rustc_apfloat::ieee::Double::from_bits(b as u128);
    format!("{x}").into_bytes()
}

} // verus!
