//! The arithmetic on single components.
//!
//! A component is an IEEE-754 binary64 value, held as its 64-bit encoding.
//! The four arithmetic operations are carried out by `rustc_apfloat`,
//! which computes the correctly rounded result (to nearest, ties to even)
//! in plain integer arithmetic, so the encoding that comes back is a
//! function of the operand encodings alone, on every machine. Each
//! operation is therefore named by an uninterpreted spec function, and
//! the executable operation returns exactly the named encoding.

use vstd::prelude::*;

use rustc_apfloat::Float;

verus! {

/// The exponent field of a binary64 encoding, all ones exactly for
/// infinities and NaNs.
pub open spec fn exponent_mask() -> u64 {
    0x7FF0_0000_0000_0000u64
}

/// The fraction field of a binary64 encoding, nonzero (with an all-ones
/// exponent) exactly for NaNs.
pub open spec fn fraction_mask() -> u64 {
    0x000F_FFFF_FFFF_FFFFu64
}

/// Whether the encoding `b` denotes a NaN.
pub open spec fn is_nan_bits(b: u64) -> bool {
    b & exponent_mask() == exponent_mask() && b & fraction_mask() != 0
}

/// Decides, on the encoding itself, whether `b` denotes a NaN.
pub fn encodes_nan(b: u64) -> (r: bool)
    ensures
        r == is_nan_bits(b),
{
    b & 0x7FF0_0000_0000_0000u64 == 0x7FF0_0000_0000_0000u64 && b & 0x000F_FFFF_FFFF_FFFFu64 != 0
}

/// The encoding of the correctly rounded sum of the two values encoded
/// by `a` and `b`.
pub uninterp spec fn add_bits(a: u64, b: u64) -> u64;

/// The encoding of the correctly rounded difference.
pub uninterp spec fn sub_bits(a: u64, b: u64) -> u64;

/// The encoding of the correctly rounded product.
pub uninterp spec fn mul_bits(a: u64, b: u64) -> u64;

/// The encoding of the correctly rounded quotient.
pub uninterp spec fn div_bits(a: u64, b: u64) -> u64;

/// What addition of the components `a` and `b` promises of a result `r`:
/// `r` is the sum's encoding, and a NaN operand makes `r` NaN.
pub open spec fn add_rel(a: u64, b: u64, r: u64) -> bool {
    &&& r == add_bits(a, b)
    &&& (is_nan_bits(a) || is_nan_bits(b)) ==> is_nan_bits(r)
}

/// As `add_rel`, for subtraction.
pub open spec fn sub_rel(a: u64, b: u64, r: u64) -> bool {
    &&& r == sub_bits(a, b)
    &&& (is_nan_bits(a) || is_nan_bits(b)) ==> is_nan_bits(r)
}

/// As `add_rel`, for multiplication.
pub open spec fn mul_rel(a: u64, b: u64, r: u64) -> bool {
    &&& r == mul_bits(a, b)
    &&& (is_nan_bits(a) || is_nan_bits(b)) ==> is_nan_bits(r)
}

/// As `add_rel`, for division.
pub open spec fn div_rel(a: u64, b: u64, r: u64) -> bool {
    &&& r == div_bits(a, b)
    &&& (is_nan_bits(a) || is_nan_bits(b)) ==> is_nan_bits(r)
}

/// Relies on `rustc_apfloat::ieee::Double`: `from_bits`, `+` (which
/// rounds to nearest, ties to even) and `to_bits` perform IEEE-754
/// binary64 addition on encodings in pure integer code, so the result is
/// a function of the operand encodings alone, and an operation on a NaN
/// returns a NaN.
#[verifier::external_body]
pub(crate) fn add_encoded(a: u64, b: u64) -> (r: u64)
    ensures
        r == add_bits(a, b),
        (is_nan_bits(a) || is_nan_bits(b)) ==> is_nan_bits(r),
{
    let x = rustc_apfloat::ieee::Double::from_bits(a as u128);
    let y = rustc_apfloat::ieee::Double::from_bits(b as u128);
    (x + y).value.to_bits() as u64
}

/// Relies on `rustc_apfloat::ieee::Double`: `-` on it, as `add_encoded`
/// relies on `+`.
#[verifier::external_body]
pub(crate) fn sub_encoded(a: u64, b: u64) -> (r: u64)
    ensures
        r == sub_bits(a, b),
        (is_nan_bits(a) || is_nan_bits(b)) ==> is_nan_bits(r),
{
    let x = rustc_apfloat::ieee::Double::from_bits(a as u128);
    let y = rustc_apfloat::ieee::Double::from_bits(b as u128);
    (x - y).value.to_bits() as u64
}

/// Relies on `rustc_apfloat::ieee::Double`: `*` on it, as `add_encoded`
/// relies on `+`.
#[verifier::external_body]
pub(crate) fn mul_encoded(a: u64, b: u64) -> (r: u64)
    ensures
        r == mul_bits(a, b),
        (is_nan_bits(a) || is_nan_bits(b)) ==> is_nan_bits(r),
{
    let x = rustc_apfloat::ieee::Double::from_bits(a as u128);
    let y = rustc_apfloat::ieee::Double::from_bits(b as u128);
    (x * y).value.to_bits() as u64
}

/// Relies on `rustc_apfloat::ieee::Double`: `/` on it, as `add_encoded`
/// relies on `+`; dividing by zero yields an infinity or a NaN, never a
/// failure.
#[verifier::external_body]
pub(crate) fn div_encoded(a: u64, b: u64) -> (r: u64)
    ensures
        r == div_bits(a, b),
        (is_nan_bits(a) || is_nan_bits(b)) ==> is_nan_bits(r),
{
    let x = rustc_apfloat::ieee::Double::from_bits(a as u128);
    let y = rustc_apfloat::ieee::Double::from_bits(b as u128);
    (x / y).value.to_bits() as u64
}

} // verus!
