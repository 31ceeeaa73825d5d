//! Trusted IEEE-754 binary64 arithmetic on raw bit patterns.
//!
//! Every scalar of the model is carried as the `u64` bit pattern of an
//! IEEE-754 binary64 value. The four arithmetic operations and the
//! ordered comparison are performed by `rustc_apfloat`, a software
//! implementation of IEEE-754 binary64 with the default rounding
//! (round to nearest, ties to even). Each result is a function of the
//! operand bit patterns alone, so it is given a name here and the
//! wrappers promise exactly that name; everything the library proves
//! about the kinematic updates is relative to these five names.

use vstd::prelude::*;

use rustc_apfloat::Float;
use rustc_apfloat::ieee::Double;

verus! {

// The IEEE-754 binary64 sum of the values with bit patterns `a` and `b`.
pub uninterp spec fn sum_bits(a: u64, b: u64) -> u64;

// The IEEE-754 binary64 difference of the values with bit patterns `a` and `b`.
pub uninterp spec fn diff_bits(a: u64, b: u64) -> u64;

// The IEEE-754 binary64 product of the values with bit patterns `a` and `b`.
pub uninterp spec fn prod_bits(a: u64, b: u64) -> u64;

// The IEEE-754 binary64 quotient of the values with bit patterns `a` and `b`.
pub uninterp spec fn quot_bits(a: u64, b: u64) -> u64;

// Whether the value with bit pattern `a` is strictly greater than the one
// with bit pattern `b` in the IEEE-754 ordering (false whenever either
// operand is a NaN).
pub uninterp spec fn gt_bits(a: u64, b: u64) -> bool;

/// Relies on rustc_apfloat's `Double` addition: IEEE-754 binary64, round
/// to nearest, ties to even, a function of the two bit patterns alone.
#[verifier::external_body]
pub(crate) fn add_bits(a: u64, b: u64) -> (r: u64)
    ensures
        r == sum_bits(a, b),
{
    (Double::from_bits(a as u128) + Double::from_bits(b as u128)).value.to_bits() as u64
}

/// Relies on rustc_apfloat's `Double` subtraction: IEEE-754 binary64,
/// round to nearest, ties to even, a function of the two bit patterns alone.
#[verifier::external_body]
pub(crate) fn sub_bits(a: u64, b: u64) -> (r: u64)
    ensures
        r == diff_bits(a, b),
{
    (Double::from_bits(a as u128) - Double::from_bits(b as u128)).value.to_bits() as u64
}

/// Relies on rustc_apfloat's `Double` multiplication: IEEE-754 binary64,
/// round to nearest, ties to even, a function of the two bit patterns alone.
#[verifier::external_body]
pub(crate) fn mul_bits(a: u64, b: u64) -> (r: u64)
    ensures
        r == prod_bits(a, b),
{
    (Double::from_bits(a as u128) * Double::from_bits(b as u128)).value.to_bits() as u64
}

/// Relies on rustc_apfloat's `Double` division: IEEE-754 binary64, round
/// to nearest, ties to even, a function of the two bit patterns alone.
#[verifier::external_body]
pub(crate) fn div_bits(a: u64, b: u64) -> (r: u64)
    ensures
        r == quot_bits(a, b),
{
    (Double::from_bits(a as u128) / Double::from_bits(b as u128)).value.to_bits() as u64
}

/// Relies on rustc_apfloat's `PartialOrd` for `Double`: the IEEE-754
/// ordered comparison, in which a NaN compares greater than nothing.
#[verifier::external_body]
pub(crate) fn gt_check(a: u64, b: u64) -> (r: bool)
    ensures
        r == gt_bits(a, b),
{
    Double::from_bits(a as u128) > Double::from_bits(b as u128)
}

} // verus!
