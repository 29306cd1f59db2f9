//! Absolute values of signed integers, computed by `num_traits`.
use vstd::prelude::*;

verus! {

/// Calls `num_traits::Signed::abs` on an `i32`. That function returns the
/// number itself when it is not negative and its negation otherwise; the
/// negation of the least `i32` does not exist, so that number is left out.
#[verifier::external_body]
pub(crate) fn abs_i32(v: i32) -> (r: i32)
    requires
        v != i32::MIN,
    ensures
        r == vstd::math::abs(v as int),
{
    num_traits::Signed::abs(&v)
}

/// Calls `num_traits::Signed::abs` on an `i64`. That function returns the
/// number itself when it is not negative and its negation otherwise; the
/// negation of the least `i64` does not exist, so that number is left out.
#[verifier::external_body]
pub(crate) fn abs_i64(v: i64) -> (r: i64)
    requires
        v != i64::MIN,
    ensures
        r == vstd::math::abs(v as int),
{
    num_traits::Signed::abs(&v)
}

} // verus!
