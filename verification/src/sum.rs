//! The one exported operation: add and render in decimal.

use vstd::prelude::*;

use crate::decimal::spec_decimal;
use crate::decimal::to_decimal;

verus! {

/// The sum exceeded the native unsigned integer range.
///
/// Overflow policy: an addition whose mathematical result does not fit in
/// `usize` is reported through this explicit error, never wrapped or
/// saturated.
#[derive(Clone, Copy, Debug, PartialEq, Eq, Structural)]
pub struct OverflowError;

/// What `sum_as_string` returns: the canonical decimal representation of
/// `a + b` when the sum fits in `usize`, and the explicit overflow error
/// otherwise.
pub open spec fn sum_as_string_spec(a: usize, b: usize, r: Result<String, OverflowError>) -> bool {
    match r {
        Ok(s) => a + b <= usize::MAX && s@ == spec_decimal((a + b) as nat),
        Err(_) => a + b > usize::MAX,
    }
}

/// Add two unsigned integers and return the sum as a decimal string.
pub fn sum_as_string(a: usize, b: usize) -> (r: Result<String, OverflowError>)
    ensures
        sum_as_string_spec(a, b, r),
        r is Ok <==> a + b <= usize::MAX,
{
    match a.checked_add(b) {
        Some(total) => Ok(to_decimal(total)),
        None => Err(OverflowError),
    }
}

/// The operation is pure: its outcome is a function of the inputs alone.
/// Any two results that satisfy `sum_as_string`'s postcondition for the
/// same `a` and `b` agree — same success or failure, and on success the
/// same characters.
pub proof fn lemma_sum_as_string_deterministic(
    a: usize,
    b: usize,
    r1: Result<String, OverflowError>,
    r2: Result<String, OverflowError>,
)
    requires
        sum_as_string_spec(a, b, r1),
        sum_as_string_spec(a, b, r2),
    ensures
        r1 is Ok <==> r2 is Ok,
        r1 is Ok ==> r1->Ok_0@ == r2->Ok_0@,
        r1 is Err ==> r1 == r2,
{
    if r1 is Err && r2 is Err {
        assert(r1->Err_0 == r2->Err_0);
    }
}

} // verus!
