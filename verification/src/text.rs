//! Comparison of string slices.

use vstd::prelude::*;

verus! {

/// Equality of two string slices, as `<str as PartialEq>::eq` of the
/// standard library decides it. Trusted: the result is `true` exactly when
/// both slices hold the same characters in the same order.
#[verifier::external_body]
pub(crate) fn str_eq(a: &str, b: &str) -> (same: bool)
    ensures
        same == (a@ == b@),
{
    a == b
}

} // verus!
