//! Text comparison shared by the modules that match on names.
use vstd::prelude::*;

verus! {

/// Equality of two string slices, as `str`'s `==` from the standard library
/// decides it. Trusted: the result is claimed to be `true` exactly when both
/// slices hold the same sequence of characters.
#[verifier::external_body]
pub(crate) fn str_eq(a: &str, b: &str) -> (same: bool)
    ensures
        same == (a@ == b@),
{
    a == b
}

} // verus!
