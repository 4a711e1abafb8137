//! Equality of string slices.

use vstd::prelude::*;

verus! {

/// Whether two string slices hold the same characters.
///
/// Calls `<str as PartialEq>::eq`, which std documents as comparing the two
/// slices' contents; the contract states exactly that, over the views.
#[verifier::external_body]
pub fn str_eq(a: &str, b: &str) -> (r: bool)
    ensures
        r == (a@ == b@),
{
    a == b
}

/// Whether two optional string slices are both absent, or both present with
/// the same characters.
pub fn opt_str_eq(a: &Option<&str>, b: &Option<&str>) -> (r: bool)
    ensures
        r == (opt_str_view(*a) == opt_str_view(*b)),
{
    match (a, b) {
        (Some(x), Some(y)) => str_eq(x, y),
        (None, None) => true,
        _ => false,
    }
}

/// The characters of an optional string slice.
pub open spec fn opt_str_view(a: Option<&str>) -> Option<Seq<char>> {
    match a {
        Some(s) => Some(s@),
        None => None,
    }
}

} // verus!
