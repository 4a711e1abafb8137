//! Equality of optional values.

use vstd::prelude::*;
use vstd::std_specs::cmp::PartialEqSpec;

verus! {

/// Compares two options that contain comparable values: true when both are
/// `None`, or both are `Some` with equal contents.
pub fn comp_opt<T: Eq>(left: &Option<T>, right: &Option<T>) -> (r: bool)
    ensures
        left.is_none() && right.is_none() ==> r,
        left.is_some() != right.is_some() ==> !r,
        left.is_some() && right.is_some() ==> call_ensures(
            T::eq,
            (&left.unwrap(), &right.unwrap()),
            r,
        ),
        T::obeys_eq_spec() ==> r == opt_same(*left, *right),
{
    match (left, right) {
        (Some(i), Some(j)) => i.eq(j),
        (None, None) => true,
        _ => false,
    }
}

/// Two options are both `None`, or both `Some` with equal contents.
pub open spec fn opt_same<T: PartialEq>(left: Option<T>, right: Option<T>) -> bool {
    match (left, right) {
        (Some(i), Some(j)) => i.eq_spec(&j),
        (None, None) => true,
        _ => false,
    }
}

/// Comparing with `comp_opt` agrees with comparing the two options with `==`.
pub proof fn comp_opt_agrees_with_option_eq<T: PartialEq>(left: Option<T>, right: Option<T>)
    ensures
        opt_same(left, right) == left.eq_spec(&right),
{
}

/// Where the contents' `==` is an equivalence, so is the comparison of
/// options: every option equals itself, equality goes both ways, and two
/// options equal to a third are equal.
pub proof fn opt_same_is_equivalence<T: PartialEq>(a: Option<T>, b: Option<T>, c: Option<T>)
    requires
        forall|x: T| #[trigger] x.eq_spec(&x),
        forall|x: T, y: T| #[trigger] x.eq_spec(&y) ==> y.eq_spec(&x),
        forall|x: T, y: T, z: T| #[trigger] x.eq_spec(&y) && #[trigger] y.eq_spec(&z) ==> x.eq_spec(&z),
    ensures
        opt_same(a, a),
        opt_same(a, b) == opt_same(b, a),
        opt_same(a, b) && opt_same(b, c) ==> opt_same(a, c),
{
    match (a, b, c) {
        (Some(x), Some(y), Some(z)) => {
            assert(x.eq_spec(&y) && y.eq_spec(&z) ==> x.eq_spec(&z));
        },
        _ => {},
    }
}

} // verus!
