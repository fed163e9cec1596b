//! The positions of `Ordering`: `Less`, `Equal`, `Greater`, in this order.

use std::cmp::Ordering;
use vstd::prelude::*;

verus! {

/// The number of values of `Ordering`.
pub const ORDERING_INHABITANTS: usize = 3;

/// The position of a value of `Ordering`.
pub open spec fn ordering_position(o: Ordering) -> usize {
    match o {
        Ordering::Less => 0,
        Ordering::Equal => 1,
        Ordering::Greater => 2,
    }
}

/// The value of `Ordering` at position `i`, if `i` is below 3.
pub open spec fn ordering_at(i: usize) -> Option<Ordering> {
    if i == 0 {
        Some(Ordering::Less)
    } else if i == 1 {
        Some(Ordering::Equal)
    } else if i == 2 {
        Some(Ordering::Greater)
    } else {
        None
    }
}

/// The position of a value is below 3, and `ordering_at` leads back from it
/// to the value.
pub proof fn lemma_ordering_position(o: Ordering)
    ensures
        ordering_position(o) < ORDERING_INHABITANTS,
        ordering_at(ordering_position(o)) == Some(o),
{
}

/// Below 3 `ordering_at` gives the value with that position; from 3 on it
/// gives nothing.
pub proof fn lemma_ordering_at(i: usize)
    ensures
        i < ORDERING_INHABITANTS ==> ordering_at(i) is Some && ordering_position(
            ordering_at(i).unwrap(),
        ) == i,
        i >= ORDERING_INHABITANTS ==> ordering_at(i) is None,
{
}

/// The position of `o`: 0 for `Less`, 1 for `Equal`, 2 for `Greater`.
pub fn ordering_to_usize(o: Ordering) -> (i: usize)
    ensures
        i == ordering_position(o),
        i < ORDERING_INHABITANTS,
{
    match o {
        Ordering::Less => 0,
        Ordering::Equal => 1,
        Ordering::Greater => 2,
    }
}

/// The inverse of `ordering_to_usize`: `Some` exactly when `i < 3`.
pub fn ordering_from_usize(i: usize) -> (r: Option<Ordering>)
    ensures
        r == ordering_at(i),
{
    match i {
        0 => Some(Ordering::Less),
        1 => Some(Ordering::Equal),
        2 => Some(Ordering::Greater),
        _ => None,
    }
}

} // verus!
