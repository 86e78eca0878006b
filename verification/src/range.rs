//! The bound-pair model of a range.

use std::ops::Bound;
use vstd::prelude::*;

verus! {

/// `std::ops::Bound`, with its three variants visible to the verifier.
#[verifier::external_type_specification]
pub struct ExBound<T>(Bound<T>);

/// A range as a pair of bounds. No order between the two is enforced, so a
/// backwards or empty range is a value like any other.
#[derive(Debug, PartialEq, Eq, Hash)]
pub struct PgRange<T> {
    pub start: Bound<T>,
    pub end: Bound<T>,
}

/// The value a bound carries, if it carries one.
pub open spec fn bound_value<T>(b: Bound<T>) -> Option<T> {
    match b {
        Bound::Included(v) => Some(v),
        Bound::Excluded(v) => Some(v),
        Bound::Unbounded => None,
    }
}

/// `r` is what cloning the value of `b` may give: nothing for an unbounded
/// side, else a clone of the boundary value.
pub open spec fn cloned_bound_value<T: Clone>(b: Bound<T>, r: Option<T>) -> bool {
    match bound_value(b) {
        Some(v) => r matches Some(c) && cloned::<T>(v, c),
        None => r is None,
    }
}

/// `r` is what cloning `b` may give: the same kind of bound, around a clone
/// of the boundary value.
pub open spec fn cloned_bound<T: Clone>(b: Bound<T>, r: Bound<T>) -> bool {
    match b {
        Bound::Included(v) => r matches Bound::Included(c) && cloned::<T>(v, c),
        Bound::Excluded(v) => r matches Bound::Excluded(c) && cloned::<T>(v, c),
        Bound::Unbounded => r is Unbounded,
    }
}

fn clone_bound<T: Clone>(b: &Bound<T>) -> (r: Bound<T>)
    ensures
        cloned_bound(*b, r),
{
    match b {
        Bound::Included(v) => Bound::Included(v.clone()),
        Bound::Excluded(v) => Bound::Excluded(v.clone()),
        Bound::Unbounded => Bound::Unbounded,
    }
}

impl<T: Clone> Clone for PgRange<T> {
    fn clone(&self) -> (r: Self)
        ensures
            cloned_bound(self.start, r.start),
            cloned_bound(self.end, r.end),
    {
        PgRange { start: clone_bound(&self.start), end: clone_bound(&self.end) }
    }
}

impl<T: Copy> Copy for PgRange<T> {

}

impl<T: Clone> PgRange<T> {
    /// Builds a range from its two bounds, as given.
    pub fn new(start: Bound<T>, end: Bound<T>) -> (r: Self)
        ensures
            r.start == start,
            r.end == end,
    {
        PgRange { start, end }
    }

    /// The lower boundary value, whether included or excluded.
    pub fn start(&self) -> (r: Option<T>)
        ensures
            cloned_bound_value(self.start, r),
    {
        match &self.start {
            Bound::Included(inner) => Some(inner.clone()),
            Bound::Excluded(inner) => Some(inner.clone()),
            Bound::Unbounded => None,
        }
    }

    /// The upper boundary value, whether included or excluded.
    pub fn end(&self) -> (r: Option<T>)
        ensures
            cloned_bound_value(self.end, r),
    {
        match &self.end {
            Bound::Included(inner) => Some(inner.clone()),
            Bound::Excluded(inner) => Some(inner.clone()),
            Bound::Unbounded => None,
        }
    }
}

/// A bound by reference: the same kind of bound, around the same value.
pub open spec fn bound_by_ref<T>(b: Bound<T>, r: Bound<&T>) -> bool {
    match b {
        Bound::Included(v) => r matches Bound::Included(x) && *x == v,
        Bound::Excluded(v) => r matches Bound::Excluded(x) && *x == v,
        Bound::Unbounded => r is Unbounded,
    }
}

impl<T> std::ops::RangeBounds<T> for PgRange<T> {
    fn start_bound(&self) -> (r: Bound<&T>)
        ensures
            bound_by_ref(self.start, r),
    {
        match self.start {
            Bound::Included(ref start) => Bound::Included(start),
            Bound::Excluded(ref start) => Bound::Excluded(start),
            Bound::Unbounded => Bound::Unbounded,
        }
    }

    fn end_bound(&self) -> (r: Bound<&T>)
        ensures
            bound_by_ref(self.end, r),
    {
        match self.end {
            Bound::Included(ref end) => Bound::Included(end),
            Bound::Excluded(ref end) => Bound::Excluded(end),
            Bound::Unbounded => Bound::Unbounded,
        }
    }
}

} // verus!
