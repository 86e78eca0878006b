//! Conversions from the native interval forms into a range.

use crate::range::PgRange;
use std::ops::{Bound, Range, RangeFrom, RangeInclusive, RangeTo, RangeToInclusive};
use vstd::prelude::*;
use vstd::std_specs::convert::FromSpecImpl;

verus! {

/// `std::ops::RangeFrom`, the interval `start..`.
#[verifier::external_type_specification]
pub struct ExRangeFrom<Idx>(RangeFrom<Idx>);

/// `std::ops::RangeTo`, the interval `..end`.
#[verifier::external_type_specification]
pub struct ExRangeTo<Idx>(RangeTo<Idx>);

/// `std::ops::RangeToInclusive`, the interval `..=end`.
#[verifier::external_type_specification]
pub struct ExRangeToInclusive<Idx>(RangeToInclusive<Idx>);

/// `RangeInclusive::into_inner`: the lower and the upper endpoint that the
/// interval was made with, in that order.
pub assume_specification<Idx>[ RangeInclusive::<Idx>::into_inner ](v: RangeInclusive<Idx>) -> (r: (
    Idx,
    Idx,
))
    ensures
        r.0 == v@.start,
        r.1 == v@.end,
;

/// std's conversion of a two-element array into a pair: the elements, in
/// their order.
pub assume_specification<Item>[ <(Item, Item) as std::convert::From<[Item; 2]>>::from ](
    v: [Item; 2],
) -> (r: (Item, Item))
    ensures
        r.0 == v[0],
        r.1 == v[1],
;

impl<T> From<[Bound<T>; 2]> for PgRange<T> {
    fn from(v: [Bound<T>; 2]) -> (r: Self) {
        let pair = <(Bound<T>, Bound<T>)>::from(v);
        PgRange { start: pair.0, end: pair.1 }
    }
}

impl<T> FromSpecImpl<[Bound<T>; 2]> for PgRange<T> {
    open spec fn obeys_from_spec() -> bool {
        true
    }

    open spec fn from_spec(v: [Bound<T>; 2]) -> Self {
        PgRange { start: v[0], end: v[1] }
    }
}

impl<T> From<RangeInclusive<T>> for PgRange<T> {
    fn from(v: RangeInclusive<T>) -> (r: Self) {
        let (start, end) = v.into_inner();
        PgRange { start: Bound::Included(start), end: Bound::Included(end) }
    }
}

impl<T> FromSpecImpl<RangeInclusive<T>> for PgRange<T> {
    open spec fn obeys_from_spec() -> bool {
        true
    }

    open spec fn from_spec(v: RangeInclusive<T>) -> Self {
        PgRange { start: Bound::Included(v@.start), end: Bound::Included(v@.end) }
    }
}

impl<T> From<(Bound<T>, Bound<T>)> for PgRange<T> {
    fn from(v: (Bound<T>, Bound<T>)) -> (r: Self) {
        PgRange { start: v.0, end: v.1 }
    }
}

impl<T> FromSpecImpl<(Bound<T>, Bound<T>)> for PgRange<T> {
    open spec fn obeys_from_spec() -> bool {
        true
    }

    open spec fn from_spec(v: (Bound<T>, Bound<T>)) -> Self {
        PgRange { start: v.0, end: v.1 }
    }
}

impl<T> From<Range<T>> for PgRange<T> {
    fn from(v: Range<T>) -> (r: Self) {
        PgRange { start: Bound::Included(v.start), end: Bound::Excluded(v.end) }
    }
}

impl<T> FromSpecImpl<Range<T>> for PgRange<T> {
    open spec fn obeys_from_spec() -> bool {
        true
    }

    open spec fn from_spec(v: Range<T>) -> Self {
        PgRange { start: Bound::Included(v.start), end: Bound::Excluded(v.end) }
    }
}

impl<T> From<RangeFrom<T>> for PgRange<T> {
    fn from(v: RangeFrom<T>) -> (r: Self) {
        PgRange { start: Bound::Included(v.start), end: Bound::Unbounded }
    }
}

impl<T> FromSpecImpl<RangeFrom<T>> for PgRange<T> {
    open spec fn obeys_from_spec() -> bool {
        true
    }

    open spec fn from_spec(v: RangeFrom<T>) -> Self {
        PgRange { start: Bound::Included(v.start), end: Bound::Unbounded }
    }
}

impl<T> From<RangeTo<T>> for PgRange<T> {
    fn from(v: RangeTo<T>) -> (r: Self) {
        PgRange { start: Bound::Unbounded, end: Bound::Excluded(v.end) }
    }
}

impl<T> FromSpecImpl<RangeTo<T>> for PgRange<T> {
    open spec fn obeys_from_spec() -> bool {
        true
    }

    open spec fn from_spec(v: RangeTo<T>) -> Self {
        PgRange { start: Bound::Unbounded, end: Bound::Excluded(v.end) }
    }
}

impl<T> From<RangeToInclusive<T>> for PgRange<T> {
    fn from(v: RangeToInclusive<T>) -> (r: Self) {
        PgRange { start: Bound::Unbounded, end: Bound::Included(v.end) }
    }
}

impl<T> FromSpecImpl<RangeToInclusive<T>> for PgRange<T> {
    open spec fn obeys_from_spec() -> bool {
        true
    }

    open spec fn from_spec(v: RangeToInclusive<T>) -> Self {
        PgRange { start: Bound::Unbounded, end: Bound::Included(v.end) }
    }
}

} // verus!
