//! What holds of the wire form for every range and every element type.

use crate::codec::{
    bound_wire, flag_byte, lower_bits, parse_bound, range_decode, range_parse, range_wire,
    upper_bits, DecodeError, ElementDecodeError, WireElement,
};
use crate::flags::{has_bits, CONTAIN_EMPTY, EMPTY, LB_INC, LB_INF, LB_NULL, UB_INC, UB_INF, UB_NULL};
use crate::range::PgRange;
use std::ops::Bound;
use vstd::prelude::*;

verus! {

/// The flag byte says of each side whether it is infinite and whether it is
/// included, and holds no other bit: never the empty-range bit, never a
/// reserved one.
pub proof fn lemma_flag_bits<T>(r: PgRange<T>)
    ensures
        has_bits(flag_byte(r), LB_INF) == (r.start is Unbounded),
        has_bits(flag_byte(r), LB_INC) == (r.start is Included),
        has_bits(flag_byte(r), UB_INF) == (r.end is Unbounded),
        has_bits(flag_byte(r), UB_INC) == (r.end is Included),
        flag_byte(r) & EMPTY == 0,
        flag_byte(r) & LB_NULL == 0,
        flag_byte(r) & UB_NULL == 0,
        flag_byte(r) & CONTAIN_EMPTY == 0,
{
    let a = lower_bits(r.start);
    let b = upper_bits(r.end);
    assert(a == 0x02u8 || a == 0x08u8 || a == 0u8);
    assert(b == 0x04u8 || b == 0x10u8 || b == 0u8);
    assert((a == 0x02u8 || a == 0x08u8 || a == 0u8) && (b == 0x04u8 || b == 0x10u8 || b == 0u8)
        ==> {
        &&& ((a | b) & 0x08u8 == 0x08u8) == (a == 0x08u8)
        &&& ((a | b) & 0x02u8 == 0x02u8) == (a == 0x02u8)
        &&& ((a | b) & 0x10u8 == 0x10u8) == (b == 0x10u8)
        &&& ((a | b) & 0x04u8 == 0x04u8) == (b == 0x04u8)
        &&& (a | b) & 0x01u8 == 0
        &&& (a | b) & 0x20u8 == 0
        &&& (a | b) & 0x40u8 == 0
        &&& (a | b) & 0x80u8 == 0
    }) by (bit_vector);
}

/// A range with no lower bound and an included upper bound is written as
/// the flag byte with just the upper-included and lower-infinite bits, and
/// then the one value.
pub proof fn lemma_wire_unbounded_to_included<T: WireElement>(x: T)
    requires
        x.wire() is Ok,
    ensures
        range_wire(PgRange { start: Bound::<T>::Unbounded, end: Bound::Included(x) }) == Ok::<
            Seq<u8>,
            T::Error,
        >(seq![0x0cu8] + x.wire()->Ok_0),
{
    assert(0x08u8 | 0x04u8 == 0x0cu8) by (bit_vector);
    let r = PgRange { start: Bound::<T>::Unbounded, end: Bound::Included(x) };
    assert(seq![flag_byte(r)] + Seq::<u8>::empty() + x.wire()->Ok_0 =~= seq![0x0cu8] + x.wire()->Ok_0);
}

/// The length of the wire form: one byte of flags, and the bytes of each
/// boundary value that is there.
pub proof fn lemma_wire_len<T: WireElement>(r: PgRange<T>)
    requires
        range_wire(r) is Ok,
    ensures
        bound_wire(r.start) is Ok,
        bound_wire(r.end) is Ok,
        range_wire(r)->Ok_0.len() == 1 + bound_wire(r.start)->Ok_0.len() + bound_wire(
            r.end,
        )->Ok_0.len(),
        r.start is Unbounded ==> bound_wire(r.start)->Ok_0.len() == 0,
        r.end is Unbounded ==> bound_wire(r.end)->Ok_0.len() == 0,
        range_wire(r)->Ok_0[0] == flag_byte(r),
{
}

/// Reading one side back: the bytes that a bound was written as, followed
/// by anything, give the bound again and take just those bytes.
proof fn lemma_parse_bound_of_wire<T: WireElement>(b: Bound<T>, rest: Seq<u8>)
    requires
        bound_wire(b) is Ok,
        bound_wire(b)->Ok_0.len() <= usize::MAX,
    ensures
        parse_bound::<T>(bound_wire(b)->Ok_0 + rest, b is Unbounded, b is Included) == Ok::<
            (Bound<T>, usize),
            DecodeError<T::Error>,
        >((b, bound_wire(b)->Ok_0.len() as usize)),
{
    match b {
        Bound::Included(v) => {
            T::parse_of_wire(v, rest);
        },
        Bound::Excluded(v) => {
            T::parse_of_wire(v, rest);
        },
        Bound::Unbounded => {},
    }
}

/// Reading the front of what was written, with anything behind it, gives the
/// range back and takes just the written bytes.
pub proof fn lemma_parse_of_wire<T: WireElement>(r: PgRange<T>, rest: Seq<u8>)
    requires
        range_wire(r) is Ok,
        range_wire(r)->Ok_0.len() <= usize::MAX,
    ensures
        range_parse::<T>(range_wire(r)->Ok_0 + rest) == Ok::<
            (PgRange<T>, usize),
            DecodeError<T::Error>,
        >((r, range_wire(r)->Ok_0.len() as usize)),
{
    let lower = bound_wire(r.start)->Ok_0;
    let upper = bound_wire(r.end)->Ok_0;
    let bytes = range_wire(r)->Ok_0 + rest;
    lemma_flag_bits(r);
    assert(bytes[0] == flag_byte(r));
    assert(bytes.skip(1) =~= lower + (upper + rest));
    lemma_parse_bound_of_wire(r.start, upper + rest);
    let n = lower.len() as usize;
    assert(bytes.skip(1 + n) =~= upper + rest);
    lemma_parse_bound_of_wire(r.end, rest);
}

/// Decoding what encoding wrote gives the range back: the same bounds, of
/// the same kind, around the same values.
pub proof fn lemma_decode_of_wire<T: WireElement>(r: PgRange<T>)
    requires
        range_wire(r) is Ok,
        range_wire(r)->Ok_0.len() <= usize::MAX,
    ensures
        range_decode::<T>(range_wire(r)->Ok_0) == Ok::<PgRange<T>, DecodeError<T::Error>>(r),
{
    lemma_parse_of_wire(r, Seq::<u8>::empty());
    assert(range_wire(r)->Ok_0 + Seq::<u8>::empty() =~= range_wire(r)->Ok_0);
}

/// Nothing can be read from no bytes.
pub proof fn lemma_decode_empty<T: WireElement>()
    ensures
        range_decode::<T>(Seq::<u8>::empty()) == Err::<PgRange<T>, DecodeError<T::Error>>(
            DecodeError::Format,
        ),
{
}

/// A flag byte that announces a lower value, with no byte behind it, is a
/// format error, for every element type that cannot be read from nothing.
pub proof fn lemma_decode_flags_alone<T: WireElement>(flags: u8)
    requires
        !has_bits(flags, LB_INF),
        T::parse(Seq::<u8>::empty()) == Err::<(T, usize), ElementDecodeError<T::Error>>(
            ElementDecodeError::Truncated,
        ),
    ensures
        range_decode::<T>(seq![flags]) == Err::<PgRange<T>, DecodeError<T::Error>>(
            DecodeError::Format,
        ),
{
    assert(seq![flags].skip(1) =~= Seq::<u8>::empty());
}

} // verus!
