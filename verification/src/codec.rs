//! The binary wire form of a range: one flag byte, then the lower value if
//! the lower side is bounded, then the upper value if the upper side is.

use crate::flags::{has_bits, RangeFlags, LB_INC, LB_INF, UB_INC, UB_INF};
use crate::range::PgRange;
use std::ops::Bound;
use vstd::prelude::*;
use vstd::slice::slice_subrange;

verus! {

/// Why an element could not be read from the front of some bytes.
#[derive(Debug, PartialEq, Eq)]
pub enum ElementDecodeError<E> {
    /// The bytes end before the value does.
    Truncated,
    /// The bytes are there but are not a value of the type.
    Invalid(E),
}

/// Why a range could not be read.
#[derive(Debug, PartialEq, Eq)]
pub enum DecodeError<E> {
    /// The bytes are empty, end too early, or go on after the range.
    Format,
    /// The element decoder refused a boundary value; its error, untouched.
    Element(E),
}

/// Whether an encoded value is SQL NULL. A range never is.
#[derive(Clone, Copy, Debug, PartialEq, Eq, Structural)]
pub enum IsNull {
    Yes,
    No,
}

/// An element type with a binary form of its own.
pub trait WireElement: Sized {
    /// What the element's own encoder and decoder fail with.
    type Error;

    /// The binary form of the value, or the error its encoder gives.
    spec fn wire(&self) -> Result<Seq<u8>, Self::Error>;

    /// What reading one value from the front of `bytes` gives: the value and
    /// the number of bytes it took.
    spec fn parse(bytes: Seq<u8>) -> Result<(Self, usize), ElementDecodeError<Self::Error>>;

    /// Reading never takes more bytes than there are.
    proof fn parse_in_bounds(bytes: Seq<u8>)
        ensures
            Self::parse(bytes) matches Ok((_, n)) ==> n <= bytes.len(),
    ;

    /// Reading what was written gives the value back and takes just the
    /// written bytes, whatever follows them.
    proof fn parse_of_wire(v: Self, rest: Seq<u8>)
        requires
            v.wire() is Ok,
            v.wire()->Ok_0.len() <= usize::MAX,
        ensures
            Self::parse(v.wire()->Ok_0 + rest) == Ok::<
                (Self, usize),
                ElementDecodeError<Self::Error>,
            >((v, v.wire()->Ok_0.len() as usize)),
    ;

    /// Appends the binary form of the value to `buf`, or fails and leaves
    /// `buf` as it was.
    fn encode_element(&self, buf: &mut Vec<u8>) -> (r: Result<(), Self::Error>)
        ensures
            match self.wire() {
                Ok(w) => r is Ok && final(buf)@ == old(buf)@ + w,
                Err(e) => r == Err::<(), Self::Error>(e) && final(buf)@ == old(buf)@,
            },
    ;

    /// Reads one value from the front of `bytes`.
    fn decode_element(bytes: &[u8]) -> (r: Result<(Self, usize), ElementDecodeError<Self::Error>>)
        ensures
            r == Self::parse(bytes@),
    ;
}

/// The bits that the lower bound contributes to the flag byte.
pub open spec fn lower_bits<T>(b: Bound<T>) -> u8 {
    match b {
        Bound::Included(_) => LB_INC,
        Bound::Excluded(_) => 0u8,
        Bound::Unbounded => LB_INF,
    }
}

/// The bits that the upper bound contributes to the flag byte.
pub open spec fn upper_bits<T>(b: Bound<T>) -> u8 {
    match b {
        Bound::Included(_) => UB_INC,
        Bound::Excluded(_) => 0u8,
        Bound::Unbounded => UB_INF,
    }
}

/// The flag byte of a range.
pub open spec fn flag_byte<T>(r: PgRange<T>) -> u8 {
    lower_bits(r.start) | upper_bits(r.end)
}

/// The binary form of what a bound carries: nothing for an unbounded side.
pub open spec fn bound_wire<T: WireElement>(b: Bound<T>) -> Result<Seq<u8>, T::Error> {
    match b {
        Bound::Included(v) => v.wire(),
        Bound::Excluded(v) => v.wire(),
        Bound::Unbounded => Ok(Seq::<u8>::empty()),
    }
}

/// The binary form of a range, or the error of the first boundary value
/// that does not encode.
pub open spec fn range_wire<T: WireElement>(r: PgRange<T>) -> Result<Seq<u8>, T::Error> {
    match bound_wire(r.start) {
        Err(e) => Err(e),
        Ok(lower) => match bound_wire(r.end) {
            Err(e) => Err(e),
            Ok(upper) => Ok(seq![flag_byte(r)] + lower + upper),
        },
    }
}

/// Computes the flag byte of a range from the shape of its two bounds.
pub fn range_flags<T>(r: &PgRange<T>) -> (f: RangeFlags)
    ensures
        f.bits == flag_byte(*r),
{
    let mut flags = RangeFlags::empty();
    match &r.start {
        Bound::Included(_) => flags.insert(RangeFlags::from_bits_truncate(LB_INC)),
        Bound::Excluded(_) => {},
        Bound::Unbounded => flags.insert(RangeFlags::from_bits_truncate(LB_INF)),
    }
    match &r.end {
        Bound::Included(_) => flags.insert(RangeFlags::from_bits_truncate(UB_INC)),
        Bound::Excluded(_) => {},
        Bound::Unbounded => flags.insert(RangeFlags::from_bits_truncate(UB_INF)),
    }
    proof {
        let a = lower_bits(r.start);
        let b = upper_bits(r.end);
        assert(0u8 | a == a) by (bit_vector);
        assert(a | 0u8 == a) by (bit_vector);
        assert(0u8 | b == b) by (bit_vector);
    }
    flags
}

/// What reading one side of a range from the front of `bytes` gives, and
/// the number of bytes it took. An infinite side takes none; a bounded side
/// is one element, included or excluded as the flag says.
pub open spec fn parse_bound<T: WireElement>(bytes: Seq<u8>, infinite: bool, inclusive: bool) -> Result<
    (Bound<T>, usize),
    DecodeError<T::Error>,
> {
    if infinite {
        Ok((Bound::Unbounded, 0usize))
    } else {
        match T::parse(bytes) {
            Ok((v, n)) => Ok((if inclusive { Bound::Included(v) } else { Bound::Excluded(v) }, n)),
            Err(ElementDecodeError::Truncated) => Err(DecodeError::Format),
            Err(ElementDecodeError::Invalid(e)) => Err(DecodeError::Element(e)),
        }
    }
}

/// What reading a range from the front of `bytes` gives, and the number of
/// bytes it took: the flag byte, then each bounded side in turn. The
/// empty-range bit and the reserved bits are not looked at.
pub open spec fn range_parse<T: WireElement>(bytes: Seq<u8>) -> Result<
    (PgRange<T>, usize),
    DecodeError<T::Error>,
> {
    if bytes.len() == 0 {
        Err(DecodeError::Format)
    } else {
        let f = bytes[0];
        match parse_bound::<T>(bytes.skip(1), has_bits(f, LB_INF), has_bits(f, LB_INC)) {
            Err(e) => Err(e),
            Ok((start, n)) => match parse_bound::<T>(
                bytes.skip(1 + n),
                has_bits(f, UB_INF),
                has_bits(f, UB_INC),
            ) {
                Err(e) => Err(e),
                Ok((end, m)) => Ok((PgRange { start, end }, (1 + n + m) as usize)),
            },
        }
    }
}

/// What reading a range from the whole of `bytes` gives: as `range_parse`,
/// except that bytes left over are a format error.
pub open spec fn range_decode<T: WireElement>(bytes: Seq<u8>) -> Result<
    PgRange<T>,
    DecodeError<T::Error>,
> {
    match range_parse::<T>(bytes) {
        Err(e) => Err(e),
        Ok((r, n)) => if n == bytes.len() {
            Ok(r)
        } else {
            Err(DecodeError::Format)
        },
    }
}

fn decode_bound<T: WireElement>(bytes: &[u8], infinite: bool, inclusive: bool) -> (r: Result<
    (Bound<T>, usize),
    DecodeError<T::Error>,
>)
    ensures
        r == parse_bound::<T>(bytes@, infinite, inclusive),
        r matches Ok((_, n)) ==> n <= bytes@.len(),
{
    if infinite {
        return Ok((Bound::Unbounded, 0));
    }
    proof {
        T::parse_in_bounds(bytes@);
    }
    match T::decode_element(bytes) {
        Ok((v, n)) => {
            if inclusive {
                Ok((Bound::Included(v), n))
            } else {
                Ok((Bound::Excluded(v), n))
            }
        },
        Err(ElementDecodeError::Truncated) => Err(DecodeError::Format),
        Err(ElementDecodeError::Invalid(e)) => Err(DecodeError::Element(e)),
    }
}

fn encode_bound<T: WireElement>(b: &Bound<T>, buf: &mut Vec<u8>) -> (r: Result<(), T::Error>)
    ensures
        match bound_wire(*b) {
            Ok(w) => r is Ok && final(buf)@ == old(buf)@ + w,
            Err(e) => r == Err::<(), T::Error>(e) && final(buf)@ == old(buf)@,
        },
{
    match b {
        Bound::Included(v) => v.encode_element(buf),
        Bound::Excluded(v) => v.encode_element(buf),
        Bound::Unbounded => Ok(()),
    }
}

impl<T: WireElement> PgRange<T> {
    /// Appends the binary form of the range to `buf` and reports that the
    /// value is not NULL. Fails only where a boundary value does not encode,
    /// with that error, and then leaves `buf` as it was.
    pub fn encode_by_ref(&self, buf: &mut Vec<u8>) -> (r: Result<IsNull, T::Error>)
        ensures
            match range_wire(*self) {
                Ok(w) => r == Ok::<IsNull, T::Error>(IsNull::No) && final(buf)@ == old(buf)@ + w,
                Err(e) => r == Err::<IsNull, T::Error>(e) && final(buf)@ == old(buf)@,
            },
    {
        let mark = buf.len();
        let flags = range_flags(self);
        buf.push(flags.bits());
        match encode_bound(&self.start, buf) {
            Err(e) => {
                buf.truncate(mark);
                assert(buf@ == old(buf)@);
                return Err(e);
            },
            Ok(()) => {},
        }
        match encode_bound(&self.end, buf) {
            Err(e) => {
                buf.truncate(mark);
                assert(buf@ == old(buf)@);
                return Err(e);
            },
            Ok(()) => {},
        }
        assert(buf@ == old(buf)@ + range_wire(*self)->Ok_0);
        Ok(IsNull::No)
    }

    /// Reads a range from the front of `bytes` and says how many bytes it
    /// took, so that a caller can go on behind it.
    pub fn decode_prefix(bytes: &[u8]) -> (r: Result<(Self, usize), DecodeError<T::Error>>)
        ensures
            r == range_parse::<T>(bytes@),
            r matches Ok((_, n)) ==> 1 <= n <= bytes@.len(),
    {
        if bytes.len() == 0 {
            return Err(DecodeError::Format);
        }
        let flags = RangeFlags::from_bits_truncate(bytes[0]);
        let lower_infinite = flags.contains(RangeFlags::from_bits_truncate(LB_INF));
        let lower_inclusive = flags.contains(RangeFlags::from_bits_truncate(LB_INC));
        let upper_infinite = flags.contains(RangeFlags::from_bits_truncate(UB_INF));
        let upper_inclusive = flags.contains(RangeFlags::from_bits_truncate(UB_INC));
        let tail = slice_subrange(bytes, 1, bytes.len());
        assert(tail@ == bytes@.skip(1));
        let (start, n) = match decode_bound::<T>(tail, lower_infinite, lower_inclusive) {
            Err(e) => {
                return Err(e);
            },
            Ok(pair) => pair,
        };
        let rest = slice_subrange(bytes, 1 + n, bytes.len());
        assert(rest@ == bytes@.skip(1 + n));
        let (end, m) = match decode_bound::<T>(rest, upper_infinite, upper_inclusive) {
            Err(e) => {
                return Err(e);
            },
            Ok(pair) => pair,
        };
        Ok((PgRange { start, end }, 1 + n + m))
    }

    /// Reads a range from the whole of `bytes`. Fails with a format error on
    /// empty input, on a value cut short and on bytes left over, and with
    /// the element decoder's own error where a boundary value is refused.
    pub fn decode(bytes: &[u8]) -> (r: Result<Self, DecodeError<T::Error>>)
        ensures
            r == range_decode::<T>(bytes@),
    {
        match Self::decode_prefix(bytes) {
            Err(e) => Err(e),
            Ok((range, n)) => {
                if n == bytes.len() {
                    Ok(range)
                } else {
                    Err(DecodeError::Format)
                }
            },
        }
    }
}

} // verus!
