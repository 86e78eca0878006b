//! Element types that stand for what the wire carries of dates, times and
//! floating-point numbers: the integers that are written.

use crate::codec::{ElementDecodeError, WireElement};
use crate::elements::{
    be_bytes_u32, be_bytes_u64, be_word_u32, be_word_u64_at, lemma_be_u32, lemma_be_u64_at,
    push_be_u32, push_be_u64, read_be_u32, read_be_u64,
};
use crate::types::{ElementKind, ElementType};
use std::convert::Infallible;
use vstd::prelude::*;

verus! {

/// A calendar date, as days since 2000-01-01.
#[derive(Clone, Copy, Debug, PartialEq, Eq, Hash, Structural)]
pub struct Date {
    pub days: i32,
}

/// A time of day, as microseconds since midnight.
#[derive(Clone, Copy, Debug, PartialEq, Eq, Hash, Structural)]
pub struct Time {
    pub micros: i64,
}

/// A timestamp without time zone, as microseconds since 2000-01-01 00:00.
#[derive(Clone, Copy, Debug, PartialEq, Eq, Hash, Structural)]
pub struct Timestamp {
    pub micros: i64,
}

/// A timestamp with time zone, as microseconds since 2000-01-01 00:00 UTC.
#[derive(Clone, Copy, Debug, PartialEq, Eq, Hash, Structural)]
pub struct TimestampTz {
    pub micros: i64,
}

/// A single-precision number, as its IEEE 754 bit pattern.
#[derive(Clone, Copy, Debug, PartialEq, Eq, Hash, Structural)]
pub struct Float4 {
    pub bits: u32,
}

/// A double-precision number, as its IEEE 754 bit pattern.
#[derive(Clone, Copy, Debug, PartialEq, Eq, Hash, Structural)]
pub struct Float8 {
    pub bits: u64,
}

/// A number of microseconds that is no time of day.
#[derive(Clone, Copy, Debug, PartialEq, Eq, Hash, Structural)]
pub struct TimeOutOfRange {
    pub micros: i64,
}

/// The microseconds of a day. Midnight at the end of the day, 24:00:00, is
/// a time of day too.
pub const MICROS_PER_DAY: i64 = 86_400_000_000;

/// Whether a number of microseconds since midnight is a time of day.
pub open spec fn is_time_of_day(micros: i64) -> bool {
    0 <= micros <= MICROS_PER_DAY
}

impl WireElement for Date {
    type Error = Infallible;

    open spec fn wire(&self) -> Result<Seq<u8>, Infallible> {
        Ok(be_bytes_u32(self.days as u32))
    }

    open spec fn parse(bytes: Seq<u8>) -> Result<(Self, usize), ElementDecodeError<Infallible>> {
        if bytes.len() < 4 {
            Err(ElementDecodeError::Truncated)
        } else {
            Ok((Date { days: be_word_u32(bytes[0], bytes[1], bytes[2], bytes[3]) as i32 }, 4usize))
        }
    }

    proof fn parse_in_bounds(bytes: Seq<u8>) {
    }

    proof fn parse_of_wire(v: Self, rest: Seq<u8>) {
        <i32 as WireElement>::parse_of_wire(v.days, rest);
    }

    fn encode_element(&self, buf: &mut Vec<u8>) -> (r: Result<(), Infallible>) {
        push_be_u32(self.days as u32, buf);
        Ok(())
    }

    fn decode_element(bytes: &[u8]) -> (r: Result<(Self, usize), ElementDecodeError<Infallible>>) {
        if bytes.len() < 4 {
            Err(ElementDecodeError::Truncated)
        } else {
            Ok((Date { days: read_be_u32(bytes) as i32 }, 4))
        }
    }
}

impl WireElement for Timestamp {
    type Error = Infallible;

    open spec fn wire(&self) -> Result<Seq<u8>, Infallible> {
        Ok(be_bytes_u64(self.micros as u64))
    }

    open spec fn parse(bytes: Seq<u8>) -> Result<(Self, usize), ElementDecodeError<Infallible>> {
        if bytes.len() < 8 {
            Err(ElementDecodeError::Truncated)
        } else {
            Ok((Timestamp { micros: be_word_u64_at(bytes) as i64 }, 8usize))
        }
    }

    proof fn parse_in_bounds(bytes: Seq<u8>) {
    }

    proof fn parse_of_wire(v: Self, rest: Seq<u8>) {
        <i64 as WireElement>::parse_of_wire(v.micros, rest);
    }

    fn encode_element(&self, buf: &mut Vec<u8>) -> (r: Result<(), Infallible>) {
        push_be_u64(self.micros as u64, buf);
        Ok(())
    }

    fn decode_element(bytes: &[u8]) -> (r: Result<(Self, usize), ElementDecodeError<Infallible>>) {
        if bytes.len() < 8 {
            Err(ElementDecodeError::Truncated)
        } else {
            Ok((Timestamp { micros: read_be_u64(bytes) as i64 }, 8))
        }
    }
}

impl WireElement for TimestampTz {
    type Error = Infallible;

    open spec fn wire(&self) -> Result<Seq<u8>, Infallible> {
        Ok(be_bytes_u64(self.micros as u64))
    }

    open spec fn parse(bytes: Seq<u8>) -> Result<(Self, usize), ElementDecodeError<Infallible>> {
        if bytes.len() < 8 {
            Err(ElementDecodeError::Truncated)
        } else {
            Ok((TimestampTz { micros: be_word_u64_at(bytes) as i64 }, 8usize))
        }
    }

    proof fn parse_in_bounds(bytes: Seq<u8>) {
    }

    proof fn parse_of_wire(v: Self, rest: Seq<u8>) {
        <i64 as WireElement>::parse_of_wire(v.micros, rest);
    }

    fn encode_element(&self, buf: &mut Vec<u8>) -> (r: Result<(), Infallible>) {
        push_be_u64(self.micros as u64, buf);
        Ok(())
    }

    fn decode_element(bytes: &[u8]) -> (r: Result<(Self, usize), ElementDecodeError<Infallible>>) {
        if bytes.len() < 8 {
            Err(ElementDecodeError::Truncated)
        } else {
            Ok((TimestampTz { micros: read_be_u64(bytes) as i64 }, 8))
        }
    }
}

impl WireElement for Time {
    type Error = TimeOutOfRange;

    open spec fn wire(&self) -> Result<Seq<u8>, TimeOutOfRange> {
        if is_time_of_day(self.micros) {
            Ok(be_bytes_u64(self.micros as u64))
        } else {
            Err(TimeOutOfRange { micros: self.micros })
        }
    }

    open spec fn parse(bytes: Seq<u8>) -> Result<(Self, usize), ElementDecodeError<TimeOutOfRange>> {
        if bytes.len() < 8 {
            Err(ElementDecodeError::Truncated)
        } else {
            let micros = be_word_u64_at(bytes) as i64;
            if is_time_of_day(micros) {
                Ok((Time { micros }, 8usize))
            } else {
                Err(ElementDecodeError::Invalid(TimeOutOfRange { micros }))
            }
        }
    }

    proof fn parse_in_bounds(bytes: Seq<u8>) {
    }

    proof fn parse_of_wire(v: Self, rest: Seq<u8>) {
        <i64 as WireElement>::parse_of_wire(v.micros, rest);
    }

    fn encode_element(&self, buf: &mut Vec<u8>) -> (r: Result<(), TimeOutOfRange>) {
        if 0 <= self.micros && self.micros <= MICROS_PER_DAY {
            push_be_u64(self.micros as u64, buf);
            Ok(())
        } else {
            Err(TimeOutOfRange { micros: self.micros })
        }
    }

    fn decode_element(bytes: &[u8]) -> (r: Result<
        (Self, usize),
        ElementDecodeError<TimeOutOfRange>,
    >) {
        if bytes.len() < 8 {
            return Err(ElementDecodeError::Truncated);
        }
        let micros = read_be_u64(bytes) as i64;
        if 0 <= micros && micros <= MICROS_PER_DAY {
            Ok((Time { micros }, 8))
        } else {
            Err(ElementDecodeError::Invalid(TimeOutOfRange { micros }))
        }
    }
}

impl WireElement for Float4 {
    type Error = Infallible;

    open spec fn wire(&self) -> Result<Seq<u8>, Infallible> {
        Ok(be_bytes_u32(self.bits))
    }

    open spec fn parse(bytes: Seq<u8>) -> Result<(Self, usize), ElementDecodeError<Infallible>> {
        if bytes.len() < 4 {
            Err(ElementDecodeError::Truncated)
        } else {
            Ok((Float4 { bits: be_word_u32(bytes[0], bytes[1], bytes[2], bytes[3]) }, 4usize))
        }
    }

    proof fn parse_in_bounds(bytes: Seq<u8>) {
    }

    proof fn parse_of_wire(v: Self, rest: Seq<u8>) {
        lemma_be_u32(v.bits);
    }

    fn encode_element(&self, buf: &mut Vec<u8>) -> (r: Result<(), Infallible>) {
        push_be_u32(self.bits, buf);
        Ok(())
    }

    fn decode_element(bytes: &[u8]) -> (r: Result<(Self, usize), ElementDecodeError<Infallible>>) {
        if bytes.len() < 4 {
            Err(ElementDecodeError::Truncated)
        } else {
            Ok((Float4 { bits: read_be_u32(bytes) }, 4))
        }
    }
}

impl WireElement for Float8 {
    type Error = Infallible;

    open spec fn wire(&self) -> Result<Seq<u8>, Infallible> {
        Ok(be_bytes_u64(self.bits))
    }

    open spec fn parse(bytes: Seq<u8>) -> Result<(Self, usize), ElementDecodeError<Infallible>> {
        if bytes.len() < 8 {
            Err(ElementDecodeError::Truncated)
        } else {
            Ok((Float8 { bits: be_word_u64_at(bytes) }, 8usize))
        }
    }

    proof fn parse_in_bounds(bytes: Seq<u8>) {
    }

    proof fn parse_of_wire(v: Self, rest: Seq<u8>) {
        lemma_be_u64_at(v.bits, rest);
    }

    fn encode_element(&self, buf: &mut Vec<u8>) -> (r: Result<(), Infallible>) {
        push_be_u64(self.bits, buf);
        Ok(())
    }

    fn decode_element(bytes: &[u8]) -> (r: Result<(Self, usize), ElementDecodeError<Infallible>>) {
        if bytes.len() < 8 {
            Err(ElementDecodeError::Truncated)
        } else {
            Ok((Float8 { bits: read_be_u64(bytes) }, 8))
        }
    }
}

impl ElementType for Date {
    open spec fn element_kind() -> ElementKind {
        ElementKind::Date
    }

    fn kind() -> (k: ElementKind) {
        ElementKind::Date
    }
}

impl ElementType for Time {
    open spec fn element_kind() -> ElementKind {
        ElementKind::Time
    }

    fn kind() -> (k: ElementKind) {
        ElementKind::Time
    }
}

impl ElementType for Timestamp {
    open spec fn element_kind() -> ElementKind {
        ElementKind::Timestamp
    }

    fn kind() -> (k: ElementKind) {
        ElementKind::Timestamp
    }
}

impl ElementType for TimestampTz {
    open spec fn element_kind() -> ElementKind {
        ElementKind::TimestampTz
    }

    fn kind() -> (k: ElementKind) {
        ElementKind::TimestampTz
    }
}

impl ElementType for Float4 {
    open spec fn element_kind() -> ElementKind {
        ElementKind::Float4
    }

    fn kind() -> (k: ElementKind) {
        ElementKind::Float4
    }
}

impl ElementType for Float8 {
    open spec fn element_kind() -> ElementKind {
        ElementKind::Float8
    }

    fn kind() -> (k: ElementKind) {
        ElementKind::Float8
    }
}

} // verus!
