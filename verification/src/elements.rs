//! The binary forms of the built-in element types: big-endian integers and
//! the one-byte boolean.

use crate::codec::{ElementDecodeError, WireElement};
use std::convert::Infallible;
use vstd::prelude::*;

verus! {

/// The four bytes of a 32-bit word, most significant first.
pub open spec fn be_bytes_u32(x: u32) -> Seq<u8> {
    seq![(x >> 24) as u8, (x >> 16) as u8, (x >> 8) as u8, x as u8]
}

/// The 32-bit word that four bytes spell, most significant first.
pub open spec fn be_word_u32(b0: u8, b1: u8, b2: u8, b3: u8) -> u32 {
    (b0 as u32) << 24 | (b1 as u32) << 16 | (b2 as u32) << 8 | (b3 as u32)
}

pub(crate) proof fn lemma_be_u32(x: u32)
    ensures
        be_word_u32((x >> 24) as u8, (x >> 16) as u8, (x >> 8) as u8, x as u8) == x,
{
    assert(((x >> 24) as u8 as u32) << 24 | ((x >> 16) as u8 as u32) << 16 | ((x >> 8) as u8 as u32)
        << 8 | (x as u8 as u32) == x) by (bit_vector);
}

pub(crate) fn push_be_u32(x: u32, buf: &mut Vec<u8>)
    ensures
        final(buf)@ == old(buf)@ + be_bytes_u32(x),
{
    buf.push((x >> 24) as u8);
    buf.push((x >> 16) as u8);
    buf.push((x >> 8) as u8);
    buf.push(x as u8);
    assert(buf@ =~= old(buf)@ + be_bytes_u32(x));
}

pub(crate) fn read_be_u32(bytes: &[u8]) -> (x: u32)
    requires
        bytes@.len() >= 4,
    ensures
        x == be_word_u32(bytes@[0], bytes@[1], bytes@[2], bytes@[3]),
{
    (bytes[0] as u32) << 24 | (bytes[1] as u32) << 16 | (bytes[2] as u32) << 8 | (bytes[3] as u32)
}

impl WireElement for i32 {
    type Error = Infallible;

    open spec fn wire(&self) -> Result<Seq<u8>, Infallible> {
        Ok(be_bytes_u32(*self as u32))
    }

    open spec fn parse(bytes: Seq<u8>) -> Result<(Self, usize), ElementDecodeError<Infallible>> {
        if bytes.len() < 4 {
            Err(ElementDecodeError::Truncated)
        } else {
            Ok((be_word_u32(bytes[0], bytes[1], bytes[2], bytes[3]) as i32, 4usize))
        }
    }

    proof fn parse_in_bounds(bytes: Seq<u8>) {
    }

    proof fn parse_of_wire(v: Self, rest: Seq<u8>) {
        let u = v as u32;
        lemma_be_u32(u);
        assert(u as i32 == v) by (bit_vector)
            requires
                u == v as u32,
        ;
    }

    fn encode_element(&self, buf: &mut Vec<u8>) -> (r: Result<(), Infallible>) {
        push_be_u32(*self as u32, buf);
        Ok(())
    }

    fn decode_element(bytes: &[u8]) -> (r: Result<(Self, usize), ElementDecodeError<Infallible>>) {
        if bytes.len() < 4 {
            Err(ElementDecodeError::Truncated)
        } else {
            Ok((read_be_u32(bytes) as i32, 4))
        }
    }
}

/// The two bytes of a 16-bit word, most significant first.
pub open spec fn be_bytes_u16(x: u16) -> Seq<u8> {
    seq![(x >> 8) as u8, x as u8]
}

/// The 16-bit word that two bytes spell, most significant first.
pub open spec fn be_word_u16(b0: u8, b1: u8) -> u16 {
    (b0 as u16) << 8 | (b1 as u16)
}

proof fn lemma_be_u16(x: u16)
    ensures
        be_word_u16((x >> 8) as u8, x as u8) == x,
{
    assert(((x >> 8) as u8 as u16) << 8 | (x as u8 as u16) == x) by (bit_vector);
}

fn push_be_u16(x: u16, buf: &mut Vec<u8>)
    ensures
        final(buf)@ == old(buf)@ + be_bytes_u16(x),
{
    buf.push((x >> 8) as u8);
    buf.push(x as u8);
    assert(buf@ =~= old(buf)@ + be_bytes_u16(x));
}

fn read_be_u16(bytes: &[u8]) -> (x: u16)
    requires
        bytes@.len() >= 2,
    ensures
        x == be_word_u16(bytes@[0], bytes@[1]),
{
    (bytes[0] as u16) << 8 | (bytes[1] as u16)
}

impl WireElement for i16 {
    type Error = Infallible;

    open spec fn wire(&self) -> Result<Seq<u8>, Infallible> {
        Ok(be_bytes_u16(*self as u16))
    }

    open spec fn parse(bytes: Seq<u8>) -> Result<(Self, usize), ElementDecodeError<Infallible>> {
        if bytes.len() < 2 {
            Err(ElementDecodeError::Truncated)
        } else {
            Ok((be_word_u16(bytes[0], bytes[1]) as i16, 2usize))
        }
    }

    proof fn parse_in_bounds(bytes: Seq<u8>) {
    }

    proof fn parse_of_wire(v: Self, rest: Seq<u8>) {
        let u = v as u16;
        lemma_be_u16(u);
        assert(u as i16 == v) by (bit_vector)
            requires
                u == v as u16,
        ;
    }

    fn encode_element(&self, buf: &mut Vec<u8>) -> (r: Result<(), Infallible>) {
        push_be_u16(*self as u16, buf);
        Ok(())
    }

    fn decode_element(bytes: &[u8]) -> (r: Result<(Self, usize), ElementDecodeError<Infallible>>) {
        if bytes.len() < 2 {
            Err(ElementDecodeError::Truncated)
        } else {
            Ok((read_be_u16(bytes) as i16, 2))
        }
    }
}

/// The eight bytes of a 64-bit word, most significant first.
pub open spec fn be_bytes_u64(x: u64) -> Seq<u8> {
    be_bytes_u32((x >> 32) as u32) + be_bytes_u32(x as u32)
}

/// The 64-bit word that two 32-bit halves spell, the high half first.
pub open spec fn be_word_u64(high: u32, low: u32) -> u64 {
    (high as u64) << 32 | (low as u64)
}

pub(crate) proof fn lemma_be_u64(x: u64)
    ensures
        be_word_u64((x >> 32) as u32, x as u32) == x,
{
    assert(((x >> 32) as u32 as u64) << 32 | (x as u32 as u64) == x) by (bit_vector);
}

pub(crate) fn push_be_u64(x: u64, buf: &mut Vec<u8>)
    ensures
        final(buf)@ == old(buf)@ + be_bytes_u64(x),
{
    push_be_u32((x >> 32) as u32, buf);
    push_be_u32(x as u32, buf);
    assert(buf@ =~= old(buf)@ + be_bytes_u64(x));
}

/// The 64-bit word that the first eight of some bytes spell, most
/// significant first.
pub open spec fn be_word_u64_at(bytes: Seq<u8>) -> u64 {
    be_word_u64(
        be_word_u32(bytes[0], bytes[1], bytes[2], bytes[3]),
        be_word_u32(bytes[4], bytes[5], bytes[6], bytes[7]),
    )
}

pub(crate) proof fn lemma_be_u64_at(x: u64, rest: Seq<u8>)
    ensures
        be_word_u64_at(be_bytes_u64(x) + rest) == x,
{
    lemma_be_u64(x);
    lemma_be_u32((x >> 32) as u32);
    lemma_be_u32(x as u32);
}

pub(crate) fn read_be_u64(bytes: &[u8]) -> (x: u64)
    requires
        bytes@.len() >= 8,
    ensures
        x == be_word_u64_at(bytes@),
{
    let high = read_be_u32(bytes);
    let low = read_be_u32(vstd::slice::slice_subrange(bytes, 4, 8));
    (high as u64) << 32 | (low as u64)
}

impl WireElement for i64 {
    type Error = Infallible;

    open spec fn wire(&self) -> Result<Seq<u8>, Infallible> {
        Ok(be_bytes_u64(*self as u64))
    }

    open spec fn parse(bytes: Seq<u8>) -> Result<(Self, usize), ElementDecodeError<Infallible>> {
        if bytes.len() < 8 {
            Err(ElementDecodeError::Truncated)
        } else {
            Ok((be_word_u64_at(bytes) as i64, 8usize))
        }
    }

    proof fn parse_in_bounds(bytes: Seq<u8>) {
    }

    proof fn parse_of_wire(v: Self, rest: Seq<u8>) {
        let u = v as u64;
        lemma_be_u64_at(u, rest);
        assert(u as i64 == v) by (bit_vector)
            requires
                u == v as u64,
        ;
    }

    fn encode_element(&self, buf: &mut Vec<u8>) -> (r: Result<(), Infallible>) {
        push_be_u64(*self as u64, buf);
        Ok(())
    }

    fn decode_element(bytes: &[u8]) -> (r: Result<(Self, usize), ElementDecodeError<Infallible>>) {
        if bytes.len() < 8 {
            Err(ElementDecodeError::Truncated)
        } else {
            Ok((read_be_u64(bytes) as i64, 8))
        }
    }
}

impl WireElement for i8 {
    type Error = Infallible;

    open spec fn wire(&self) -> Result<Seq<u8>, Infallible> {
        Ok(seq![*self as u8])
    }

    open spec fn parse(bytes: Seq<u8>) -> Result<(Self, usize), ElementDecodeError<Infallible>> {
        if bytes.len() < 1 {
            Err(ElementDecodeError::Truncated)
        } else {
            Ok((bytes[0] as i8, 1usize))
        }
    }

    proof fn parse_in_bounds(bytes: Seq<u8>) {
    }

    proof fn parse_of_wire(v: Self, rest: Seq<u8>) {
        let u = v as u8;
        assert(u as i8 == v) by (bit_vector)
            requires
                u == v as u8,
        ;
    }

    fn encode_element(&self, buf: &mut Vec<u8>) -> (r: Result<(), Infallible>) {
        buf.push(*self as u8);
        assert(buf@ =~= old(buf)@ + seq![*self as u8]);
        Ok(())
    }

    fn decode_element(bytes: &[u8]) -> (r: Result<(Self, usize), ElementDecodeError<Infallible>>) {
        if bytes.len() < 1 {
            Err(ElementDecodeError::Truncated)
        } else {
            Ok((bytes[0] as i8, 1))
        }
    }
}

impl WireElement for bool {
    type Error = Infallible;

    open spec fn wire(&self) -> Result<Seq<u8>, Infallible> {
        Ok(seq![if *self { 1u8 } else { 0u8 }])
    }

    open spec fn parse(bytes: Seq<u8>) -> Result<(Self, usize), ElementDecodeError<Infallible>> {
        if bytes.len() < 1 {
            Err(ElementDecodeError::Truncated)
        } else {
            Ok((bytes[0] != 0, 1usize))
        }
    }

    proof fn parse_in_bounds(bytes: Seq<u8>) {
    }

    proof fn parse_of_wire(v: Self, rest: Seq<u8>) {
    }

    fn encode_element(&self, buf: &mut Vec<u8>) -> (r: Result<(), Infallible>) {
        buf.push(if *self { 1 } else { 0 });
        assert(buf@ =~= old(buf)@ + seq![if *self { 1u8 } else { 0u8 }]);
        Ok(())
    }

    fn decode_element(bytes: &[u8]) -> (r: Result<(Self, usize), ElementDecodeError<Infallible>>) {
        if bytes.len() < 1 {
            Err(ElementDecodeError::Truncated)
        } else {
            Ok((bytes[0] != 0, 1))
        }
    }
}

} // verus!
