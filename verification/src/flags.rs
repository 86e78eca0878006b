//! The flag byte that opens the wire form of a range.

use vstd::prelude::*;

verus! {

/// The range is empty. Never written by this crate.
pub const EMPTY: u8 = 0x01;

/// The lower bound is included.
pub const LB_INC: u8 = 0x02;

/// The upper bound is included.
pub const UB_INC: u8 = 0x04;

/// The lower bound is infinite: no lower value follows.
pub const LB_INF: u8 = 0x08;

/// The upper bound is infinite: no upper value follows.
pub const UB_INF: u8 = 0x10;

/// Reserved by the server; unused.
pub const LB_NULL: u8 = 0x20;

/// Reserved by the server; unused.
pub const UB_NULL: u8 = 0x40;

/// Internal to the server.
pub const CONTAIN_EMPTY: u8 = 0x80;

/// A set of the eight flag bits.
#[derive(Clone, Copy, Debug, PartialEq, Eq, Hash, Structural)]
pub struct RangeFlags {
    pub bits: u8,
}

/// Whether every bit of `mask` is set in `bits`.
pub open spec fn has_bits(bits: u8, mask: u8) -> bool {
    bits & mask == mask
}

impl RangeFlags {
    /// The set with no bit.
    pub fn empty() -> (r: Self)
        ensures
            r.bits == 0,
    {
        RangeFlags { bits: 0 }
    }

    /// The set of the bits of one byte. Every bit of a byte is a flag, so
    /// none is dropped.
    pub fn from_bits_truncate(bits: u8) -> (r: Self)
        ensures
            r.bits == bits,
    {
        RangeFlags { bits }
    }

    /// The set as a byte.
    pub fn bits(&self) -> (r: u8)
        ensures
            r == self.bits,
    {
        self.bits
    }

    /// Whether every bit of `other` is in this set.
    pub open spec fn has(self, other: RangeFlags) -> bool {
        has_bits(self.bits, other.bits)
    }

    /// Whether every bit of `other` is in this set.
    pub fn contains(&self, other: RangeFlags) -> (r: bool)
        ensures
            r == self.has(other),
    {
        self.bits & other.bits == other.bits
    }

    /// The bits of either set.
    pub fn union(self, other: RangeFlags) -> (r: Self)
        ensures
            r.bits == self.bits | other.bits,
    {
        RangeFlags { bits: self.bits | other.bits }
    }

    /// The bits of both sets.
    pub fn intersection(self, other: RangeFlags) -> (r: Self)
        ensures
            r.bits == self.bits & other.bits,
    {
        RangeFlags { bits: self.bits & other.bits }
    }

    /// Adds the bits of `other` to this set.
    pub fn insert(&mut self, other: RangeFlags)
        ensures
            final(self).bits == old(self).bits | other.bits,
    {
        self.bits = self.bits | other.bits;
    }
}

} // verus!
