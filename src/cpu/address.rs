//! Little-endian addresses: a 16-bit word as a low byte and a high byte.
use vstd::prelude::*;

use crate::{Byte, Word};

verus! {

/// The word whose low byte is `lo` and whose high byte is `hi`.
pub open spec fn word_of(lo: u8, hi: u8) -> u16 {
    (hi as int * 256 + lo as int) as u16
}

/// The low byte of a word.
pub open spec fn low_of(w: u16) -> u8 {
    (w % 256) as u8
}

/// The high byte of a word.
pub open spec fn high_of(w: u16) -> u8 {
    (w / 256) as u8
}

/// The 6502 stores addresses in little-endian order: the least significant
/// byte first, the most significant byte second.
#[derive(Debug, Clone, Copy, PartialEq, Eq, Structural)]
pub enum Address {
    /// A zero-page address: the page is always 0.
    Zero(Byte),
    /// A full address: the byte within the page first, the page second.
    Full(Byte, Byte),
}

impl Address {
    /// The word this address denotes.
    pub open spec fn word(self) -> u16 {
        match self {
            Address::Zero(lo) => lo as u16,
            Address::Full(lo, hi) => word_of(lo, hi),
        }
    }

    /// The full address of a word.
    pub open spec fn split(w: u16) -> Address {
        Address::Full(low_of(w), high_of(w))
    }

    /// Combines the two bytes of this address into a word.
    pub fn to_word(self) -> (r: Word)
        ensures
            r == self.word(),
    {
        let (lo, hi) = match self {
            Address::Zero(lo) => (lo, 0u8),
            Address::Full(lo, hi) => (lo, hi),
        };
        let r: u16 = ((hi as u16) << 8u16) | (lo as u16);
        assert(((hi as u16) << 8u16) | (lo as u16) == (hi as int * 256 + lo as int) as u16)
            by (bit_vector);
        r
    }

    /// Splits a word into its low and high byte.
    pub fn from_word(w: Word) -> (r: Address)
        ensures
            r == Address::split(w),
    {
        let lo = (w & 0xFF) as u8;
        let hi = (w >> 8u16) as u8;
        assert((w & 0xFF) as u8 == (w % 256) as u8 && (w >> 8u16) as u8 == (w / 256) as u8)
            by (bit_vector);
        Address::Full(lo, hi)
    }
}

impl From<Address> for Word {
    fn from(value: Address) -> (r: Word) {
        value.to_word()
    }
}

impl vstd::std_specs::convert::FromSpecImpl<Address> for Word {
    open spec fn obeys_from_spec() -> bool {
        true
    }

    open spec fn from_spec(v: Address) -> Word {
        v.word()
    }
}

impl From<(Byte, Byte)> for Address {
    fn from(value: (Byte, Byte)) -> (r: Address) {
        Address::Full(value.0, value.1)
    }
}

impl vstd::std_specs::convert::FromSpecImpl<(Byte, Byte)> for Address {
    open spec fn obeys_from_spec() -> bool {
        true
    }

    open spec fn from_spec(v: (Byte, Byte)) -> Address {
        Address::Full(v.0, v.1)
    }
}

impl From<Word> for Address {
    fn from(value: Word) -> (r: Address) {
        Address::from_word(value)
    }
}

impl vstd::std_specs::convert::FromSpecImpl<Word> for Address {
    open spec fn obeys_from_spec() -> bool {
        true
    }

    open spec fn from_spec(v: Word) -> Address {
        Address::split(v)
    }
}

/// Splitting a word and combining its two bytes again gives the word back.
pub proof fn lemma_round_trip(w: Word)
    ensures
        Address::split(w).word() == w,
        word_of(low_of(w), high_of(w)) == w,
{
}

} // verus!
