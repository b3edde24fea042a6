//! Hit-sound bit flags.

use vstd::prelude::*;

verus! {

/// Bit flags naming the sounds played when an object is hit.
///
/// Bit 0 is the normal sound, bit 1 the whistle, bit 2 the finish and
/// bit 3 the clap; the upper four bits are never set.
#[derive(Debug, Clone, Copy, PartialEq, Eq, Structural, PartialOrd, Ord, Hash)]
pub struct HitSound {
    /// The raw flag bits, at most `0x0f`.
    pub bits: u8,
}

impl HitSound {
    /// The flag set with no sound at all.
    pub fn empty() -> (r: HitSound)
        ensures
            r.bits == 0,
    {
        HitSound { bits: 0 }
    }

    /// Keeps the four defined sound bits of a raw byte and drops the rest.
    pub fn from_bits_truncate(bits: u8) -> (r: HitSound)
        ensures
            r == (HitSound { bits: bits & 0x0f }),
    {
        HitSound { bits: bits & 0x0f }
    }

    /// The raw flag bits.
    pub fn bits(self) -> (r: u8)
        ensures
            r == self.bits,
    {
        self.bits
    }

    /// Whether every flag of `other` is also set in `self`.
    pub fn contains(self, other: HitSound) -> (r: bool)
        ensures
            r == (self.bits & other.bits == other.bits),
    {
        self.bits & other.bits == other.bits
    }
}

impl Default for HitSound {
    /// No sound flags at all.
    fn default() -> (r: Self)
        ensures
            r.bits == 0,
    {
        HitSound { bits: 0 }
    }
}

} // verus!
