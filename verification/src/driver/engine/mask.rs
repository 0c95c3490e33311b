//! Fixed-width set of channel slots.

use crate::bits::{lemma_mask_and_not, lemma_mask_or, lemma_mask_single, mask_has};
use vstd::prelude::*;

verus! {

#[derive(Copy, Clone, Debug, PartialEq, Eq, Structural)]
pub struct ChannelMask(pub u32);

impl ChannelMask {
    /// Number of channel slots a mask can describe.
    pub const CAPACITY_BITS: usize = 32;

    pub fn from_bits(bits: u32) -> (r: Self)
        ensures
            r.0 == bits,
    {
        ChannelMask(bits)
    }

    pub fn bits(self) -> (r: u32)
        ensures
            r == self.0,
    {
        self.0
    }

    /// A mask with exactly the bit at `index` set.
    pub fn single(index: usize) -> (r: Self)
        requires
            index < 32,
        ensures
            r.0 == 1u32 << index as u32,
            forall|i: u32| mask_has(r.0, i) <==> i == index,
    {
        proof {
            assert forall|i: u32| #[trigger] mask_has(1u32 << index as u32, i) <==> i == index by {
                lemma_mask_single(index as u32, i);
            }
        }
        ChannelMask(1u32 << index as u32)
    }

    pub fn union(self, other: Self) -> (r: Self)
        ensures
            r.0 == self.0 | other.0,
            forall|i: u32| mask_has(r.0, i) <==> mask_has(self.0, i) || mask_has(other.0, i),
    {
        proof {
            assert forall|i: u32|
                mask_has(self.0 | other.0, i) <==> mask_has(self.0, i) || mask_has(other.0, i) by {
                lemma_mask_or(self.0, other.0, i);
            }
        }
        ChannelMask(self.0 | other.0)
    }

    pub fn contains(self, index: usize) -> (r: bool)
        requires
            index < 32,
        ensures
            r == mask_has(self.0, index as u32),
    {
        self.0 & (1u32 << index as u32) != 0
    }

    pub fn is_empty(self) -> (r: bool)
        ensures
            r == (self.0 == 0),
    {
        self.0 == 0
    }

    /// The slots of `self` that are not in `other`.
    pub fn exclude(self, other: Self) -> (r: Self)
        ensures
            r.0 == self.0 & !other.0,
            forall|i: u32| mask_has(r.0, i) <==> mask_has(self.0, i) && !mask_has(other.0, i),
    {
        proof {
            assert forall|i: u32|
                mask_has(self.0 & !other.0, i) <==> mask_has(self.0, i) && !mask_has(
                    other.0,
                    i,
                ) by {
                lemma_mask_and_not(self.0, other.0, i);
            }
        }
        ChannelMask(self.0 & !other.0)
    }
}

} // verus!
