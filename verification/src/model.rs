//! Plain value types shared by every layer of the driver.

use vstd::prelude::*;

verus! {

/// Order in which the three colour channels travel on the wire.
#[derive(Copy, Clone, Debug, PartialEq, Eq, Structural)]
pub enum PixelLayout {
    Grb,
    Rgb,
    Bgr,
    Rbg,
    Gbr,
    Brg,
}

/// One pixel with 16-bit linear red, green and blue components.
#[derive(Copy, Clone, Debug, PartialEq, Eq, Structural)]
pub struct Rgb48 {
    pub r: u16,
    pub g: u16,
    pub b: u16,
}

/// Per-channel frame counter; it wraps around at `u32::MAX`.
#[derive(Copy, Clone, Debug, PartialEq, Eq, Structural, PartialOrd, Ord, Hash)]
pub struct FrameEpoch(pub u32);

impl FrameEpoch {
    pub fn from_raw(raw: u32) -> (r: Self)
        ensures
            r.0 == raw,
    {
        FrameEpoch(raw)
    }

    pub fn as_u32(self) -> (r: u32)
        ensures
            r == self.0,
    {
        self.0
    }

    /// Advances the counter by `rhs` modulo 2^32.
    pub fn wrapping_add(self, rhs: u32) -> (r: Self)
        ensures
            r.0 == (self.0 + rhs) % 0x1_0000_0000,
    {
        FrameEpoch(self.0.wrapping_add(rhs))
    }
}

impl Default for FrameEpoch {
    fn default() -> (r: Self)
        ensures
            r.0 == 0,
    {
        FrameEpoch(0)
    }
}

/// Unchecked logical channel label.
///
/// Validity is contextual: a `ChannelId` may still be absent from a given
/// prepared setup or driver instance.
#[derive(Copy, Clone, Debug, PartialEq, Eq, Structural)]
pub struct ChannelId(pub u8);

impl ChannelId {
    /// Number of distinct logical channel labels.
    pub const CARDINALITY: usize = 256;

    pub fn new(raw: u8) -> (r: Self)
        ensures
            r.0 == raw,
    {
        ChannelId(raw)
    }

    /// Converts a logical channel index into a `ChannelId` when it fits in
    /// the identifier representation.
    pub fn from_index(index: usize) -> (r: Option<Self>)
        ensures
            r is Some <==> index < 256,
            r matches Some(id) ==> id.0 == index,
    {
        if index < Self::CARDINALITY {
            Some(ChannelId(index as u8))
        } else {
            None
        }
    }

    pub fn as_index(self) -> (r: usize)
        ensures
            r == self.0,
    {
        self.0 as usize
    }
}

/// Unchecked backend-owned channel label.
///
/// Validity is contextual and depends on the concrete backend instance.
#[derive(Copy, Clone, Debug, PartialEq, Eq, Structural, PartialOrd, Ord)]
pub struct BackendChannelId(pub u8);

impl BackendChannelId {
    /// Number of distinct backend channel labels.
    pub const CARDINALITY: usize = 256;

    pub fn new(raw: u8) -> (r: Self)
        ensures
            r.0 == raw,
    {
        BackendChannelId(raw)
    }

    pub fn as_index(self) -> (r: usize)
        ensures
            r == self.0,
    {
        self.0 as usize
    }
}

} // verus!

verus! {

/// Ownership tag of one driver instance; channel handles carry it so that
/// they cannot be replayed on another driver.
#[derive(Copy, Clone, Debug, PartialEq, Eq, Structural)]
pub struct DriverId(pub u32);

impl DriverId {
    pub fn new(raw: u32) -> (r: Self)
        ensures
            r.0 == raw,
    {
        DriverId(raw)
    }

    /// One step of handing out tags from a shared counter that reads
    /// `current`: the tag to hand out, never zero, and the value to store
    /// back, which wraps from `u32::MAX` to 1.
    pub fn claim_from(current: u32) -> (r: (DriverId, u32))
        ensures
            r.0.0 == spec_claimed_tag(current),
            r.0.0 != 0,
            r.1 == spec_next_counter(current),
            r.1 != 0,
    {
        let raw = if current == 0 { 1 } else { current };
        let next = match raw.checked_add(1) {
            Some(n) => n,
            None => 1,
        };
        (DriverId(raw), next)
    }
}

/// The tag handed out when the shared counter reads `current`.
pub open spec fn spec_claimed_tag(current: u32) -> u32 {
    if current == 0 {
        1
    } else {
        current
    }
}

/// The counter value stored back after a claim from `current`.
pub open spec fn spec_next_counter(current: u32) -> u32 {
    let t = spec_claimed_tag(current);
    if t == u32::MAX {
        1
    } else {
        (t + 1) as u32
    }
}

/// The counter after `k` successive claims starting from `current`.
pub open spec fn spec_counter_after(current: u32, k: nat) -> u32
    decreases k,
{
    if k == 0 {
        current
    } else {
        spec_next_counter(spec_counter_after(current, (k - 1) as nat))
    }
}

/// The tag the `k`-th of successive claims from `current` hands out
/// (counting from 0).
pub open spec fn spec_tag_at(current: u32, k: nat) -> u32 {
    spec_claimed_tag(spec_counter_after(current, k))
}

/// Successive claims hand out the tags 1 to `u32::MAX` in turn, starting
/// from the first claimed tag and wrapping back to 1.
proof fn lemma_tag_at(current: u32, k: nat)
    ensures
        spec_tag_at(current, k) == (spec_claimed_tag(current) - 1 + k) % 0xFFFF_FFFF + 1,
    decreases k,
{
    if k > 0 {
        lemma_tag_at(current, (k - 1) as nat);
        let a = spec_claimed_tag(current) - 1;
        assert(spec_counter_after(current, (k - 1) as nat) != 0 ==> spec_claimed_tag(
            spec_counter_after(current, (k - 1) as nat),
        ) == spec_counter_after(current, (k - 1) as nat));
        assert(((a + k - 1) % 0xFFFF_FFFF == 0xFFFF_FFFE ==> (a + k) % 0xFFFF_FFFF == 0) && (
        (a + k - 1) % 0xFFFF_FFFF != 0xFFFF_FFFE ==> (a + k) % 0xFFFF_FFFF == (a + k - 1)
            % 0xFFFF_FFFF + 1)) by (nonlinear_arith)
            requires
                a >= 0,
                k >= 1,
        ;
    }
}

/// Fewer than `u32::MAX` successive claims from one counter never hand out
/// the same tag twice, and never hand out zero.
pub proof fn law_claimed_tags_are_distinct(current: u32, i: nat, j: nat)
    requires
        i < j < u32::MAX,
    ensures
        spec_tag_at(current, i) != 0,
        spec_tag_at(current, i) != spec_tag_at(current, j),
{
    lemma_tag_at(current, i);
    lemma_tag_at(current, j);
    let a = spec_claimed_tag(current) - 1;
    assert((a + i) % 0xFFFF_FFFF != (a + j) % 0xFFFF_FFFF) by (nonlinear_arith)
        requires
            a >= 0,
            0 <= i < j < 0xFFFF_FFFF,
    ;
}

} // verus!
