use super::{channel_state::ChannelState, error::EngineError, mask::ChannelMask};
use crate::bits::{lemma_mask_zero, mask_has};
use crate::DRIVER_MAX_CHANNELS;
use vstd::prelude::*;

verus! {

/// Whether slot `i` of a record array is occupied.
pub open spec fn slot_occupied(records: [Option<ChannelState>; DRIVER_MAX_CHANNELS], i: int) -> bool {
    0 <= i < 8 && records@[i] is Some
}

/// The mask whose bits are exactly the occupied slots.
pub open spec fn mask_of_records(records: [Option<ChannelState>; DRIVER_MAX_CHANNELS], bits: u32) -> bool {
    forall|i: u32| #[trigger] mask_has(bits, i) <==> slot_occupied(records, i as int)
}

/// Every record's wire byte count is three bytes per pixel, as
/// `ChannelState::new` sets it.
pub open spec fn records_consistent(records: [Option<ChannelState>; DRIVER_MAX_CHANNELS]) -> bool {
    forall|i: int|
        0 <= i < 8 && #[trigger] records@[i] is Some ==> records@[i]->Some_0.wire_byte_count
            == records@[i]->Some_0.pixel_count * 3
}

/// Registered channels, indexed by slot.
pub struct RegistrationTable {
    pub records: [Option<ChannelState>; DRIVER_MAX_CHANNELS],
    pub registered_mask: ChannelMask,
    pub count: usize,
}

impl RegistrationTable {
    /// The cached mask agrees with the occupied slots.
    pub open spec fn wf(&self) -> bool {
        mask_of_records(self.records, self.registered_mask.0)
    }

    pub fn new(records: [Option<ChannelState>; DRIVER_MAX_CHANNELS], count: usize) -> (r: Self)
        ensures
            r.wf(),
            r.records == records,
            r.count == count,
    {
        let mut mask = ChannelMask::from_bits(0);
        proof {
            assert forall|j: u32| !#[trigger] mask_has(0, j) by {
                lemma_mask_zero(j);
            }
        }
        let mut i: usize = 0;
        while i < DRIVER_MAX_CHANNELS
            invariant
                i <= 8,
                forall|j: u32| #[trigger]
                    mask_has(mask.0, j) <==> (j < i && slot_occupied(records, j as int)),
            decreases 8 - i,
        {
            if records[i].is_some() {
                mask = mask.union(ChannelMask::single(i));
            }
            i = i + 1;
        }
        RegistrationTable { records, registered_mask: mask, count }
    }

    pub fn record(&self, index: usize) -> (r: Result<&ChannelState, EngineError>)
        ensures
            slot_occupied(self.records, index as int) ==> (r matches Ok(s) && *s
                == self.records@[index as int]->Some_0),
            !slot_occupied(self.records, index as int) ==> r == Err::<&ChannelState, _>(
                EngineError::InvalidChannel,
            ),
    {
        if index < DRIVER_MAX_CHANNELS {
            match &self.records[index] {
                Some(s) => Ok(s),
                None => Err(EngineError::InvalidChannel),
            }
        } else {
            Err(EngineError::InvalidChannel)
        }
    }

    pub fn record_mut(&mut self, index: usize) -> (r: Result<&mut ChannelState, EngineError>)
        ensures
            slot_occupied(old(self).records, index as int) <==> r is Ok,
            r matches Ok(s) ==> {
                &&& *s == old(self).records@[index as int]->Some_0
                &&& final(self).records@ == old(self).records@.update(
                    index as int,
                    Some(*final(s)),
                )
                &&& final(self).registered_mask == old(self).registered_mask
                &&& final(self).count == old(self).count
            },
            r is Err ==> r == Err::<&mut ChannelState, _>(EngineError::InvalidChannel),
            r is Err ==> *final(self) == *old(self),
    {
        if index >= DRIVER_MAX_CHANNELS || self.records[index].is_none() {
            return Err(EngineError::InvalidChannel);
        }
        match &mut self.records[index] {
            Some(s) => Ok(s),
            None => Err(EngineError::InvalidChannel),
        }
    }

    pub fn registered_mask(&self) -> (r: ChannelMask)
        ensures
            r == self.registered_mask,
    {
        self.registered_mask
    }

    pub fn count(&self) -> (r: usize)
        ensures
            r == self.count,
    {
        self.count
    }
}

} // verus!
