//! Runtime channel handles of the typestate driver.

pub use crate::model::DriverId;
use crate::model::ChannelId;
use crate::DRIVER_MAX_CHANNELS;
use vstd::prelude::*;

verus! {

/// Opaque runtime channel handle returned from successful configuration.
///
/// It binds a logical `ChannelId` to one driver instance, so a handle cannot
/// be replayed on another driver.
#[derive(Copy, Clone, Debug, PartialEq, Eq, Structural)]
pub struct Channel {
    driver_id: DriverId,
    id: ChannelId,
}

impl Channel {
    /// Driver instance the handle belongs to.
    pub closed spec fn tag(self) -> DriverId {
        self.driver_id
    }

    /// Logical channel the handle names.
    pub closed spec fn logical(self) -> ChannelId {
        self.id
    }

    pub fn new(driver_id: DriverId, id: ChannelId) -> (r: Self)
        ensures
            r == spec_channel(driver_id, id),
    {
        Channel { driver_id, id }
    }

    /// The driver instance this handle belongs to.
    pub fn owner(self) -> (r: DriverId)
        ensures
            r == self.tag(),
    {
        self.driver_id
    }

    pub fn as_index(self) -> (r: usize)
        ensures
            r == self.logical().0,
    {
        self.id.as_index()
    }
}

/// The handle for logical channel `id` of driver `driver_id`.
pub closed spec fn spec_channel(driver_id: DriverId, id: ChannelId) -> Channel {
    Channel { driver_id, id }
}

pub proof fn lemma_spec_channel(driver_id: DriverId, id: ChannelId)
    ensures
        spec_channel(driver_id, id).tag() == driver_id,
        spec_channel(driver_id, id).logical() == id,
{
}

/// Handles of a configured driver, indexed by logical channel.
#[derive(Copy, Clone, Debug)]
pub struct ConfiguredChannels {
    entries: [Option<Channel>; DRIVER_MAX_CHANNELS],
}

impl ConfiguredChannels {
    /// Handle stored for logical channel `i`.
    pub closed spec fn entry(self, i: int) -> Option<Channel> {
        if 0 <= i < 8 {
            self.entries@[i]
        } else {
            None
        }
    }

    pub fn from_entries(entries: [Option<Channel>; DRIVER_MAX_CHANNELS]) -> (r: Self)
        ensures
            forall|i: int| 0 <= i < 8 ==> #[trigger] r.entry(i) == entries@[i],
    {
        ConfiguredChannels { entries }
    }

    pub fn get(&self, id: ChannelId) -> (r: Option<Channel>)
        ensures
            id.0 >= DRIVER_MAX_CHANNELS ==> r is None,
            r == self.entry(id.0 as int),
    {
        let index = id.as_index();
        if index < DRIVER_MAX_CHANNELS {
            self.entries[index]
        } else {
            None
        }
    }
}

} // verus!
