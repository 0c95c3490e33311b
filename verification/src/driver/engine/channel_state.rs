use crate::model::{BackendChannelId, FrameEpoch, PixelLayout};
use vstd::prelude::*;

verus! {

/// Registration record of one configured channel.
#[derive(Copy, Clone, Debug, PartialEq, Eq, Structural)]
pub struct ChannelState {
    pub backend_channel: BackendChannelId,
    pub pixel_count: usize,
    pub layout: PixelLayout,
    /// Always `pixel_count * 3`: every pixel is three wire bytes.
    pub wire_byte_count: usize,
    pub frame_phase: FrameEpoch,
}

/// The record a freshly configured channel starts with.
pub open spec fn spec_channel_state(
    backend_channel: BackendChannelId,
    pixel_count: u16,
    layout: PixelLayout,
) -> ChannelState {
    ChannelState {
        backend_channel,
        pixel_count: pixel_count as usize,
        layout,
        wire_byte_count: (pixel_count * 3) as usize,
        frame_phase: FrameEpoch(0),
    }
}

/// `s` with its frame phase moved one frame on (wrapping).
pub open spec fn spec_advanced(s: ChannelState) -> ChannelState {
    ChannelState { frame_phase: FrameEpoch(((s.frame_phase.0 + 1) % 0x1_0000_0000) as u32), ..s }
}

impl ChannelState {
    pub fn new(backend_channel: BackendChannelId, pixel_count: u16, layout: PixelLayout) -> (r:
        Self)
        ensures
            r == spec_channel_state(backend_channel, pixel_count, layout),
    {
        ChannelState {
            backend_channel,
            pixel_count: pixel_count as usize,
            layout,
            wire_byte_count: (pixel_count as usize) * 3,
            frame_phase: FrameEpoch::from_raw(0),
        }
    }

    pub fn advance_phase(&mut self)
        ensures
            *final(self) == spec_advanced(*old(self)),
    {
        self.frame_phase = self.frame_phase.wrapping_add(1);
    }
}

} // verus!
