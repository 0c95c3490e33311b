//! Caller-side description of one channel to configure.

use crate::model::{BackendChannelId, PixelLayout};
use vstd::prelude::*;

verus! {

#[derive(Copy, Clone, Debug, PartialEq, Eq, Structural)]
pub struct ChannelSetup {
    pub backend_channel: BackendChannelId,
    pub pixel_count: u16,
    pub layout: PixelLayout,
}

} // verus!
