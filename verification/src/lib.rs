//! Hardware-neutral LED output driver core.
//!
//! The library separates setup validation, runtime channel writes, backend
//! event ingress and wire-format packing. Every function here is verified
//! against its contract, except the thin wrappers in `bounded` around
//! `heapless::Vec`, whose contracts are trusted as stated there.

use vstd::prelude::*;

pub mod api;
pub mod backend;
pub mod bits;
pub mod bounded;
pub mod driver;
pub mod engine;
pub mod error;
pub mod host;
pub mod model;
pub mod pack;
pub mod setup;

pub use backend::{
    AcquireWrite, BackendCapabilities, BackendChannelSpec, BackendError, BackendEvent,
    BackendSignal, BackendWriteLease, LedBackend, StartTransfer,
};
pub use driver::{ChannelHandle, ChannelHandles, ChannelWriter, ConfiguringDriver, Driver};
pub use error::{ConfigureError, ServiceError, WriteError};
pub use model::{BackendChannelId, ChannelId, FrameEpoch, PixelLayout, Rgb48};
pub use pack::{pack_rgb48_active, PackError};
pub use setup::ChannelSetup;

verus! {

/// Fixed number of logical channel slots a driver instance can hold.
pub const DRIVER_MAX_CHANNELS: usize = 8;

} // verus!
