//! The engine shares its channel mask with the driver runtime.

pub use crate::driver::engine::mask::ChannelMask;
