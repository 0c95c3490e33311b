//! Errors of the configuring and runtime driver surface.

use crate::{backend::BackendError, model::BackendChannelId};
use vstd::prelude::*;

verus! {

#[derive(Copy, Clone, Debug, PartialEq, Eq, Structural)]
pub enum ConfigureError {
    NoChannels,
    TooManyChannels,
    DuplicateBackendChannel(BackendChannelId),
    ChannelTooLarge,
    Backend(BackendError),
}

#[derive(Copy, Clone, Debug, PartialEq, Eq, Structural)]
pub enum WriteError {
    InvalidChannel,
    Busy,
    Backend(BackendError),
    BackendContract,
    LengthMismatch { expected: usize, actual: usize },
}

#[derive(Copy, Clone, Debug, PartialEq, Eq, Structural)]
pub enum ServiceError {
    Backend(BackendError),
    BackendContract,
}

} // verus!
