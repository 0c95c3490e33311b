use crate::backend::BackendError;
pub use crate::driver::engine::error::BackendContractViolation;
use vstd::prelude::*;

verus! {

/// Lifecycle phase an engine entry point expected but did not find.
///
/// These are backstops: the public driver typestate keeps callers from ever
/// observing them.
#[derive(Copy, Clone, Debug, PartialEq, Eq, Structural)]
pub enum EngineStateExpectation {
    MustBeRegistering,
    MustBeReady,
}

/// Operational errors of the engine.
#[derive(Copy, Clone, Debug, PartialEq, Eq, Structural)]
pub enum EngineError {
    /// An entry point was reached in the wrong lifecycle phase.
    InvalidState(EngineStateExpectation),
    ChannelOutOfRange,
    ChannelNotRegistered,
    ChannelAlreadyRegistered,
    /// An engine-owned structural limit was exceeded.
    ConfigurationLimitExceeded,
    SourceLengthMismatch { expected_pixels: usize, actual_pixels: usize },
    WriteBusy,
    BackendContractViolation(BackendContractViolation),
    /// A genuine backend-owned failure.
    Backend(BackendError),
    /// A wire span names a null address for a non-empty buffer.
    InvalidWireSpan,
}

} // verus!
