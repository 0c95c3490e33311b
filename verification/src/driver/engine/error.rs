use crate::backend::BackendError;
use vstd::prelude::*;

verus! {

/// Backend behaviour that breaks the driver/backend contract.
#[derive(Copy, Clone, Debug, PartialEq, Eq, Structural)]
pub enum BackendContractViolation {
    WrongChannelReturned,
    WrongTargetLength,
    TransferCompleteWhileIdle,
}

#[derive(Copy, Clone, Debug, PartialEq, Eq, Structural)]
pub enum EngineError {
    InvalidChannel,
    WriteBusy,
    Backend(BackendError),
    BackendContractViolation(BackendContractViolation),
    SourceLengthMismatch { expected_pixels: usize, actual_pixels: usize },
}

} // verus!
