//! Projection of the engine's error vocabulary onto the public API.
//!
//! Each public boundary enumerates exactly the engine errors it can receive
//! (its `requires`); the remaining variants cannot reach that call site, and
//! the callers' proofs show it. `unexpected_engine_error` is the fallback for
//! those impossible arms.

use super::errors::{DriverInitError, RegisterError, RuntimeError};
use crate::backend::BackendError;
use crate::engine::EngineError;
use vstd::prelude::*;

verus! {

pub open spec fn expected_init_error(e: EngineError) -> bool {
    e is Backend
}

pub open spec fn expected_register_error(e: EngineError) -> bool {
    e is ChannelAlreadyRegistered || e is ChannelOutOfRange || e is ConfigurationLimitExceeded
        || e is BackendContractViolation || e is Backend
}

pub open spec fn spec_register_error(e: EngineError) -> RegisterError {
    match e {
        EngineError::ChannelAlreadyRegistered => RegisterError::DuplicateChannel,
        EngineError::Backend(BackendError::TransportFault { .. }) => RegisterError::Backend,
        _ => RegisterError::InvalidBinding,
    }
}

pub open spec fn expected_prepare_error(e: EngineError) -> bool {
    e is WriteBusy || e is ChannelOutOfRange || e is ChannelNotRegistered
        || e is BackendContractViolation || e is Backend
}

pub open spec fn expected_pack_error(e: EngineError) -> bool {
    e is SourceLengthMismatch || e is BackendContractViolation || e is Backend
}

/// Errors of publishing, marking published and committing.
pub open spec fn expected_channel_error(e: EngineError) -> bool {
    e is ChannelOutOfRange || e is ChannelNotRegistered || e is BackendContractViolation
        || e is Backend
}

pub open spec fn expected_service_error(e: EngineError) -> bool {
    e is BackendContractViolation || e is Backend
}

/// The public runtime error an expected engine error maps to.
pub open spec fn spec_runtime_error(e: EngineError) -> RuntimeError {
    match e {
        EngineError::WriteBusy => RuntimeError::Busy,
        EngineError::ChannelOutOfRange => RuntimeError::InvalidChannel,
        EngineError::ChannelNotRegistered => RuntimeError::InvalidChannel,
        EngineError::SourceLengthMismatch { .. } => RuntimeError::LengthMismatch,
        EngineError::BackendContractViolation(_) => RuntimeError::BackendContract,
        _ => RuntimeError::Backend,
    }
}

pub fn map_driver_init_error(err: EngineError) -> (r: DriverInitError)
    requires
        expected_init_error(err),
    ensures
        r == DriverInitError::Backend,
{
    match err {
        EngineError::Backend(_) => DriverInitError::Backend,
        EngineError::InvalidState(_)
        | EngineError::ChannelOutOfRange
        | EngineError::ChannelNotRegistered
        | EngineError::ChannelAlreadyRegistered
        | EngineError::ConfigurationLimitExceeded
        | EngineError::SourceLengthMismatch { .. }
        | EngineError::WriteBusy
        | EngineError::BackendContractViolation(_)
        | EngineError::InvalidWireSpan => unexpected_engine_error(
            "engine.init",
            err,
            DriverInitError::Backend,
        ),
    }
}

pub fn map_register_bind_error(err: EngineError) -> (r: RegisterError)
    requires
        expected_register_error(err),
    ensures
        r == spec_register_error(err),
{
    match err {
        EngineError::ChannelAlreadyRegistered => RegisterError::DuplicateChannel,
        EngineError::ChannelOutOfRange | EngineError::ConfigurationLimitExceeded => {
            RegisterError::InvalidBinding
        },
        EngineError::BackendContractViolation(_) => RegisterError::InvalidBinding,
        EngineError::Backend(BackendError::InvalidBinding) => RegisterError::InvalidBinding,
        EngineError::Backend(BackendError::TransportFault { .. }) => RegisterError::Backend,
        EngineError::InvalidState(_)
        | EngineError::ChannelNotRegistered
        | EngineError::SourceLengthMismatch { .. }
        | EngineError::WriteBusy
        | EngineError::InvalidWireSpan => unexpected_engine_error(
            "engine registration",
            err,
            RegisterError::Backend,
        ),
    }
}

/// Lifecycle state is checked before any write, duplicates and limits at
/// registration, and lengths while packing, so none of those reach here.
pub fn map_runtime_write_prepare_error(err: EngineError) -> (r: RuntimeError)
    requires
        expected_prepare_error(err),
    ensures
        r == spec_runtime_error(err),
{
    match err {
        EngineError::WriteBusy => RuntimeError::Busy,
        EngineError::ChannelOutOfRange | EngineError::ChannelNotRegistered => {
            RuntimeError::InvalidChannel
        },
        EngineError::BackendContractViolation(_) => RuntimeError::BackendContract,
        EngineError::Backend(_) => RuntimeError::Backend,
        EngineError::InvalidState(_)
        | EngineError::ChannelAlreadyRegistered
        | EngineError::ConfigurationLimitExceeded
        | EngineError::SourceLengthMismatch { .. }
        | EngineError::InvalidWireSpan => unexpected_engine_error(
            "engine.acquire_prepared_write",
            err,
            RuntimeError::Backend,
        ),
    }
}

pub fn map_runtime_write_pack_error(err: EngineError) -> (r: RuntimeError)
    requires
        expected_pack_error(err),
    ensures
        r == spec_runtime_error(err),
{
    match err {
        EngineError::SourceLengthMismatch { .. } => RuntimeError::LengthMismatch,
        EngineError::BackendContractViolation(_) => RuntimeError::BackendContract,
        EngineError::Backend(_) => RuntimeError::Backend,
        EngineError::InvalidState(_)
        | EngineError::ChannelOutOfRange
        | EngineError::ChannelNotRegistered
        | EngineError::ChannelAlreadyRegistered
        | EngineError::ConfigurationLimitExceeded
        | EngineError::WriteBusy
        | EngineError::InvalidWireSpan => unexpected_engine_error(
            "prepared_write.pack_rgb48_active",
            err,
            RuntimeError::Backend,
        ),
    }
}

pub fn map_runtime_write_publish_error(err: EngineError) -> (r: RuntimeError)
    requires
        expected_channel_error(err),
    ensures
        r == spec_runtime_error(err),
{
    match err {
        EngineError::ChannelOutOfRange | EngineError::ChannelNotRegistered => {
            RuntimeError::InvalidChannel
        },
        EngineError::BackendContractViolation(_) => RuntimeError::BackendContract,
        EngineError::Backend(_) => RuntimeError::Backend,
        EngineError::InvalidState(_)
        | EngineError::ChannelAlreadyRegistered
        | EngineError::ConfigurationLimitExceeded
        | EngineError::SourceLengthMismatch { .. }
        | EngineError::WriteBusy
        | EngineError::InvalidWireSpan => unexpected_engine_error(
            "prepared_write.publish",
            err,
            RuntimeError::Backend,
        ),
    }
}

pub fn map_runtime_mark_published_error(err: EngineError) -> (r: RuntimeError)
    requires
        expected_channel_error(err),
    ensures
        r == spec_runtime_error(err),
{
    match err {
        EngineError::ChannelOutOfRange | EngineError::ChannelNotRegistered => {
            RuntimeError::InvalidChannel
        },
        EngineError::BackendContractViolation(_) => RuntimeError::BackendContract,
        EngineError::Backend(_) => RuntimeError::Backend,
        EngineError::InvalidState(_)
        | EngineError::ChannelAlreadyRegistered
        | EngineError::ConfigurationLimitExceeded
        | EngineError::SourceLengthMismatch { .. }
        | EngineError::WriteBusy
        | EngineError::InvalidWireSpan => unexpected_engine_error(
            "engine.mark_channel_published",
            err,
            RuntimeError::Backend,
        ),
    }
}

pub fn map_runtime_commit_error(err: EngineError) -> (r: RuntimeError)
    requires
        expected_channel_error(err),
    ensures
        r == spec_runtime_error(err),
{
    match err {
        EngineError::ChannelOutOfRange | EngineError::ChannelNotRegistered => {
            RuntimeError::InvalidChannel
        },
        EngineError::BackendContractViolation(_) => RuntimeError::BackendContract,
        EngineError::Backend(_) => RuntimeError::Backend,
        EngineError::InvalidState(_)
        | EngineError::ChannelAlreadyRegistered
        | EngineError::ConfigurationLimitExceeded
        | EngineError::SourceLengthMismatch { .. }
        | EngineError::WriteBusy
        | EngineError::InvalidWireSpan => unexpected_engine_error(
            "engine.submit_dirty",
            err,
            RuntimeError::Backend,
        ),
    }
}

pub fn map_runtime_service_error(err: EngineError) -> (r: RuntimeError)
    requires
        expected_service_error(err),
    ensures
        r == spec_runtime_error(err),
{
    match err {
        EngineError::BackendContractViolation(_) => RuntimeError::BackendContract,
        EngineError::Backend(_) => RuntimeError::Backend,
        EngineError::InvalidState(_)
        | EngineError::ChannelOutOfRange
        | EngineError::ChannelNotRegistered
        | EngineError::ChannelAlreadyRegistered
        | EngineError::ConfigurationLimitExceeded
        | EngineError::SourceLengthMismatch { .. }
        | EngineError::WriteBusy
        | EngineError::InvalidWireSpan => unexpected_engine_error(
            "engine.service",
            err,
            RuntimeError::Backend,
        ),
    }
}

/// Fallback for an engine error that cannot reach the calling API path.
pub fn unexpected_engine_error<T>(operation: &str, err: EngineError, fallback: T) -> (r: T)
    ensures
        r == fallback,
{
    fallback
}

} // verus!
