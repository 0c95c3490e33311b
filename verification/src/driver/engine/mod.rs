//! Runtime state machine behind `Driver`.

pub mod channel_state;
pub mod error;
pub mod mask;
pub mod prepared_write;
pub mod registration;
pub mod runtime;

pub use error::{BackendContractViolation, EngineError};

use crate::backend::{AcquireWrite, BackendError, BackendWriteLease, LedBackend, StartTransfer};
use crate::model::BackendChannelId;
use crate::DRIVER_MAX_CHANNELS;
use prepared_write::PreparedWrite;
use registration::{records_consistent, slot_occupied, RegistrationTable};
use runtime::{spec_ready_initial, spec_surfaced, ReadyState};
use vstd::prelude::*;

verus! {

pub struct LedEngine<B: LedBackend> {
    pub backend: B,
    pub max_channels: usize,
    pub channels: RegistrationTable,
    pub ready: ReadyState,
    /// The backend's answer to the latest batch offered to it, if any.
    pub submit_answer: Ghost<Option<Result<StartTransfer, BackendError>>>,
}

/// The lease in the backend's answer to a write-target request, or the
/// error that answer means: a backend error is passed on and `Busy` means
/// no writable target right now.
pub fn lease_from_answer<L>(answer: Result<AcquireWrite<L>, BackendError>) -> (r: Result<
    L,
    EngineError,
>)
    ensures
        match answer {
            Err(e) => r == Err::<L, _>(EngineError::Backend(e)),
            Ok(AcquireWrite::Busy) => r == Err::<L, _>(EngineError::WriteBusy),
            Ok(AcquireWrite::Ready(lease)) => r == Ok::<L, EngineError>(lease),
        },
{
    match answer {
        Err(e) => Err(EngineError::Backend(e)),
        Ok(AcquireWrite::Busy) => Err(EngineError::WriteBusy),
        Ok(AcquireWrite::Ready(lease)) => Ok(lease),
    }
}

/// Checks that a lease names the channel it was requested for.
pub fn check_lease_channel(expected: BackendChannelId, returned: BackendChannelId) -> (r: Result<
    (),
    EngineError,
>)
    ensures
        returned == expected ==> r is Ok,
        returned != expected ==> r == Err::<(), _>(
            EngineError::BackendContractViolation(BackendContractViolation::WrongChannelReturned),
        ),
{
    if returned != expected {
        return Err(
            EngineError::BackendContractViolation(BackendContractViolation::WrongChannelReturned),
        );
    }
    Ok(())
}

/// Checks that a lease exposes exactly the channel's wire bytes.
pub fn check_lease_len(expected: usize, exposed: usize) -> (r: Result<(), EngineError>)
    ensures
        exposed == expected ==> r is Ok,
        exposed != expected ==> r == Err::<(), _>(
            EngineError::BackendContractViolation(BackendContractViolation::WrongTargetLength),
        ),
{
    if exposed != expected {
        return Err(
            EngineError::BackendContractViolation(BackendContractViolation::WrongTargetLength),
        );
    }
    Ok(())
}

impl<B: LedBackend> LedEngine<B> {
    pub open spec fn wf(&self) -> bool {
        &&& self.channels.wf()
        &&& self.max_channels <= DRIVER_MAX_CHANNELS
        &&& records_consistent(self.channels.records)
    }

    pub fn new(backend: B, max_channels: usize, channels: RegistrationTable) -> (r: Self)
        requires
            max_channels <= DRIVER_MAX_CHANNELS,
            channels.wf(),
            records_consistent(channels.records),
        ensures
            r.wf(),
            r.backend == backend,
            r.max_channels == max_channels,
            r.channels == channels,
            r.ready == spec_ready_initial(),
    {
        LedEngine { backend, max_channels, channels, ready: ReadyState::new(), submit_answer: Ghost(None) }
    }

    /// Acquires a backend write target for a registered channel and checks
    /// that the backend handed out the right channel with the right length.
    pub fn acquire_prepared_write(&mut self, channel_index: usize) -> (r: Result<
        PreparedWrite<'_, B>,
        EngineError,
    >)
        requires
            old(self).wf(),
        ensures
            final(self).channels == old(self).channels,
            final(self).max_channels == old(self).max_channels,
            final(self).ready == spec_surfaced(old(self).ready),
            old(self).ready.ingress_violation ==> r matches Err(
                EngineError::BackendContractViolation(
                    BackendContractViolation::TransferCompleteWhileIdle,
                ),
            ),
            !old(self).ready.ingress_violation && !slot_occupied(
                old(self).channels.records,
                channel_index as int,
            ) ==> r matches Err(EngineError::InvalidChannel),
            !old(self).ready.ingress_violation && slot_occupied(
                old(self).channels.records,
                channel_index as int,
            ) ==> match r {
                Ok(pw) => pw.layout == old(self).channels.records@[channel_index as int]->Some_0.layout
                    && pw.frame_phase == old(self).channels.records@[channel_index as int]->Some_0.frame_phase
                    && pw.wire_byte_count == old(self).channels.records@[channel_index as int]->Some_0.wire_byte_count,
                Err(e) => e is Backend || e is WriteBusy || e == EngineError::BackendContractViolation(
                    BackendContractViolation::WrongChannelReturned,
                ) || e == EngineError::BackendContractViolation(
                    BackendContractViolation::WrongTargetLength,
                ),
            },
    {
        self.surface_latched_violation()?;
        let channel = self.channels.record(channel_index)?;
        let (backend_channel, wire_byte_count, layout, frame_phase) = (
            channel.backend_channel,
            channel.wire_byte_count,
            channel.layout,
            channel.frame_phase,
        );
        let answer = self.backend.acquire_write_target(backend_channel);
        let mut lease = lease_from_answer(answer)?;
        check_lease_channel(backend_channel, lease.channel())?;
        check_lease_len(wire_byte_count, lease.bytes_mut().len())?;
        Ok(PreparedWrite { layout, frame_phase, wire_byte_count, lease, packed: Ghost(Seq::empty()) })
    }
}

} // verus!
