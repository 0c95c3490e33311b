//! Lifecycle of the engine; its runtime progression lives with `LedEngine`.

use super::error::{EngineError, EngineStateExpectation};
use crate::driver::engine::runtime::ReadyState;
use vstd::prelude::*;

verus! {

#[derive(Copy, Clone, Debug, PartialEq, Eq, Structural)]
pub enum EngineLifecycle {
    Uninitialized,
    Registering,
    Ready(ReadyState),
}

#[derive(Copy, Clone, Debug, PartialEq, Eq, Structural)]
pub struct EngineState {
    pub lifecycle: EngineLifecycle,
}

impl EngineState {
    pub fn new() -> (r: Self)
        ensures
            r.lifecycle is Uninitialized,
    {
        EngineState { lifecycle: EngineLifecycle::Uninitialized }
    }

    pub fn is_registering(&self) -> (r: bool)
        ensures
            r == self.lifecycle is Registering,
    {
        matches!(self.lifecycle, EngineLifecycle::Registering)
    }

    pub fn is_ready(&self) -> (r: bool)
        ensures
            r == self.lifecycle is Ready,
    {
        matches!(self.lifecycle, EngineLifecycle::Ready(_))
    }

    pub fn ready(&self) -> (r: Result<&ReadyState, EngineError>)
        ensures
            match self.lifecycle {
                EngineLifecycle::Ready(s) => r matches Ok(rs) && *rs == s,
                _ => r == Err::<&ReadyState, _>(
                    EngineError::InvalidState(EngineStateExpectation::MustBeReady),
                ),
            },
    {
        match &self.lifecycle {
            EngineLifecycle::Ready(state) => Ok(state),
            _ => Err(EngineError::InvalidState(EngineStateExpectation::MustBeReady)),
        }
    }

    pub fn ready_mut(&mut self) -> (r: Result<&mut ReadyState, EngineError>)
        ensures
            match old(self).lifecycle {
                EngineLifecycle::Ready(s) => r matches Ok(rs) && *rs == s
                    && final(self).lifecycle == EngineLifecycle::Ready(*final(rs)),
                _ => r == Err::<&mut ReadyState, _>(
                    EngineError::InvalidState(EngineStateExpectation::MustBeReady),
                ) && *final(self) == *old(self),
            },
    {
        if !self.is_ready() {
            return Err(EngineError::InvalidState(EngineStateExpectation::MustBeReady));
        }
        match &mut self.lifecycle {
            EngineLifecycle::Ready(state) => Ok(state),
            _ => Err(EngineError::InvalidState(EngineStateExpectation::MustBeReady)),
        }
    }
}

} // verus!

use super::error::BackendContractViolation;
use super::mask::ChannelMask;
use super::prepared_write::PreparedWrite;
use super::registration::{spec_advanced, spec_lookup, spec_registered_bits, ChannelState, RegistrationTable};
use super::LedEngine;
use crate::backend::{AcquireWrite, BackendError, BackendEvent, BackendSignal, BackendWriteLease, LedBackend, StartTransfer};
use crate::bits::mask_has;
use crate::model::BackendChannelId;
use crate::DRIVER_MAX_CHANNELS;
use crate::driver::engine::runtime::{spec_on_complete, spec_pending_batch, spec_marked, spec_promoted, spec_retired, spec_started, spec_surfaced, TransferState};

verus! {

/// `state` with a latched ingress violation cleared.
pub open spec fn spec_clear_violation(state: EngineState) -> EngineState {
    match state.lifecycle {
        EngineLifecycle::Ready(r) => EngineState {
            lifecycle: EngineLifecycle::Ready(spec_surfaced(r)),
        },
        _ => state,
    }
}

/// A ready engine state holding `r`.
pub open spec fn spec_ready_state(r: ReadyState) -> EngineState {
    EngineState { lifecycle: EngineLifecycle::Ready(r) }
}

/// `new` is `old` with exactly the slots below `max` that are in `batch`
/// moved one frame on.
pub open spec fn spec_records_advanced(
    old: Seq<Option<ChannelState>>,
    new: Seq<Option<ChannelState>>,
    batch: u32,
    max: usize,
) -> bool {
    &&& new.len() == old.len()
    &&& forall|i: int|
        0 <= i < old.len() ==> #[trigger] new[i] == if i < max && mask_has(batch, i as u32) {
            Some(spec_advanced(old[i]->Some_0))
        } else {
            old[i]
        }
}

/// What applying the backend's answer `outcome` to offering `batch` from
/// `ready` returns and leaves: `Started` moves the batch in flight and its
/// channels' frame phase on; `Busy` changes nothing and succeeds; an error
/// is passed on with nothing changed.
pub open spec fn spec_engine_outcome_applied(
    ready: ReadyState,
    records: Seq<Option<ChannelState>>,
    max: usize,
    batch: u32,
    outcome: Result<StartTransfer, BackendError>,
    r: Result<(), EngineError>,
    ready2: ReadyState,
    records2: Seq<Option<ChannelState>>,
) -> bool {
    match outcome {
        Err(e) => r == Err::<(), _>(EngineError::Backend(e)) && ready2 == ready && records2 == records,
        Ok(StartTransfer::Busy) => r is Ok && ready2 == ready && records2 == records,
        Ok(StartTransfer::Started) => r is Ok && ready2 == spec_started(ready, batch)
            && spec_records_advanced(records, records2, batch, max),
    }
}

/// What offering the pending batch from `ready` answers and leaves, given
/// the backend's recorded answer `answer` to that offer: with no batch
/// nothing changes; otherwise the answer is recorded and applied as
/// `spec_engine_outcome_applied` describes.
pub open spec fn spec_engine_answered(
    ready: ReadyState,
    records: Seq<Option<ChannelState>>,
    max: usize,
    answer: Option<Result<StartTransfer, BackendError>>,
    r: Result<(), EngineError>,
    ready2: ReadyState,
    records2: Seq<Option<ChannelState>>,
) -> bool {
    match spec_pending_batch(ready, spec_registered_bits(records, max)) {
        None => r is Ok && ready2 == ready && records2 == records,
        Some(batch) => answer matches Some(a) && spec_engine_outcome_applied(
            ready,
            records,
            max,
            batch,
            a,
            r,
            ready2,
            records2,
        ),
    }
}

/// What holds after offering the pending batch from `ready`: with no batch
/// nothing changes; otherwise the state follows the backend's answer, one
/// of the three outcomes `spec_engine_outcome_applied` describes (an error
/// passed on, busy, or started).
pub open spec fn spec_engine_submit_outcome(
    ready: ReadyState,
    records: Seq<Option<ChannelState>>,
    max: usize,
    r: Result<(), EngineError>,
    ready2: ReadyState,
    records2: Seq<Option<ChannelState>>,
) -> bool {
    match spec_pending_batch(ready, spec_registered_bits(records, max)) {
        None => r is Ok && ready2 == ready && records2 == records,
        Some(batch) => {
            ||| (r matches Err(EngineError::Backend(_)) && ready2 == ready && records2 == records)
            ||| (r is Ok && ready2 == ready && records2 == records)
            ||| (r is Ok && ready2 == spec_started(ready, batch) && spec_records_advanced(
                records,
                records2,
                batch,
                max,
            ))
        },
    }
}

/// The lease in the backend's answer to a write-target request, or the
/// error that answer means: a backend error is passed on and `Busy` means
/// no writable target right now.
pub fn lease_from_answer<L>(answer: Result<AcquireWrite<L>, BackendError>) -> (r: Result<
    L,
    EngineError,
>)
    ensures
        match answer {
            Err(e) => r == Err::<L, _>(EngineError::Backend(e)),
            Ok(AcquireWrite::Busy) => r == Err::<L, _>(EngineError::WriteBusy),
            Ok(AcquireWrite::Ready(lease)) => r == Ok::<L, EngineError>(lease),
        },
{
    match answer {
        Err(e) => Err(EngineError::Backend(e)),
        Ok(AcquireWrite::Busy) => Err(EngineError::WriteBusy),
        Ok(AcquireWrite::Ready(lease)) => Ok(lease),
    }
}

/// Checks that a lease names the channel it was requested for.
pub fn check_lease_channel(expected: BackendChannelId, returned: BackendChannelId) -> (r: Result<
    (),
    EngineError,
>)
    ensures
        returned == expected ==> r is Ok,
        returned != expected ==> r == Err::<(), _>(
            EngineError::BackendContractViolation(BackendContractViolation::WrongChannelReturned),
        ),
{
    if returned != expected {
        return Err(
            EngineError::BackendContractViolation(BackendContractViolation::WrongChannelReturned),
        );
    }
    Ok(())
}

/// Checks that a lease exposes exactly the channel's wire bytes.
pub fn check_lease_len(expected: usize, exposed: usize) -> (r: Result<(), EngineError>)
    ensures
        exposed == expected ==> r is Ok,
        exposed != expected ==> r == Err::<(), _>(
            EngineError::BackendContractViolation(BackendContractViolation::WrongTargetLength),
        ),
{
    if exposed != expected {
        return Err(
            EngineError::BackendContractViolation(BackendContractViolation::WrongTargetLength),
        );
    }
    Ok(())
}

impl<B: LedBackend> LedEngine<B> {
    /// The ready-state snapshot of a ready engine.
    pub open spec fn ready_view(&self) -> ReadyState {
        self.state.lifecycle->Ready_0
    }

    /// Reports a latched ingress violation once, clearing it. Ingress hooks
    /// stay infallible, so violations are kept and surfaced on the next
    /// runtime call.
    pub fn surface_latched_ingress_violation(&mut self) -> (r: Result<(), EngineError>)
        ensures
            final(self).state == spec_clear_violation(old(self).state),
            final(self).channels == old(self).channels,
            final(self).max_channels == old(self).max_channels,
            final(self).max_bytes_per_channel == old(self).max_bytes_per_channel,
            final(self).backend == old(self).backend,
            (old(self).state.lifecycle is Ready && old(self).ready_view().ingress_violation) ==> r
                == Err::<(), _>(
                EngineError::BackendContractViolation(
                    BackendContractViolation::TransferCompleteWhileIdle,
                ),
            ),
            !(old(self).state.lifecycle is Ready && old(self).ready_view().ingress_violation) ==> r is Ok,
    {
        let ready = match self.state.ready_mut() {
            Ok(ready) => ready,
            Err(_) => {
                return Ok(());
            },
        };
        if let Some(violation) = ready.take_ingress_violation() {
            return Err(EngineError::BackendContractViolation(violation));
        }
        Ok(())
    }

    /// Acquires a backend write target for a registered channel and checks
    /// the backend handed out the right channel with the right length.
    pub fn acquire_prepared_write(&mut self, channel_index: usize) -> (r: Result<
        PreparedWrite<'_, B>,
        EngineError,
    >)
        requires
            old(self).wf(),
        ensures
            final(self).state == spec_clear_violation(old(self).state),
            final(self).channels == old(self).channels,
            final(self).max_channels == old(self).max_channels,
            final(self).max_bytes_per_channel == old(self).max_bytes_per_channel,
            (old(self).state.lifecycle is Ready && old(self).ready_view().ingress_violation) ==> r
                matches Err(EngineError::BackendContractViolation(BackendContractViolation::TransferCompleteWhileIdle)),
            !(old(self).state.lifecycle is Ready && old(self).ready_view().ingress_violation) ==> match spec_lookup(
                old(self).channels.records@,
                channel_index,
                old(self).max_channels,
            ) {
                Err(e) => r matches Err(re) && re == e,
                Ok(rec) => match r {
                    Ok(pw) => pw.layout == rec.layout && pw.frame_phase == rec.frame_phase,
                    Err(e) => e is Backend || e is WriteBusy || e == EngineError::BackendContractViolation(
                        BackendContractViolation::WrongChannelReturned,
                    ) || e == EngineError::BackendContractViolation(
                        BackendContractViolation::WrongTargetLength,
                    ),
                },
            },
    {
        self.surface_latched_ingress_violation()?;
        let channel = self.channels.record(channel_index, self.max_channels())?;
        let answer = self.backend.acquire_write_target(channel.backend_channel);
        let mut lease = lease_from_answer(answer)?;
        check_lease_channel(channel.backend_channel, lease.channel())?;
        let expected_wire_bytes = match (channel.len_pixels as u32).checked_mul(3) {
            Some(w) => w,
            None => {
                return Err(EngineError::ConfigurationLimitExceeded);
            },
        };
        check_lease_len(expected_wire_bytes as usize, lease.bytes_mut().len())?;
        Ok(PreparedWrite { layout: channel.layout, frame_phase: channel.frame_phase, lease, packed: Ghost(Seq::empty()) })
    }

    /// Marks a registered channel's latest write as published.
    pub fn mark_channel_published(&mut self, channel_index: usize) -> (r: Result<(), EngineError>)
        requires
            old(self).wf(),
        ensures
            final(self).backend == old(self).backend,
            final(self).wf(),
            final(self).channels == old(self).channels,
            final(self).max_channels == old(self).max_channels,
            final(self).max_bytes_per_channel == old(self).max_bytes_per_channel,
            (old(self).state.lifecycle is Ready && old(self).ready_view().ingress_violation) ==> r
                == Err::<(), _>(EngineError::BackendContractViolation(
                BackendContractViolation::TransferCompleteWhileIdle,
            )) && final(self).state == spec_clear_violation(old(self).state),
            !(old(self).state.lifecycle is Ready && old(self).ready_view().ingress_violation) ==> match spec_lookup(
                old(self).channels.records@,
                channel_index,
                old(self).max_channels,
            ) {
                Err(e) => r == Err::<(), _>(e) && final(self).state == old(self).state,
                Ok(_) => if old(self).state.lifecycle is Ready {
                    r is Ok && final(self).state == spec_ready_state(spec_marked(old(self).ready_view(), channel_index))
                } else {
                    r == Err::<(), _>(EngineError::InvalidState(EngineStateExpectation::MustBeReady))
                        && final(self).state == old(self).state
                },
            },
    {
        self.surface_latched_ingress_violation()?;
        self.channels.record(channel_index, self.max_channels())?;
        let max_channels = self.max_channels();
        let ready = self.state.ready_mut()?;
        ready.dirty_mask = self.channels.mark_written(channel_index, max_channels, ready.dirty_mask)?;
        Ok(())
    }

    /// Promotes every dirty channel into the pending set.
    pub fn submit_dirty(&mut self) -> (r: Result<(), EngineError>)
        requires
            old(self).wf(),
        ensures
            final(self).backend == old(self).backend,
            final(self).wf(),
            final(self).channels == old(self).channels,
            final(self).max_channels == old(self).max_channels,
            final(self).max_bytes_per_channel == old(self).max_bytes_per_channel,
            !(old(self).state.lifecycle is Ready) ==> r == Err::<(), _>(
                EngineError::InvalidState(EngineStateExpectation::MustBeReady),
            ) && final(self).state == old(self).state,
            (old(self).state.lifecycle is Ready && old(self).ready_view().ingress_violation) ==> r
                == Err::<(), _>(EngineError::BackendContractViolation(
                BackendContractViolation::TransferCompleteWhileIdle,
            )) && final(self).state == spec_clear_violation(old(self).state),
            (old(self).state.lifecycle is Ready && !old(self).ready_view().ingress_violation) ==> r
                is Ok && final(self).state == spec_ready_state(spec_promoted(old(self).ready_view())),
    {
        self.surface_latched_ingress_violation()?;
        let dirty = self.state.ready()?.dirty_mask;
        if dirty.is_empty() {
            proof {
                let p = self.ready_view().pending_mask.0;
                assert(p | 0 == p) by (bit_vector);
            }
            return Ok(());
        }
        {
            let ready = self.state.ready_mut()?;
            ready.pending_mask = ChannelMask::from_bits(ready.pending_mask.bits() | dirty.bits());
            ready.dirty_mask = ChannelMask::from_bits(0);
        }
        Ok(())
    }

    /// Forwards a backend-private signal; engine state is untouched.
    pub fn on_backend_signal(&mut self, signal: BackendSignal)
        ensures
            final(self).state == old(self).state,
            final(self).channels == old(self).channels,
            final(self).max_channels == old(self).max_channels,
            final(self).max_bytes_per_channel == old(self).max_bytes_per_channel,
    {
        self.backend.on_signal(signal);
    }

    /// Records backend event ingress against the ready-state snapshot:
    /// completion while in flight marks it pending for `service`, completion
    /// while idle latches a contract violation.
    pub fn on_backend_event(&mut self, event: BackendEvent)
        ensures
            final(self).channels == old(self).channels,
            final(self).max_channels == old(self).max_channels,
            final(self).max_bytes_per_channel == old(self).max_bytes_per_channel,
            old(self).state.lifecycle is Ready ==> final(self).state == spec_ready_state(
                spec_on_complete(old(self).ready_view()),
            ),
            !(old(self).state.lifecycle is Ready) ==> final(self).state == old(self).state,
    {
        self.backend.on_event(event);
        if let Ok(ready) = self.state.ready_mut() {
            match event {
                BackendEvent::TransferComplete => {
                    if let TransferState::InFlight { submitted_mask, .. } = ready.transfer {
                        ready.transfer =
                        TransferState::InFlight { dma_complete_pending: true, submitted_mask };
                    } else {
                        ready.ingress_violation = true;
                    }
                },
            }
        }
    }

    /// Retires a finished transfer, then tries to start the pending batch.
    pub fn service(&mut self) -> (r: Result<(), EngineError>)
        requires
            old(self).wf(),
            old(self).state.lifecycle is Ready,
        ensures
            final(self).wf(),
            final(self).state.lifecycle is Ready,
            final(self).max_channels == old(self).max_channels,
            final(self).max_bytes_per_channel == old(self).max_bytes_per_channel,
            old(self).ready_view().ingress_violation ==> r == Err::<(), _>(
                EngineError::BackendContractViolation(
                    BackendContractViolation::TransferCompleteWhileIdle,
                ),
            ) && final(self).state == spec_clear_violation(old(self).state) && final(self).channels
                == old(self).channels,
            !old(self).ready_view().ingress_violation ==> spec_engine_submit_outcome(
                ReadyState { transfer: spec_retired(old(self).ready_view().transfer), ..old(self).ready_view() },
                old(self).channels.records@,
                old(self).max_channels,
                r,
                final(self).ready_view(),
                final(self).channels.records@,
            ),
            !old(self).ready_view().ingress_violation ==> spec_engine_answered(
                ReadyState { transfer: spec_retired(old(self).ready_view().transfer), ..old(self).ready_view() },
                old(self).channels.records@,
                old(self).max_channels,
                final(self).submit_answer@,
                r,
                final(self).ready_view(),
                final(self).channels.records@,
            ),
    {
        self.surface_latched_ingress_violation()?;
        self.complete_in_flight_if_ready()?;
        self.try_start_pending_submit()
    }

    /// Returns a finished in-flight transfer to idle.
    pub fn complete_in_flight_if_ready(&mut self) -> (r: Result<(), EngineError>)
        ensures
            r is Ok,
            final(self).channels == old(self).channels,
            final(self).max_channels == old(self).max_channels,
            final(self).max_bytes_per_channel == old(self).max_bytes_per_channel,
            final(self).backend == old(self).backend,
            old(self).state.lifecycle is Ready ==> final(self).state == spec_ready_state(ReadyState {
                transfer: spec_retired(old(self).ready_view().transfer),
                ..old(self).ready_view()
            }),
            !(old(self).state.lifecycle is Ready) ==> final(self).state == old(self).state,
    {
        let ready = match self.state.ready_mut() {
            Ok(ready) => ready,
            Err(_) => {
                return Ok(());
            },
        };
        if let TransferState::InFlight { dma_complete_pending: true, .. } = ready.transfer {
            ready.transfer = TransferState::Idle;
        }
        Ok(())
    }

    /// Offers exactly the pending registered batch to the backend, from idle
    /// only. `Busy` leaves it pending; `Started` moves the batch in flight
    /// and its channels' frame phase on.
    pub fn try_start_pending_submit(&mut self) -> (r: Result<(), EngineError>)
        requires
            old(self).wf(),
            old(self).state.lifecycle is Ready,
        ensures
            final(self).wf(),
            final(self).state.lifecycle is Ready,
            final(self).max_channels == old(self).max_channels,
            final(self).max_bytes_per_channel == old(self).max_bytes_per_channel,
            spec_engine_submit_outcome(
                old(self).ready_view(),
                old(self).channels.records@,
                old(self).max_channels,
                r,
                final(self).ready_view(),
                final(self).channels.records@,
            ),
            spec_engine_answered(
                old(self).ready_view(),
                old(self).channels.records@,
                old(self).max_channels,
                final(self).submit_answer@,
                r,
                final(self).ready_view(),
                final(self).channels.records@,
            ),
    {
        let max_channels = self.max_channels();
        self.state.ready()?;
        let pending_mask = match self.pending_batch() {
            Some(batch) => batch,
            None => {
                return Ok(());
            },
        };
        let outcome = self.backend.submit_channels(pending_mask.bits());
        let ghost ready0 = self.ready_view();
        let ghost records0 = self.channels.records@;
        let r = self.on_submit_outcome(pending_mask, outcome);
        self.submit_answer = Ghost(Some(outcome));
        proof {
            assert(ready0 == old(self).ready_view());
            assert(records0 == old(self).channels.records@);
            assert(spec_pending_batch(ready0, spec_registered_bits(records0, max_channels)) == Some(pending_mask.0));
            assert(spec_engine_outcome_applied(
                ready0,
                records0,
                max_channels,
                pending_mask.0,
                outcome,
                r,
                self.ready_view(),
                self.channels.records@,
            ));
            assert(spec_engine_submit_outcome(
                ready0,
                records0,
                max_channels,
                r,
                self.ready_view(),
                self.channels.records@,
            ));
        }
        r
    }

    /// The batch to offer the backend: the pending registered channels, and
    /// only from idle; `None` when there is nothing to offer.
    pub fn pending_batch(&self) -> (r: Option<ChannelMask>)
        requires
            self.wf(),
            self.state.lifecycle is Ready,
        ensures
            r == match spec_pending_batch(
                self.ready_view(),
                spec_registered_bits(self.channels.records@, self.max_channels),
            ) {
                Some(b) => Some(ChannelMask(b)),
                None => None::<ChannelMask>,
            },
    {
        let ready = match self.state.ready() {
            Ok(ready) => ready,
            Err(_) => {
                return None;
            },
        };
        if !matches!(ready.transfer, TransferState::Idle) {
            return None;
        }
        if ready.pending_mask.is_empty() {
            return None;
        }
        let registered = match self.channels.registered_channel_mask(self.max_channels()) {
            Ok(mask) => mask,
            Err(_) => {
                return None;
            },
        };
        let batch = ChannelMask::from_bits(ready.pending_mask.bits() & registered.bits());
        if batch.is_empty() {
            return None;
        }
        Some(batch)
    }

    /// Applies the backend's answer to offering `batch`, the pending
    /// registered channels: `Started` moves the batch in flight, out of the
    /// pending set, and its channels' frame phase on; `Busy` keeps
    /// everything for a retry; an error is passed on with nothing changed.
    pub fn on_submit_outcome(
        &mut self,
        batch: ChannelMask,
        outcome: Result<StartTransfer, BackendError>,
    ) -> (r: Result<(), EngineError>)
        requires
            old(self).wf(),
            old(self).state.lifecycle is Ready,
            spec_pending_batch(
                old(self).ready_view(),
                spec_registered_bits(old(self).channels.records@, old(self).max_channels),
            ) == Some(batch.0),
        ensures
            final(self).wf(),
            final(self).state.lifecycle is Ready,
            final(self).max_channels == old(self).max_channels,
            final(self).max_bytes_per_channel == old(self).max_bytes_per_channel,
            final(self).backend == old(self).backend,
            spec_engine_outcome_applied(
                old(self).ready_view(),
                old(self).channels.records@,
                old(self).max_channels,
                batch.0,
                outcome,
                r,
                final(self).ready_view(),
                final(self).channels.records@,
            ),
    {
        let max_channels = self.max_channels();
        let pending_mask = batch;
        let ghost start = self.channels.records@;
        proof {
            crate::engine::registration::lemma_registered_bits_exact(start, max_channels);
        }
        match outcome {
            Err(e) => Err(EngineError::Backend(e)),
            Ok(StartTransfer::Started) => {
                {
                    let ready = self.state.ready_mut()?;
                    ready.transfer =
                    TransferState::InFlight { dma_complete_pending: false, submitted_mask: pending_mask };
                    ready.pending_mask = ChannelMask::from_bits(
                        ready.pending_mask.bits() & !pending_mask.bits(),
                    );
                }
                let mut channel_index: usize = 0;
                while channel_index < max_channels
                    invariant
                        channel_index <= max_channels,
                        max_channels == self.max_channels,
                        self.wf(),
                        self.state.lifecycle is Ready,
                        self.ready_view() == spec_started(old(self).ready_view(), pending_mask.0),
                        self.max_bytes_per_channel == old(self).max_bytes_per_channel,
                        self.backend == old(self).backend,
                        start == old(self).channels.records@,
                        pending_mask.0 == old(self).ready_view().pending_mask.0 & spec_registered_bits(start, max_channels),
                        spec_pending_batch(old(self).ready_view(), spec_registered_bits(start, max_channels)) == Some(pending_mask.0),
                        forall|i: u32| #[trigger] mask_has(spec_registered_bits(start, max_channels), i) <==> (i < max_channels && i < DRIVER_MAX_CHANNELS && start[i as int] is Some),
                        spec_records_advanced(start, self.channels.records@, pending_mask.0, channel_index),
                    decreases max_channels - channel_index,
                {
                    let is_submitted = (pending_mask.bits() & (1u32 << channel_index as u32)) != 0;
                    if is_submitted {
                        proof {
                            crate::bits::lemma_mask_and(old(self).ready_view().pending_mask.0, spec_registered_bits(start, max_channels), channel_index as u32);
                        }
                        let advanced = self.channels.advance_phase(channel_index, max_channels);
                        if advanced.is_err() {
                            return advanced;
                        }
                    }
                    channel_index = channel_index + 1;
                }
                Ok(())
            },
            Ok(StartTransfer::Busy) => Ok(()),
        }
    }
}

} // verus!

verus! {

/// Frame phases of the registered channels move only when the backend
/// started a batch: an offer after which the engine is still idle leaves
/// its ready state and every channel record as they were.
pub proof fn law_engine_phases_move_only_on_start(
    ready: ReadyState,
    records: Seq<Option<ChannelState>>,
    max: usize,
    r: Result<(), EngineError>,
    ready2: ReadyState,
    records2: Seq<Option<ChannelState>>,
)
    requires
        spec_engine_submit_outcome(ready, records, max, r, ready2, records2),
        ready2.transfer is Idle,
    ensures
        ready2 == ready,
        records2 == records,
{
}

} // verus!
