//! Transfer progression of the driver engine.
//!
//! - published writes mark channels dirty;
//! - `submit_dirty` promotes the dirty set into the pending set;
//! - `service` first retires a completed transfer, then offers the pending
//!   registered channels to the backend from idle;
//! - only a batch the backend accepts (`StartTransfer::Started`) goes in
//!   flight, leaves the pending set and moves its channels' frame phase on;
//! - a completion reported while idle is latched and surfaced exactly once on
//!   the next runtime call.

use super::{
    channel_state::{spec_advanced, ChannelState},
    error::{BackendContractViolation, EngineError},
    mask::ChannelMask,
    registration::{slot_occupied, RegistrationTable},
    LedEngine,
};
use crate::backend::{BackendError, BackendEvent, BackendSignal, LedBackend, StartTransfer};
use crate::bits::{lemma_mask_and, lemma_mask_and_not, lemma_mask_or, lemma_mask_single, lemma_mask_zero, mask_has};
use crate::DRIVER_MAX_CHANNELS;
use vstd::prelude::*;

verus! {

#[derive(Copy, Clone, Debug, PartialEq, Eq, Structural)]
pub enum TransferState {
    Idle,
    InFlight { dma_complete_pending: bool, submitted_mask: ChannelMask },
}

#[derive(Copy, Clone, Debug, PartialEq, Eq, Structural)]
pub struct ReadyState {
    pub transfer: TransferState,
    pub dirty_mask: ChannelMask,
    pub pending_mask: ChannelMask,
    pub ingress_violation: bool,
}

pub open spec fn spec_ready_initial() -> ReadyState {
    ReadyState {
        transfer: TransferState::Idle,
        dirty_mask: ChannelMask(0),
        pending_mask: ChannelMask(0),
        ingress_violation: false,
    }
}

/// Ready state once its latched ingress violation has been surfaced.
pub open spec fn spec_surfaced(ready: ReadyState) -> ReadyState {
    ReadyState { ingress_violation: false, ..ready }
}

/// Ready state after channel `channel_index` published a write.
pub open spec fn spec_marked(ready: ReadyState, channel_index: usize) -> ReadyState {
    ReadyState {
        dirty_mask: ChannelMask(ready.dirty_mask.0 | (1u32 << channel_index as u32)),
        ..ready
    }
}

/// Ready state after a commit: every dirty channel joins the pending set.
pub open spec fn spec_promoted(ready: ReadyState) -> ReadyState {
    ReadyState {
        pending_mask: ChannelMask(ready.pending_mask.0 | ready.dirty_mask.0),
        dirty_mask: ChannelMask(0),
        ..ready
    }
}

/// Transfer state after a finished in-flight transfer has been retired.
pub open spec fn spec_retired(t: TransferState) -> TransferState {
    match t {
        TransferState::InFlight { dma_complete_pending: true, .. } => TransferState::Idle,
        _ => t,
    }
}

/// The batch `service` offers to the backend: the pending registered
/// channels, and only from idle.
pub open spec fn spec_pending_batch(ready: ReadyState, registered: u32) -> Option<u32> {
    if !(ready.transfer is Idle) {
        None
    } else if ready.pending_mask.0 == 0 {
        None
    } else if ready.pending_mask.0 & registered == 0 {
        None
    } else {
        Some(ready.pending_mask.0 & registered)
    }
}

/// `new` is `old` with exactly the slots below `max` that are in `batch`
/// moved one frame on.
pub open spec fn spec_phases_advanced(
    old: [Option<ChannelState>; DRIVER_MAX_CHANNELS],
    new: [Option<ChannelState>; DRIVER_MAX_CHANNELS],
    batch: u32,
    max: usize,
) -> bool {
    forall|i: int|
        0 <= i < 8 ==> #[trigger] new@[i] == if i < max && mask_has(batch, i as u32) {
            Some(spec_advanced(old@[i]->Some_0))
        } else {
            old@[i]
        }
}

/// Ready state right after the backend accepted `batch`.
pub open spec fn spec_started(ready: ReadyState, batch: u32) -> ReadyState {
    ReadyState {
        transfer: TransferState::InFlight {
            dma_complete_pending: false,
            submitted_mask: ChannelMask(batch),
        },
        pending_mask: ChannelMask(ready.pending_mask.0 & !batch),
        ..ready
    }
}

/// Ready state after a `TransferComplete` event.
pub open spec fn spec_on_complete(ready: ReadyState) -> ReadyState {
    match ready.transfer {
        TransferState::InFlight { submitted_mask, .. } => ReadyState {
            transfer: TransferState::InFlight { dma_complete_pending: true, submitted_mask },
            ..ready
        },
        TransferState::Idle => ReadyState { ingress_violation: true, ..ready },
    }
}

impl ReadyState {
    pub fn new() -> (r: Self)
        ensures
            r == spec_ready_initial(),
    {
        ReadyState {
            transfer: TransferState::Idle,
            dirty_mask: ChannelMask::from_bits(0),
            pending_mask: ChannelMask::from_bits(0),
            ingress_violation: false,
        }
    }

    /// Clears and returns the latched ingress violation, if any.
    pub fn take_ingress_violation(&mut self) -> (r: Option<BackendContractViolation>)
        ensures
            old(self).ingress_violation ==> r == Some(
                BackendContractViolation::TransferCompleteWhileIdle,
            ),
            !old(self).ingress_violation ==> r is None,
            *final(self) == spec_surfaced(*old(self)),
    {
        if self.ingress_violation {
            self.ingress_violation = false;
            Some(BackendContractViolation::TransferCompleteWhileIdle)
        } else {
            None
        }
    }
}

impl<B: LedBackend> LedEngine<B> {
    /// Reports a latched ingress violation once, clearing it.
    pub fn surface_latched_violation(&mut self) -> (r: Result<(), EngineError>)
        ensures
            old(self).ready.ingress_violation ==> r == Err::<(), _>(
                EngineError::BackendContractViolation(
                    BackendContractViolation::TransferCompleteWhileIdle,
                ),
            ),
            !old(self).ready.ingress_violation ==> r is Ok,
            final(self).ready == spec_surfaced(old(self).ready),
            final(self).channels == old(self).channels,
            final(self).max_channels == old(self).max_channels,
            final(self).backend == old(self).backend,
    {
        if let Some(violation) = self.ready.take_ingress_violation() {
            return Err(EngineError::BackendContractViolation(violation));
        }
        Ok(())
    }

    /// Forwards a backend-private signal; engine state is untouched.
    pub fn on_backend_signal(&mut self, signal: BackendSignal)
        ensures
            final(self).ready == old(self).ready,
            final(self).channels == old(self).channels,
            final(self).max_channels == old(self).max_channels,
    {
        self.backend.on_signal(signal);
    }

    /// Forwards a backend event and records its meaning for the runtime.
    pub fn on_backend_event(&mut self, event: BackendEvent)
        ensures
            final(self).ready == spec_on_complete(old(self).ready),
            final(self).channels == old(self).channels,
            final(self).max_channels == old(self).max_channels,
    {
        self.backend.on_event(event);
        match event {
            BackendEvent::TransferComplete => match self.ready.transfer {
                TransferState::InFlight { submitted_mask, .. } => {
                    self.ready.transfer =
                    TransferState::InFlight { dma_complete_pending: true, submitted_mask };
                },
                TransferState::Idle => {
                    self.ready.ingress_violation = true;
                },
            },
        }
    }

    /// Marks a registered channel's latest write as published.
    pub fn mark_channel_published(&mut self, channel_index: usize) -> (r: Result<(), EngineError>)
        requires
            old(self).wf(),
        ensures
            final(self).backend == old(self).backend,
            final(self).wf(),
            final(self).channels == old(self).channels,
            final(self).max_channels == old(self).max_channels,
            old(self).ready.ingress_violation ==> r == Err::<(), _>(
                EngineError::BackendContractViolation(
                    BackendContractViolation::TransferCompleteWhileIdle,
                ),
            ) && final(self).ready == spec_surfaced(old(self).ready),
            !old(self).ready.ingress_violation && !slot_occupied(
                old(self).channels.records,
                channel_index as int,
            ) ==> r == Err::<(), _>(EngineError::InvalidChannel) && final(self).ready == old(
                self,
            ).ready,
            !old(self).ready.ingress_violation && slot_occupied(
                old(self).channels.records,
                channel_index as int,
            ) ==> r is Ok && final(self).ready == spec_marked(old(self).ready, channel_index),
    {
        self.surface_latched_violation()?;
        self.channels.record(channel_index)?;
        self.ready.dirty_mask = self.ready.dirty_mask.union(ChannelMask::single(channel_index));
        Ok(())
    }

    /// Promotes every dirty channel into the pending set.
    pub fn submit_dirty(&mut self) -> (r: Result<(), EngineError>)
        requires
            old(self).wf(),
        ensures
            final(self).backend == old(self).backend,
            final(self).wf(),
            final(self).channels == old(self).channels,
            final(self).max_channels == old(self).max_channels,
            old(self).ready.ingress_violation ==> r == Err::<(), _>(
                EngineError::BackendContractViolation(
                    BackendContractViolation::TransferCompleteWhileIdle,
                ),
            ) && final(self).ready == spec_surfaced(old(self).ready),
            !old(self).ready.ingress_violation ==> r is Ok && final(self).ready == spec_promoted(old(self).ready),
    {
        self.surface_latched_violation()?;
        let dirty = self.ready.dirty_mask;
        if dirty.is_empty() {
            assert(self.ready.pending_mask.0 | 0 == self.ready.pending_mask.0) by (bit_vector);
            return Ok(());
        }
        self.ready.pending_mask = self.ready.pending_mask.union(dirty);
        self.ready.dirty_mask = ChannelMask::from_bits(0);
        Ok(())
    }

    /// Retires a finished transfer, then tries to start the pending batch.
    pub fn service(&mut self) -> (r: Result<(), EngineError>)
        requires
            old(self).wf(),
        ensures
            final(self).wf(),
            final(self).max_channels == old(self).max_channels,
            old(self).ready.ingress_violation ==> r == Err::<(), _>(
                EngineError::BackendContractViolation(
                    BackendContractViolation::TransferCompleteWhileIdle,
                ),
            ) && final(self).ready == spec_surfaced(old(self).ready) && final(self).channels == old(self).channels,
            !old(self).ready.ingress_violation ==> {
                let retired = ReadyState {
                    transfer: spec_retired(old(self).ready.transfer),
                    ..old(self).ready
                };
                &&& Self::spec_submit_outcome(
                    retired,
                    old(self).channels,
                    old(self).max_channels,
                    r,
                    final(self).ready,
                    final(self).channels,
                )
                &&& spec_pending_batch(retired, old(self).channels.registered_mask.0) matches Some(
                    batch,
                ) ==> final(self).submit_answer@ matches Some(answer) && Self::spec_outcome_applied(
                    retired,
                    old(self).channels,
                    old(self).max_channels,
                    batch,
                    answer,
                    r,
                    final(self).ready,
                    final(self).channels,
                )
            },
    {
        self.surface_latched_violation()?;
        self.complete_in_flight_if_ready();
        self.try_start_pending_submit()
    }

    /// Returns a finished in-flight transfer to idle.
    pub fn complete_in_flight_if_ready(&mut self)
        ensures
            final(self).ready == (ReadyState {
                transfer: spec_retired(old(self).ready.transfer),
                ..old(self).ready
            }),
            final(self).channels == old(self).channels,
            final(self).max_channels == old(self).max_channels,
            final(self).backend == old(self).backend,
    {
        if let TransferState::InFlight { dma_complete_pending: true, .. } = self.ready.transfer {
            self.ready.transfer = TransferState::Idle;
        }
    }

    /// The batch to offer to the backend, if any.
    pub fn compute_pending_batch(&self) -> (r: Option<ChannelMask>)
        ensures
            r == match spec_pending_batch(self.ready, self.channels.registered_mask.0) {
                Some(b) => Some(ChannelMask(b)),
                None => None,
            },
    {
        if !matches!(self.ready.transfer, TransferState::Idle) {
            return None;
        }
        if self.ready.pending_mask.is_empty() {
            return None;
        }
        let valid = ChannelMask::from_bits(
            self.ready.pending_mask.bits() & self.channels.registered_mask().bits(),
        );
        if valid.is_empty() {
            None
        } else {
            Some(valid)
        }
    }

    /// Bookkeeping after the backend accepted `submitted`.
    pub fn on_submit_started(&mut self, submitted: ChannelMask) -> (r: Result<(), EngineError>)
        requires
            old(self).wf(),
            submitted.0 & old(self).channels.registered_mask.0 == submitted.0,
        ensures
            r is Ok,
            final(self).wf(),
            final(self).ready == spec_started(old(self).ready, submitted.0),
            spec_phases_advanced(
                old(self).channels.records,
                final(self).channels.records,
                submitted.0,
                old(self).max_channels,
            ),
            final(self).channels.registered_mask == old(self).channels.registered_mask,
            final(self).channels.count == old(self).channels.count,
            final(self).max_channels == old(self).max_channels,
            final(self).backend == old(self).backend,
    {
        self.ready.transfer =
        TransferState::InFlight { dma_complete_pending: false, submitted_mask: submitted };
        self.ready.pending_mask = self.ready.pending_mask.exclude(submitted);
        let ghost start = self.channels.records;
        let max = self.max_channels;
        let mut idx: usize = 0;
        while idx < max
            invariant
                idx <= max,
                max == self.max_channels,
                self.wf(),
                self.ready == spec_started(old(self).ready, submitted.0),
                submitted.0 & self.channels.registered_mask.0 == submitted.0,
                self.channels.registered_mask == old(self).channels.registered_mask,
                self.channels.count == old(self).channels.count,
                self.backend == old(self).backend,
                start == old(self).channels.records,
                spec_phases_advanced(start, self.channels.records, submitted.0, idx as usize),
            decreases max - idx,
        {
            if submitted.contains(idx) {
                proof {
                    crate::bits::lemma_mask_and(submitted.0, self.channels.registered_mask.0, idx as u32);
                }
                let rec = self.channels.record_mut(idx)?;
                rec.advance_phase();
            }
            idx = idx + 1;
        }
        Ok(())
    }

    /// What applying the backend's answer `outcome` to offering `batch` from
    /// `ready` returns and leaves: `Started` moves the batch in flight and
    /// its channels' frame phase on; `Busy` changes nothing and succeeds; an
    /// error is passed on with nothing changed.
    pub open spec fn spec_outcome_applied(
        ready: ReadyState,
        channels: super::registration::RegistrationTable,
        max: usize,
        batch: u32,
        outcome: Result<StartTransfer, BackendError>,
        r: Result<(), EngineError>,
        ready2: ReadyState,
        channels2: super::registration::RegistrationTable,
    ) -> bool {
        match outcome {
            Err(e) => r == Err::<(), _>(EngineError::Backend(e)) && ready2 == ready && channels2
                == channels,
            Ok(StartTransfer::Busy) => r is Ok && ready2 == ready && channels2 == channels,
            Ok(StartTransfer::Started) => r is Ok && ready2 == spec_started(ready, batch)
                && spec_phases_advanced(channels.records, channels2.records, batch, max)
                && channels2.registered_mask == channels.registered_mask && channels2.count
                == channels.count,
        }
    }

    /// What holds after offering the pending batch from `ready`: with no
    /// batch nothing changes; otherwise the state follows the backend's
    /// answer, one of the three outcomes `spec_outcome_applied` describes
    /// (an error passed on, busy, or started).
    pub open spec fn spec_submit_outcome(
        ready: ReadyState,
        channels: super::registration::RegistrationTable,
        max: usize,
        r: Result<(), EngineError>,
        ready2: ReadyState,
        channels2: super::registration::RegistrationTable,
    ) -> bool {
        match spec_pending_batch(ready, channels.registered_mask.0) {
            None => r is Ok && ready2 == ready && channels2 == channels,
            Some(batch) => {
                ||| (r matches Err(EngineError::Backend(_)) && ready2 == ready && channels2
                    == channels)
                ||| (r is Ok && ready2 == ready && channels2 == channels)
                ||| (r is Ok && ready2 == spec_started(ready, batch) && spec_phases_advanced(
                    channels.records,
                    channels2.records,
                    batch,
                    max,
                ) && channels2.registered_mask == channels.registered_mask && channels2.count
                    == channels.count)
            },
        }
    }

    /// Offers the pending batch to the backend when idle.
    pub fn try_start_pending_submit(&mut self) -> (r: Result<(), EngineError>)
        requires
            old(self).wf(),
        ensures
            final(self).wf(),
            final(self).max_channels == old(self).max_channels,
            Self::spec_submit_outcome(
                old(self).ready,
                old(self).channels,
                old(self).max_channels,
                r,
                final(self).ready,
                final(self).channels,
            ),
            spec_pending_batch(old(self).ready, old(self).channels.registered_mask.0) matches Some(
                batch,
            ) ==> final(self).submit_answer@ matches Some(answer) && Self::spec_outcome_applied(
                old(self).ready,
                old(self).channels,
                old(self).max_channels,
                batch,
                answer,
                r,
                final(self).ready,
                final(self).channels,
            ),
    {
        let pending = match self.compute_pending_batch() {
            Some(p) => p,
            None => {
                return Ok(());
            },
        };
        proof {
            let reg = self.channels.registered_mask.0;
            let p = self.ready.pending_mask.0;
            assert((p & reg) & reg == p & reg) by (bit_vector);
        }
        let outcome = self.backend.submit_channels(pending.bits());
        let r = self.on_submit_outcome(pending, outcome);
        self.submit_answer = Ghost(Some(outcome));
        r
    }

    /// Applies the backend's answer to offering `batch`, the pending
    /// registered channels: `Started` moves the batch in flight, out of the
    /// pending set, and its channels' frame phase on; `Busy` keeps
    /// everything for a retry; an error is passed on with nothing changed.
    pub fn on_submit_outcome(
        &mut self,
        batch: ChannelMask,
        outcome: Result<StartTransfer, BackendError>,
    ) -> (r: Result<(), EngineError>)
        requires
            old(self).wf(),
            spec_pending_batch(old(self).ready, old(self).channels.registered_mask.0) == Some(
                batch.0,
            ),
        ensures
            final(self).wf(),
            final(self).max_channels == old(self).max_channels,
            final(self).backend == old(self).backend,
            Self::spec_outcome_applied(
                old(self).ready,
                old(self).channels,
                old(self).max_channels,
                batch.0,
                outcome,
                r,
                final(self).ready,
                final(self).channels,
            ),
    {
        proof {
            let reg = self.channels.registered_mask.0;
            let p = self.ready.pending_mask.0;
            assert((p & reg) & reg == p & reg) by (bit_vector);
        }
        match outcome {
            Err(e) => Err(EngineError::Backend(e)),
            Ok(StartTransfer::Started) => self.on_submit_started(batch),
            Ok(StartTransfer::Busy) => Ok(()),
        }
    }
}

} // verus!

verus! {

/// A registered channel whose write is published and then committed on an
/// idle driver is part of the batch the next service offers.
pub proof fn law_published_channel_is_offered(
    ready: ReadyState,
    registered: u32,
    channel_index: usize,
)
    requires
        ready.transfer is Idle,
        channel_index < DRIVER_MAX_CHANNELS,
        mask_has(registered, channel_index as u32),
    ensures
        spec_pending_batch(spec_promoted(spec_marked(ready, channel_index)), registered) matches Some(
            batch,
        ) && mask_has(batch, channel_index as u32),
{
    let i = channel_index as u32;
    let p = spec_promoted(spec_marked(ready, channel_index)).pending_mask.0;
    lemma_mask_single(i, i);
    lemma_mask_or(ready.dirty_mask.0, 1u32 << i, i);
    lemma_mask_or(ready.pending_mask.0, ready.dirty_mask.0 | (1u32 << i), i);
    lemma_mask_and(p, registered, i);
    lemma_mask_zero(i);
}

/// The batch service offers is exactly the pending registered channels,
/// and it is only ever offered from idle.
pub proof fn law_offered_batch_is_pending_and_registered(ready: ReadyState, registered: u32, i: u32)
    requires
        spec_pending_batch(ready, registered) is Some,
    ensures
        ready.transfer is Idle,
        mask_has(spec_pending_batch(ready, registered)->Some_0, i) == (mask_has(
            ready.pending_mask.0,
            i,
        ) && mask_has(registered, i)),
{
    lemma_mask_and(ready.pending_mask.0, registered, i);
}

/// An accepted batch goes in flight as it is and leaves the pending set;
/// every other pending channel stays pending and the dirty set is kept.
pub proof fn law_started_batch_leaves_pending(ready: ReadyState, batch: u32, i: u32)
    ensures
        mask_has(spec_started(ready, batch).pending_mask.0, i) == (mask_has(
            ready.pending_mask.0,
            i,
        ) && !mask_has(batch, i)),
        spec_started(ready, batch).transfer == (TransferState::InFlight {
            dma_complete_pending: false,
            submitted_mask: ChannelMask(batch),
        }),
        spec_started(ready, batch).dirty_mask == ready.dirty_mask,
        spec_started(ready, batch).ingress_violation == ready.ingress_violation,
{
    lemma_mask_and_not(ready.pending_mask.0, batch, i);
}

/// A transfer stays in flight until its completion is reported; once it is,
/// the next service retires it, and the report raises no violation.
pub proof fn law_completion_retires_in_flight(ready: ReadyState)
    requires
        ready.transfer is InFlight,
    ensures
        !ready.transfer->dma_complete_pending ==> spec_retired(ready.transfer) == ready.transfer,
        spec_retired(spec_on_complete(ready).transfer) is Idle,
        spec_on_complete(ready).ingress_violation == ready.ingress_violation,
        spec_on_complete(ready).pending_mask == ready.pending_mask,
        spec_on_complete(ready).dirty_mask == ready.dirty_mask,
{
}

/// A completion reported while idle is latched as a violation and changes
/// nothing else; surfacing it once clears it, so it is reported only once.
pub proof fn law_idle_completion_latched_once(ready: ReadyState)
    requires
        ready.transfer is Idle,
    ensures
        spec_on_complete(ready).ingress_violation,
        spec_surfaced(spec_on_complete(ready)) == spec_surfaced(ready),
        !spec_surfaced(spec_on_complete(ready)).ingress_violation,
{
}

/// Frame phases move only when the backend started a batch: an offer after
/// which the driver is still idle (nothing to send, busy, or a backend
/// error) leaves the ready state and every channel record as they were.
pub proof fn law_phases_move_only_on_start<B: LedBackend>(
    ready: ReadyState,
    channels: RegistrationTable,
    max: usize,
    r: Result<(), EngineError>,
    ready2: ReadyState,
    channels2: RegistrationTable,
)
    requires
        LedEngine::<B>::spec_submit_outcome(ready, channels, max, r, ready2, channels2),
        ready2.transfer is Idle,
    ensures
        ready2 == ready,
        channels2 == channels,
{
}

} // verus!
