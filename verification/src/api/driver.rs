//! The typestate driver: `Driver<B, Configuring>` accepts exactly one
//! configuration, `Driver<B, Ready>` writes, commits and services.

use super::channel::{Channel, ConfiguredChannels, DriverId};
use super::error_map::{
    map_driver_init_error, map_register_bind_error, map_runtime_commit_error,
    map_runtime_mark_published_error, map_runtime_service_error, map_runtime_write_pack_error,
    map_runtime_write_prepare_error, map_runtime_write_publish_error, spec_register_error,
};
use super::errors::{DriverInitError, RegisterError, RuntimeError};
use super::setup::{PreparedBinding, PreparedSetup};
use crate::backend::{BackendError, BackendEvent, BackendSignal, LedBackend, StartTransfer};
use crate::driver::engine::mask::ChannelMask;
use crate::driver::engine::runtime::{spec_on_complete, spec_pending_batch, spec_marked, spec_promoted, spec_ready_initial, spec_retired, spec_started, ReadyState, TransferState};
use crate::engine::registration::{spec_lookup, spec_plan_error, spec_plan_handles, spec_plan_records, spec_registered_bits};
use crate::engine::runtime::{spec_clear_violation, spec_ready_state, spec_records_advanced, EngineLifecycle};
use crate::engine::error::EngineError;
use crate::engine::{table_empty, LedEngine};
use crate::model::Rgb48;
use core::marker::PhantomData;
use vstd::prelude::*;

verus! {

/// Typestate: not yet configured.
pub struct Configuring;

/// Typestate: configured and ready for runtime calls.
pub struct Ready;

pub struct Driver<B, S = Configuring> where B: LedBackend {
    pub(crate) driver_id: DriverId,
    pub(crate) engine: LedEngine<B>,
    pub(crate) _state: PhantomData<S>,
}

/// Write access to one channel of a ready driver.
pub struct ChannelWriter<'a, B> where B: LedBackend {
    pub driver: &'a mut Driver<B, Ready>,
    pub channel_index: usize,
}

/// What holds after a ready driver offered its pending batch from `ready`,
/// whatever the backend answered (see `spec_engine_submit_outcome`).
pub open spec fn spec_api_service_outcome(
    ready: ReadyState,
    records: Seq<Option<crate::engine::registration::ChannelState>>,
    max: usize,
    r: Result<(), RuntimeError>,
    ready2: ReadyState,
    records2: Seq<Option<crate::engine::registration::ChannelState>>,
) -> bool {
    match spec_pending_batch(ready, spec_registered_bits(records, max)) {
        None => r is Ok && ready2 == ready && records2 == records,
        Some(batch) => {
            ||| (r == Err::<(), _>(RuntimeError::Backend) && ready2 == ready && records2 == records)
            ||| (r is Ok && ready2 == ready && records2 == records)
            ||| (r is Ok && ready2 == spec_started(ready, batch) && spec_records_advanced(
                records,
                records2,
                batch,
                max,
            ))
        },
    }
}

/// What configuring `d` with the bindings `setup` answers (`r`) and leaves
/// (`d2`): an empty setup and a second configuration are refused with the
/// driver untouched; otherwise the setup is staged against the engine's
/// limits and applied to the backend as one unit, and either every binding
/// is committed with one handle per logical channel, or nothing is
/// committed and the first staging problem, or the backend's refusal, is
/// reported.
pub open spec fn spec_configure_outcome<B: LedBackend>(
    d: Driver<B, Configuring>,
    setup: Seq<PreparedBinding>,
    r: Result<ConfiguredChannels, RegisterError>,
    d2: Driver<B, Configuring>,
) -> bool {
    let plan_error = spec_plan_error(
        setup,
        setup.len() as int,
        d.runtime().max_channels,
        d.runtime().max_bytes_per_channel,
    );
    &&& d2.owner() == d.owner()
    &&& setup.len() == 0 ==> r == Err::<ConfiguredChannels, _>(RegisterError::EmptyConfiguration)
        && d2 == d
    &&& setup.len() > 0 && d.is_committed() ==> r == Err::<ConfiguredChannels, _>(
        RegisterError::AlreadyConfigured,
    ) && d2 == d
    &&& setup.len() > 0 && !d.is_committed() ==> match r {
        Ok(handles) => {
            &&& plan_error is None
            &&& d2.is_committed()
            &&& d2.runtime().ready_view() == spec_ready_initial()
            &&& d2.runtime().channels.records@ == spec_plan_records(setup, setup.len() as int)
            &&& forall|i: int|
                0 <= i < 8 ==> #[trigger] handles.entry(i) == spec_plan_handles(
                    setup,
                    setup.len() as int,
                    d.owner(),
                )[i]
        },
        Err(e) => {
            &&& !d2.is_committed()
            &&& table_empty(d2.runtime().channels)
            &&& plan_error matches Some(pe) ==> e == spec_register_error(pe)
            &&& plan_error is None ==> exists|be: BackendError|
                e == spec_register_error(EngineError::Backend(be))
        },
    }
}

/// What `commit` answers and leaves: a latched violation is reported and
/// cleared; otherwise every dirty channel joins the pending set.
pub open spec fn spec_commit_applied<B: LedBackend>(
    d: Driver<B, Ready>,
    r: Result<(), RuntimeError>,
    d2: Driver<B, Ready>,
) -> bool {
    &&& d2.runtime().channels == d.runtime().channels
    &&& d.runtime().ready_view().ingress_violation ==> r == Err::<(), _>(
        RuntimeError::BackendContract,
    ) && d2.runtime().state == spec_clear_violation(d.runtime().state)
    &&& !d.runtime().ready_view().ingress_violation ==> r is Ok && d2.runtime().ready_view()
        == spec_promoted(d.runtime().ready_view())
}

/// What `service` answers and leaves: a latched violation is reported and
/// cleared; otherwise a finished transfer is retired and the pending batch
/// offered, with the outcome `spec_api_service_outcome` describes.
pub open spec fn spec_service_applied<B: LedBackend>(
    d: Driver<B, Ready>,
    r: Result<(), RuntimeError>,
    d2: Driver<B, Ready>,
) -> bool {
    &&& d.runtime().ready_view().ingress_violation ==> r == Err::<(), _>(
        RuntimeError::BackendContract,
    ) && d2.runtime().state == spec_clear_violation(d.runtime().state)
        && d2.runtime().channels == d.runtime().channels
    &&& !d.runtime().ready_view().ingress_violation ==> spec_api_service_outcome(
        ReadyState { transfer: spec_retired(d.runtime().ready_view().transfer), ..d.runtime().ready_view() },
        d.runtime().channels.records@,
        d.runtime().max_channels,
        r,
        d2.runtime().ready_view(),
        d2.runtime().channels.records@,
    )
    &&& !d.runtime().ready_view().ingress_violation ==> spec_api_service_answered(
        ReadyState { transfer: spec_retired(d.runtime().ready_view().transfer), ..d.runtime().ready_view() },
        d.runtime().channels.records@,
        d.runtime().max_channels,
        d2.runtime().submit_answer@,
        r,
        d2.runtime().ready_view(),
        d2.runtime().channels.records@,
    )
}

/// What `service` answers after offering the pending batch from `ready`,
/// given the backend's recorded answer to that offer: a backend error is
/// reported as `RuntimeError::Backend` with nothing changed; `Busy` keeps
/// everything for a retry; `Started` moves the batch in flight and its
/// channels' frame phase on. With no batch to offer nothing changes.
pub open spec fn spec_api_service_answered(
    ready: ReadyState,
    records: Seq<Option<crate::engine::registration::ChannelState>>,
    max: usize,
    answer: Option<Result<StartTransfer, BackendError>>,
    r: Result<(), RuntimeError>,
    ready2: ReadyState,
    records2: Seq<Option<crate::engine::registration::ChannelState>>,
) -> bool {
    match spec_pending_batch(ready, spec_registered_bits(records, max)) {
        None => r is Ok && ready2 == ready && records2 == records,
        Some(batch) => match answer {
            None => false,
            Some(Err(_)) => r == Err::<(), _>(RuntimeError::Backend) && ready2 == ready && records2
                == records,
            Some(Ok(StartTransfer::Busy)) => r is Ok && ready2 == ready && records2 == records,
            Some(Ok(StartTransfer::Started)) => r is Ok && ready2 == spec_started(ready, batch)
                && spec_records_advanced(records, records2, batch, max),
        },
    }
}

/// What reporting a backend event leaves: a completion marks the transfer in
/// flight as finished, or, while idle, latches a contract violation.
pub open spec fn spec_event_applied<B: LedBackend>(d: Driver<B, Ready>, d2: Driver<B, Ready>) -> bool {
    &&& d2.runtime().state == spec_ready_state(spec_on_complete(d.runtime().ready_view()))
    &&& d2.runtime().channels == d.runtime().channels
}

impl<B: LedBackend, S> Driver<B, S> {
    /// The driver instance tag its handles carry.
    pub closed spec fn owner(&self) -> DriverId {
        self.driver_id
    }

    /// The engine behind the driver.
    pub closed spec fn runtime(&self) -> LedEngine<B> {
        self.engine
    }

    pub open spec fn is_committed(&self) -> bool {
        self.runtime().state.lifecycle is Ready
    }
}

impl<B: LedBackend> Driver<B, Configuring> {
    pub open spec fn wf(&self) -> bool {
        &&& self.runtime().wf()
        &&& (self.runtime().state.lifecycle is Registering && table_empty(self.runtime().channels))
            || self.runtime().state.lifecycle is Ready
    }

    /// Initialises the backend and starts configuring a driver whose handles
    /// carry `driver_id`.
    pub fn new(backend: B, driver_id: DriverId) -> (r: Result<Self, DriverInitError>)
        ensures
            r matches Ok(d) ==> d.wf() && d.owner() == driver_id && !d.is_committed(),
            r matches Err(e) ==> e == DriverInitError::Backend,
    {
        let mut engine = LedEngine::new(backend);
        match engine.init() {
            Ok(()) => {},
            Err(e) => {
                return Err(map_driver_init_error(e));
            },
        }
        Ok(Driver { driver_id, engine, _state: PhantomData })
    }

    /// Atomically applies one validated, non-empty setup to the backend and
    /// the local registration table; configuration is single-shot and a
    /// failure hands out no handles.
    pub fn configure_prepared(&mut self, setup: &PreparedSetup) -> (r: Result<
        ConfiguredChannels,
        RegisterError,
    >)
        requires
            old(self).wf(),
        ensures
            final(self).wf(),
            final(self).owner() == old(self).owner(),
            spec_configure_outcome(*old(self), setup@, r, *final(self)),
    {
        if setup.is_empty() {
            return Err(RegisterError::EmptyConfiguration);
        }
        if self.engine.is_configuration_committed() {
            return Err(RegisterError::AlreadyConfigured);
        }
        match self.engine.configure_prepared(setup, self.driver_id) {
            Ok(handles) => Ok(handles),
            Err(e) => Err(map_register_bind_error(e)),
        }
    }

    /// Completes the configuring typestate after a successful configuration.
    pub fn finalize(self) -> (r: Driver<B, Ready>)
        requires
            self.wf(),
            self.is_committed(),
        ensures
            r.wf(),
            r.owner() == self.owner(),
            r.runtime() == self.runtime(),
    {
        Driver { driver_id: self.driver_id, engine: self.engine, _state: PhantomData }
    }
}

impl<B: LedBackend> Driver<B, Ready> {
    pub open spec fn wf(&self) -> bool {
        &&& self.runtime().wf()
        &&& self.runtime().state.lifecycle is Ready
    }

    /// Write access to the channel behind `channel`, if this driver issued
    /// it; a handle of another driver is rejected even when the logical
    /// channel matches.
    pub fn channel<'a>(&'a mut self, channel: Channel) -> (r: Result<ChannelWriter<'a, B>, RuntimeError>)
        ensures
            channel.tag() != old(self).owner() ==> (r matches Err(RuntimeError::InvalidChannel)
                && *final(self) == *old(self)),
            channel.tag() == old(self).owner() ==> (r matches Ok(w) && *w.driver == *old(self)
                && w.channel_index == channel.logical().0
                && *final(self) == *final(w.driver)),
    {
        if channel.owner() != self.driver_id {
            return Err(RuntimeError::InvalidChannel);
        }
        let channel_index = channel.as_index();
        Ok(ChannelWriter { driver: self, channel_index })
    }

    /// Promotes published channels into the pending set.
    pub fn commit(&mut self) -> (r: Result<(), RuntimeError>)
        requires
            old(self).wf(),
        ensures
            final(self).runtime().backend == old(self).runtime().backend,
            final(self).wf(),
            final(self).owner() == old(self).owner(),
            spec_commit_applied(*old(self), r, *final(self)),
    {
        match self.engine.submit_dirty() {
            Ok(()) => Ok(()),
            Err(e) => Err(map_runtime_commit_error(e)),
        }
    }

    /// Retires a finished transfer and starts the pending batch when idle.
    pub fn service(&mut self) -> (r: Result<(), RuntimeError>)
        requires
            old(self).wf(),
        ensures
            final(self).wf(),
            final(self).owner() == old(self).owner(),
            spec_service_applied(*old(self), r, *final(self)),
    {
        match self.engine.service() {
            Ok(()) => Ok(()),
            Err(e) => Err(map_runtime_service_error(e)),
        }
    }

    pub fn on_backend_signal(&mut self, signal: BackendSignal)
        requires
            old(self).wf(),
        ensures
            final(self).wf(),
            final(self).owner() == old(self).owner(),
            final(self).runtime().state == old(self).runtime().state,
            final(self).runtime().channels == old(self).runtime().channels,
    {
        self.engine.on_backend_signal(signal);
    }

    pub fn on_backend_event(&mut self, event: BackendEvent)
        requires
            old(self).wf(),
        ensures
            final(self).wf(),
            final(self).owner() == old(self).owner(),
            spec_event_applied(*old(self), *final(self)),
    {
        self.engine.on_backend_event(event);
    }
}

impl<'a, B: LedBackend> ChannelWriter<'a, B> {
    /// Packs `pixels` into the channel's backend buffer, publishes it and
    /// marks the channel dirty.
    pub fn write_rgb48(&mut self, pixels: &[Rgb48]) -> (r: Result<(), RuntimeError>)
        requires
            old(self).driver.wf(),
        ensures
            final(self).driver.wf(),
            final(self).channel_index == old(self).channel_index,
            *final(final(self).driver) == *final(old(self).driver),
            final(self).driver.owner() == old(self).driver.owner(),
            final(self).driver.runtime().channels == old(self).driver.runtime().channels,
            old(self).driver.runtime().ready_view().ingress_violation ==> r == Err::<(), _>(
                RuntimeError::BackendContract,
            ) && final(self).driver.runtime().state == spec_clear_violation(old(self).driver.runtime().state),
            !old(self).driver.runtime().ready_view().ingress_violation ==> match spec_lookup(
                old(self).driver.runtime().channels.records@,
                old(self).channel_index,
                old(self).driver.runtime().max_channels,
            ) {
                Err(_) => r == Err::<(), _>(RuntimeError::InvalidChannel)
                    && final(self).driver.runtime().state == old(self).driver.runtime().state,
                Ok(_) => {
                    &&& r is Ok ==> final(self).driver.runtime().ready_view() == spec_marked(old(self).driver.runtime().ready_view(), old(self).channel_index)
                    &&& r is Err ==> final(self).driver.runtime().state == old(self).driver.runtime().state
                    &&& r is Err ==> (r == Err::<(), _>(RuntimeError::Busy)
                        || r == Err::<(), _>(RuntimeError::Backend)
                        || r == Err::<(), _>(RuntimeError::BackendContract)
                        || (r == Err::<(), _>(RuntimeError::LengthMismatch)))
                },
            },
    {
        let channel_index = self.channel_index;
        {
            let mut write = match self.driver.engine.acquire_prepared_write(channel_index) {
                Ok(w) => w,
                Err(e) => {
                    return Err(map_runtime_write_prepare_error(e));
                },
            };
            match write.pack_rgb48_active(pixels) {
                Ok(()) => {},
                Err(e) => {
                    return Err(map_runtime_write_pack_error(e));
                },
            }
            match write.publish() {
                Ok(()) => {},
                Err(e) => {
                    return Err(map_runtime_write_publish_error(e));
                },
            }
        }
        match self.driver.engine.mark_channel_published(channel_index) {
            Ok(()) => Ok(()),
            Err(e) => Err(map_runtime_mark_published_error(e)),
        }
    }
}

} // verus!

verus! {

/// Configuration is single-shot: once a configuration succeeded, every
/// further non-empty setup is refused as `AlreadyConfigured` and leaves the
/// driver as it was.
pub proof fn law_configuration_is_single_shot<B: LedBackend>(
    d0: Driver<B, Configuring>,
    first: Seq<PreparedBinding>,
    handles: ConfiguredChannels,
    d1: Driver<B, Configuring>,
    second: Seq<PreparedBinding>,
    r: Result<ConfiguredChannels, RegisterError>,
    d2: Driver<B, Configuring>,
)
    requires
        spec_configure_outcome(d0, first, Ok(handles), d1),
        spec_configure_outcome(d1, second, r, d2),
        second.len() > 0,
    ensures
        d1.is_committed(),
        r == Err::<ConfiguredChannels, _>(RegisterError::AlreadyConfigured),
        d2 == d1,
{
}

} // verus!

verus! {

/// A completion reported while the driver is idle is answered by the next
/// runtime call (`commit` or `service`) with `BackendContract`, which leaves
/// the driver as it was before the stray completion; the call after that
/// no longer reports it.
pub proof fn law_stray_completion_reported_once<B: LedBackend>(
    d0: Driver<B, Ready>,
    d1: Driver<B, Ready>,
    r2: Result<(), RuntimeError>,
    d2: Driver<B, Ready>,
    r3: Result<(), RuntimeError>,
    d3: Driver<B, Ready>,
)
    requires
        d0.wf(),
        d0.runtime().ready_view().transfer is Idle,
        !d0.runtime().ready_view().ingress_violation,
        spec_event_applied(d0, d1),
        spec_commit_applied(d1, r2, d2) || spec_service_applied(d1, r2, d2),
        spec_commit_applied(d2, r3, d3) || spec_service_applied(d2, r3, d3),
    ensures
        r2 == Err::<(), _>(RuntimeError::BackendContract),
        d2.runtime().ready_view() == d0.runtime().ready_view(),
        d2.runtime().channels == d0.runtime().channels,
        r3 != Err::<(), _>(RuntimeError::BackendContract),
{
}

/// A completion reported while a transfer is in flight is no violation: the
/// next `service` retires that transfer, and the driver is then idle or has
/// just started a new batch.
pub proof fn law_completion_retired_by_service<B: LedBackend>(
    d0: Driver<B, Ready>,
    d1: Driver<B, Ready>,
    r2: Result<(), RuntimeError>,
    d2: Driver<B, Ready>,
)
    requires
        d0.wf(),
        d0.runtime().ready_view().transfer is InFlight,
        !d0.runtime().ready_view().ingress_violation,
        spec_event_applied(d0, d1),
        spec_service_applied(d1, r2, d2),
    ensures
        r2 != Err::<(), _>(RuntimeError::BackendContract),
        d2.runtime().ready_view().transfer is Idle || d2.runtime().ready_view().transfer
            matches TransferState::InFlight { dma_complete_pending: false, .. },
{
}

} // verus!
