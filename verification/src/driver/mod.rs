//! Driver front end: channel configuration, runtime writes, commit/service
//! and backend ingress.

pub mod engine;
pub mod pack;

use crate::pack::pipeline::spec_pack;
use crate::pack::{ActiveSpatialQuantizer, ActiveTemporalDither};
use crate::backend::{
    BackendCapabilities, BackendChannelSpec, BackendError, BackendEvent, BackendSignal, LedBackend,
    StartTransfer,
};
use crate::bits::mask_has;
use crate::bounded::{held_specs, spec_list_as_slice, spec_list_new, spec_list_push};
use crate::error::{ConfigureError, ServiceError, WriteError};
use crate::model::{BackendChannelId, DriverId, Rgb48};
use crate::setup::ChannelSetup;
use crate::DRIVER_MAX_CHANNELS;
use engine::channel_state::{spec_channel_state, ChannelState};
use engine::mask::ChannelMask;
use engine::registration::{slot_occupied, RegistrationTable};
use engine::runtime::{spec_pending_batch, spec_phases_advanced, spec_marked, spec_promoted, spec_ready_initial, spec_surfaced, spec_retired, spec_started, ReadyState};
use engine::{BackendContractViolation, EngineError, LedEngine};
use vstd::prelude::*;

verus! {

// ── Channel handles ──────────────────────────────────────────────────────────

/// Runtime handle of one configured channel, bound to its driver instance.
#[derive(Copy, Clone, Debug)]
pub struct ChannelHandle {
    pub(crate) driver_id: DriverId,
    pub(crate) channel_index: usize,
}

impl ChannelHandle {
    pub closed spec fn owner(self) -> DriverId {
        self.driver_id
    }

    pub closed spec fn slot(self) -> usize {
        self.channel_index
    }
}

/// Handles returned by a successful configuration, one per configured slot.
#[derive(Copy, Clone, Debug)]
pub struct ChannelHandles {
    pub(crate) handles: [Option<ChannelHandle>; DRIVER_MAX_CHANNELS],
    pub(crate) count: usize,
}

impl ChannelHandles {
    pub closed spec fn entry(self, slot: int) -> Option<ChannelHandle> {
        if 0 <= slot < 8 {
            self.handles@[slot]
        } else {
            None
        }
    }

    pub closed spec fn spec_len(self) -> usize {
        self.count
    }

    /// The present handles in slot order.
    pub closed spec fn present(self) -> Seq<ChannelHandle> {
        self.handles@.filter(|h: Option<ChannelHandle>| h is Some).map_values(
            |h: Option<ChannelHandle>| h->Some_0,
        )
    }

    fn new(handles: [Option<ChannelHandle>; DRIVER_MAX_CHANNELS], count: usize) -> (r: Self)
        ensures
            r.handles == handles,
            r.count == count,
    {
        ChannelHandles { handles, count }
    }

    pub fn len(&self) -> (r: usize)
        ensures
            r == self.spec_len(),
    {
        self.count
    }

    pub fn is_empty(&self) -> (r: bool)
        ensures
            r == (self.spec_len() == 0),
    {
        self.count == 0
    }

    pub fn get(&self, slot: usize) -> (r: Option<&ChannelHandle>)
        ensures
            slot >= DRIVER_MAX_CHANNELS ==> r is None,
            match self.entry(slot as int) {
                Some(h) => r matches Some(rh) && *rh == h,
                None => r is None,
            },
    {
        if slot < DRIVER_MAX_CHANNELS {
            match &self.handles[slot] {
                Some(h) => Some(h),
                None => None,
            }
        } else {
            None
        }
    }

    /// The present handles in slot order.
    pub fn iter(&self) -> (r: Vec<ChannelHandle>)
        ensures
            r@ == self.present(),
    {
        let mut out: Vec<ChannelHandle> = Vec::new();
        let mut slot: usize = 0;
        while slot < DRIVER_MAX_CHANNELS
            invariant
                slot <= 8,
                out@ == self.handles@.subrange(0, slot as int).filter(
                    |h: Option<ChannelHandle>| h is Some,
                ).map_values(|h: Option<ChannelHandle>| h->Some_0),
            decreases 8 - slot,
        {
            proof {
                let s = self.handles@.subrange(0, slot as int + 1);
                assert(self.handles@.subrange(0, slot as int) == s.drop_last());
                reveal_with_fuel(Seq::filter, 1);
            }
            match self.handles[slot] {
                Some(h) => out.push(h),
                None => {},
            }
            slot = slot + 1;
        }
        assert(self.handles@.subrange(0, 8) == self.handles@);
        out
    }
}

// ── Setup validation ─────────────────────────────────────────────────────────

/// Number of channels a driver accepts for the given backend limits.
pub open spec fn spec_max_channels(caps: BackendCapabilities) -> usize {
    if caps.max_channels < DRIVER_MAX_CHANNELS {
        caps.max_channels
    } else {
        DRIVER_MAX_CHANNELS
    }
}

/// First problem among the first `n` setups, checked in list order; for
/// each setup a repeated backend channel is reported before an oversized one.
pub open spec fn spec_setup_error(channels: Seq<ChannelSetup>, max_bytes: Option<u32>, n: int) -> Option<
    ConfigureError,
>
    decreases n,
{
    if n <= 0 {
        None
    } else {
        match spec_setup_error(channels, max_bytes, n - 1) {
            Some(e) => Some(e),
            None => {
                let s = channels[n - 1];
                if exists|k: int| 0 <= k < n - 1 && #[trigger] channels[k].backend_channel == s.backend_channel {
                    Some(ConfigureError::DuplicateBackendChannel(s.backend_channel))
                } else if max_bytes matches Some(m) && s.pixel_count * 3 > m {
                    Some(ConfigureError::ChannelTooLarge)
                } else {
                    None
                }
            },
        }
    }
}

/// Once a problem is found among the first `k` setups, it stays the first
/// problem of every longer prefix.
proof fn lemma_setup_error_stable(channels: Seq<ChannelSetup>, max_bytes: Option<u32>, k: int, m: int)
    requires
        0 <= k <= m,
        spec_setup_error(channels, max_bytes, k) is Some,
    ensures
        spec_setup_error(channels, max_bytes, m) == spec_setup_error(channels, max_bytes, k),
    decreases m - k,
{
    if m > k {
        lemma_setup_error_stable(channels, max_bytes, k, m - 1);
    }
}

/// Setup validation only ever reports repeated backend channels or
/// oversized channels.
proof fn lemma_setup_error_kinds(channels: Seq<ChannelSetup>, max_bytes: Option<u32>, n: int)
    ensures
        spec_setup_error(channels, max_bytes, n) matches Some(e) ==> (e is DuplicateBackendChannel
            || e is ChannelTooLarge),
    decreases n,
{
    if n > 0 {
        lemma_setup_error_kinds(channels, max_bytes, n - 1);
    }
}

/// With no problem among the first `n` setups, those setups name distinct
/// backend channels and each fits the per-channel byte limit.
proof fn lemma_setups_without_error(channels: Seq<ChannelSetup>, max_bytes: Option<u32>, n: int)
    requires
        0 <= n <= channels.len(),
        spec_setup_error(channels, max_bytes, n) is None,
    ensures
        forall|i: int|
            0 <= i < n ==> (max_bytes matches Some(m) ==> (#[trigger] channels[i]).pixel_count * 3
                <= m),
        forall|i: int, j: int|
            0 <= i < j < n ==> (#[trigger] channels[i]).backend_channel != (
            #[trigger] channels[j]).backend_channel,
    decreases n,
{
    if n > 0 {
        lemma_setups_without_error(channels, max_bytes, n - 1);
        assert forall|i: int| 0 <= i < n - 1 implies (#[trigger] channels[i]).backend_channel
            != channels[n - 1].backend_channel by {
            if channels[i].backend_channel == channels[n - 1].backend_channel {
                assert(exists|k: int|
                    0 <= k < n - 1 && #[trigger] channels[k].backend_channel == channels[n
                        - 1].backend_channel);
            }
        }
    }
}

/// Every setup list that validation accepts fits the driver's slots and the
/// backend's channel count, names each backend channel once, and keeps each
/// channel within the backend's per-channel byte limit.
pub proof fn law_accepted_setups_are_distinct(channels: Seq<ChannelSetup>, caps: BackendCapabilities)
    requires
        spec_check_setups(channels, caps) is Ok,
    ensures
        channels.len() <= spec_max_channels(caps) <= DRIVER_MAX_CHANNELS,
        spec_max_channels(caps) <= caps.max_channels,
        forall|i: int|
            0 <= i < channels.len() ==> (caps.max_bytes_per_channel matches Some(m) ==> (
            #[trigger] channels[i]).pixel_count * 3 <= m),
        forall|i: int, j: int|
            0 <= i < j < channels.len() ==> (#[trigger] channels[i]).backend_channel != (
            #[trigger] channels[j]).backend_channel,
{
    lemma_setups_without_error(channels, caps.max_bytes_per_channel, channels.len() as int);
}

/// Outcome of validating a non-empty setup list against backend limits:
/// the number of usable channel slots, or the first problem found.
pub open spec fn spec_check_setups(channels: Seq<ChannelSetup>, caps: BackendCapabilities) -> Result<
    usize,
    ConfigureError,
> {
    if channels.len() > spec_max_channels(caps) {
        Err(ConfigureError::TooManyChannels)
    } else {
        match spec_setup_error(channels, caps.max_bytes_per_channel, channels.len() as int) {
            Some(e) => Err(e),
            None => Ok(spec_max_channels(caps)),
        }
    }
}

/// Validates setups against the limits the backend reported.
pub fn check_setups(channels: &[ChannelSetup], caps: BackendCapabilities) -> (r: Result<
    usize,
    ConfigureError,
>)
    ensures
        r == spec_check_setups(channels@, caps),
{
    let max_channels = if caps.max_channels < DRIVER_MAX_CHANNELS {
        caps.max_channels
    } else {
        DRIVER_MAX_CHANNELS
    };
    if channels.len() > max_channels {
        return Err(ConfigureError::TooManyChannels);
    }
    let mut seen = [false; 256];
    let n = channels.len();
    let mut idx: usize = 0;
    while idx < n
        invariant
            n == channels@.len(),
            idx <= n,
            max_channels == spec_max_channels(caps),
            n <= max_channels,
            seen@.len() == 256,
            forall|b: int|
                0 <= b < 256 ==> (#[trigger] seen@[b] <==> exists|k: int|
                    0 <= k < idx && channels@[k].backend_channel.0 == b),
            spec_setup_error(channels@, caps.max_bytes_per_channel, idx as int) is None,
        decreases n - idx,
    {
        let setup = channels[idx];
        let b = setup.backend_channel.as_index();
        if seen[b] {
            proof {
                let k = choose|k: int| 0 <= k < idx && channels@[k].backend_channel.0 == b;
                assert(channels@[k].backend_channel == setup.backend_channel);
                assert(spec_setup_error(channels@, caps.max_bytes_per_channel, idx + 1) == Some(
                    ConfigureError::DuplicateBackendChannel(setup.backend_channel),
                ));
                lemma_setup_error_stable(channels@, caps.max_bytes_per_channel, idx + 1, n as int);
            }
            return Err(ConfigureError::DuplicateBackendChannel(setup.backend_channel));
        }
        seen[b] = true;
        proof {
            assert(!exists|k: int| 0 <= k < idx && #[trigger] channels@[k].backend_channel == setup.backend_channel) by {
                if exists|k: int| 0 <= k < idx && #[trigger] channels@[k].backend_channel == setup.backend_channel {
                    let k = choose|k: int| 0 <= k < idx && #[trigger] channels@[k].backend_channel == setup.backend_channel;
                    assert(channels@[k].backend_channel.0 == b);
                }
            }
        }
        let wire_bytes = match (setup.pixel_count as u32).checked_mul(3) {
            Some(w) => w,
            None => {
                return Err(ConfigureError::ChannelTooLarge);
            },
        };
        if let Some(max) = caps.max_bytes_per_channel {
            if wire_bytes > max {
                proof {
                    lemma_setup_error_stable(channels@, caps.max_bytes_per_channel, idx + 1, n as int);
                }
                return Err(ConfigureError::ChannelTooLarge);
            }
        }
        idx = idx + 1;
    }
    Ok(max_channels)
}

// ── Configuring ──────────────────────────────────────────────────────────────

/// A driver that has not yet been given its channels.
pub struct ConfiguringDriver {
    pub(crate) driver_id: DriverId,
}

/// The records and handles a successful configuration of `channels` sets up:
/// slot `i` holds the record of the `i`-th setup, freshly started, and the
/// handle for slot `i` carries `driver_id`; every other slot is empty.
pub open spec fn spec_configured<B: LedBackend>(
    driver: Driver<B>,
    handles: ChannelHandles,
    channels: Seq<ChannelSetup>,
    driver_id: DriverId,
) -> bool {
    &&& driver.owner() == driver_id
    &&& driver.wf()
    &&& channels.len() <= driver.runtime().max_channels
    &&& driver.runtime().ready == spec_ready_initial()
    &&& driver.runtime().channels.count == channels.len()
    &&& handles.spec_len() == channels.len()
    &&& forall|i: int|
        0 <= i < 8 ==> #[trigger] driver.runtime().channels.records@[i] == if i < channels.len() {
            Some(
                spec_channel_state(
                    channels[i].backend_channel,
                    channels[i].pixel_count,
                    channels[i].layout,
                ),
            )
        } else {
            None
        }
    &&& forall|i: int|
        0 <= i < 8 ==> if i < channels.len() {
            #[trigger] handles.entry(i) matches Some(h) && h.owner() == driver_id && h.slot() == i
        } else {
            handles.entry(i) is None
        }
}

/// The backend spec one channel setup is configured with.
pub open spec fn spec_setup_spec(s: ChannelSetup) -> BackendChannelSpec {
    BackendChannelSpec { channel: s.backend_channel, pixels: s.pixel_count, layout: s.layout }
}

/// The backend specs for `channels`, one per setup, in list order.
pub fn channel_specs(channels: &[ChannelSetup]) -> (r: heapless::Vec<BackendChannelSpec, DRIVER_MAX_CHANNELS>)
    requires
        channels@.len() <= DRIVER_MAX_CHANNELS,
    ensures
        held_specs(r) == channels@.map_values(|s: ChannelSetup| spec_setup_spec(s)),
{
    let n = channels.len();
    let mut specs_buf = spec_list_new();
    let mut idx: usize = 0;
    while idx < n
        invariant
            n == channels@.len(),
            n <= 8,
            idx <= n,
            held_specs(specs_buf) == channels@.subrange(0, idx as int).map_values(
                |s: ChannelSetup| spec_setup_spec(s),
            ),
        decreases n - idx,
    {
        let setup = channels[idx];
        let _ = spec_list_push(
            &mut specs_buf,
            BackendChannelSpec {
                channel: setup.backend_channel,
                pixels: setup.pixel_count,
                layout: setup.layout,
            },
        );
        assert(channels@.subrange(0, idx + 1) == channels@.subrange(0, idx as int).push(setup));
        idx = idx + 1;
    }
    assert(channels@.subrange(0, n as int) == channels@);
    specs_buf
}

impl ConfiguringDriver {
    pub closed spec fn owner(self) -> DriverId {
        self.driver_id
    }

    /// Starts configuring a driver that will own handles tagged `driver_id`.
    pub fn new(driver_id: DriverId) -> (r: Self)
        ensures
            r.owner() == driver_id,
    {
        ConfiguringDriver { driver_id }
    }

    /// Registers `channels` with `backend` as one unit and returns the driver
    /// with one handle per channel, in list order.
    pub fn configure<B: LedBackend>(self, channels: &[ChannelSetup], backend: B) -> (r: Result<
        (Driver<B>, ChannelHandles),
        ConfigureError,
    >)
        ensures
            channels@.len() == 0 <==> r matches Err(ConfigureError::NoChannels),
            r matches Ok((d, h)) ==> spec_configured(d, h, channels@, self.owner()) && exists|
                caps: BackendCapabilities,
            | spec_check_setups(channels@, caps) == Ok::<usize, ConfigureError>(d.runtime().max_channels),
            r matches Err(e) ==> e is NoChannels || e is Backend || exists|caps: BackendCapabilities|
                spec_check_setups(channels@, caps) == Err::<usize, ConfigureError>(e),
    {
        let mut backend = backend;
        proof {
            assert forall|caps: BackendCapabilities| #[trigger] spec_check_setups(channels@, caps) is Err implies !(spec_check_setups(channels@, caps)->Err_0 is NoChannels) by {
                lemma_setup_error_kinds(channels@, caps.max_bytes_per_channel, channels@.len() as int);
            }
        }
        if channels.len() == 0 {
            return Err(ConfigureError::NoChannels);
        }
        match backend.init() {
            Ok(()) => {},
            Err(e) => {
                return Err(ConfigureError::Backend(e));
            },
        }
        let caps = backend.capabilities();
        self.configure_with_caps(channels, backend, caps)
    }

    /// Registers `channels` with an initialised `backend` that reported
    /// `caps`: the setups are validated against `caps` (the first problem is
    /// reported), then handed to the backend as one unit, one spec per setup
    /// in list order; a backend refusal is passed on.
    pub fn configure_with_caps<B: LedBackend>(
        self,
        channels: &[ChannelSetup],
        backend: B,
        caps: BackendCapabilities,
    ) -> (r: Result<(Driver<B>, ChannelHandles), ConfigureError>)
        ensures
            spec_check_setups(channels@, caps) matches Err(e) ==> r == Err::<
                (Driver<B>, ChannelHandles),
                _,
            >(e),
            spec_check_setups(channels@, caps) matches Ok(m) ==> (r matches Ok((d, h)) ==> spec_configured(
                d,
                h,
                channels@,
                self.owner(),
            ) && d.runtime().max_channels == m),
            spec_check_setups(channels@, caps) is Ok ==> (r matches Err(e) ==> e is Backend),
    {
        let mut backend = backend;
        let max_channels = check_setups(channels, caps)?;
        let specs_buf = channel_specs(channels);
        let outcome = backend.configure_channels(spec_list_as_slice(&specs_buf));
        self.finish_configure(channels, backend, max_channels, outcome)
    }

    /// Applies the backend's answer to configuring `channels`: a refusal is
    /// passed on; an acceptance yields the driver over `backend` with one
    /// freshly started record and one handle per setup, in list order.
    pub fn finish_configure<B: LedBackend>(
        self,
        channels: &[ChannelSetup],
        backend: B,
        max_channels: usize,
        outcome: Result<(), BackendError>,
    ) -> (r: Result<(Driver<B>, ChannelHandles), ConfigureError>)
        requires
            channels@.len() <= max_channels <= DRIVER_MAX_CHANNELS,
        ensures
            match outcome {
                Err(e) => r == Err::<(Driver<B>, ChannelHandles), _>(ConfigureError::Backend(e)),
                Ok(()) => r matches Ok((d, h)) && spec_configured(d, h, channels@, self.owner())
                    && d.runtime().max_channels == max_channels && d.runtime().backend == backend,
            },
    {
        match outcome {
            Ok(()) => {},
            Err(e) => {
                return Err(ConfigureError::Backend(e));
            },
        }
        let n = channels.len();
        let driver_id = self.driver_id;
        let mut records: [Option<ChannelState>; DRIVER_MAX_CHANNELS] = [None; DRIVER_MAX_CHANNELS];
        let mut handle_arr: [Option<ChannelHandle>; DRIVER_MAX_CHANNELS] = [None; DRIVER_MAX_CHANNELS];
        let mut slot: usize = 0;
        while slot < n
            invariant
                n == channels@.len(),
                n <= 8,
                slot <= n,
                forall|i: int|
                    0 <= i < 8 ==> #[trigger] records@[i] == if i < slot {
                        Some(
                            spec_channel_state(
                                channels@[i].backend_channel,
                                channels@[i].pixel_count,
                                channels@[i].layout,
                            ),
                        )
                    } else {
                        None
                    },
                forall|i: int|
                    0 <= i < 8 ==> #[trigger] handle_arr@[i] == if i < slot {
                        Some(ChannelHandle { driver_id, channel_index: i as usize })
                    } else {
                        None
                    },
            decreases n - slot,
        {
            let setup = channels[slot];
            records[slot] = Some(
                ChannelState::new(setup.backend_channel, setup.pixel_count, setup.layout),
            );
            handle_arr[slot] = Some(ChannelHandle { driver_id, channel_index: slot });
            slot = slot + 1;
        }
        let table = RegistrationTable::new(records, n);
        let engine = LedEngine::new(backend, max_channels, table);
        Ok((Driver { engine, driver_id }, ChannelHandles::new(handle_arr, n)))
    }
}

// ── Runtime driver ───────────────────────────────────────────────────────────

pub struct Driver<B: LedBackend> {
    pub(crate) engine: LedEngine<B>,
    pub(crate) driver_id: DriverId,
}

/// Write access to one channel of a driver.
pub struct ChannelWriter<'d, B: LedBackend> {
    pub engine: &'d mut LedEngine<B>,
    pub channel_index: usize,
    /// The wire bytes the latest successful write packed into the channel's
    /// backend buffer.
    pub written: Ghost<Seq<u8>>,
}

pub open spec fn spec_map_write_err(e: EngineError) -> WriteError {
    match e {
        EngineError::InvalidChannel => WriteError::InvalidChannel,
        EngineError::WriteBusy => WriteError::Busy,
        EngineError::Backend(b) => WriteError::Backend(b),
        EngineError::BackendContractViolation(_) => WriteError::BackendContract,
        EngineError::SourceLengthMismatch { expected_pixels, actual_pixels } =>
            WriteError::LengthMismatch { expected: expected_pixels, actual: actual_pixels },
    }
}

pub open spec fn spec_map_service_err(e: EngineError) -> ServiceError {
    match e {
        EngineError::Backend(b) => ServiceError::Backend(b),
        _ => ServiceError::BackendContract,
    }
}

/// What holds after a driver offered its pending batch from `ready`,
/// whatever the backend answered (see `LedEngine::spec_submit_outcome`).
pub open spec fn spec_service_outcome(
    ready: ReadyState,
    channels: RegistrationTable,
    max: usize,
    r: Result<(), ServiceError>,
    ready2: ReadyState,
    channels2: RegistrationTable,
) -> bool {
    match spec_pending_batch(ready, channels.registered_mask.0) {
        None => r is Ok && ready2 == ready && channels2 == channels,
        Some(batch) => {
            ||| (r matches Err(ServiceError::Backend(_)) && ready2 == ready && channels2 == channels)
            ||| (r is Ok && ready2 == ready && channels2 == channels)
            ||| (r is Ok && ready2 == spec_started(ready, batch) && spec_phases_advanced(
                channels.records,
                channels2.records,
                batch,
                max,
            ) && channels2.registered_mask == channels.registered_mask && channels2.count
                == channels.count)
        },
    }
}

/// What `service` answers after offering the pending batch from `ready`,
/// given the backend's answer `answer` to that offer: a backend error is
/// passed on as `ServiceError::Backend` with nothing changed; `Busy` keeps
/// everything for a retry; `Started` moves the batch in flight and its
/// channels' frame phase on. With no batch to offer nothing changes.
pub open spec fn spec_service_answered(
    ready: ReadyState,
    channels: RegistrationTable,
    max: usize,
    answer: Option<Result<StartTransfer, BackendError>>,
    r: Result<(), ServiceError>,
    ready2: ReadyState,
    channels2: RegistrationTable,
) -> bool {
    match spec_pending_batch(ready, channels.registered_mask.0) {
        None => r is Ok && ready2 == ready && channels2 == channels,
        Some(batch) => match answer {
            None => false,
            Some(Err(e)) => r == Err::<(), _>(ServiceError::Backend(e)) && ready2 == ready
                && channels2 == channels,
            Some(Ok(StartTransfer::Busy)) => r is Ok && ready2 == ready && channels2 == channels,
            Some(Ok(StartTransfer::Started)) => r is Ok && ready2 == spec_started(ready, batch)
                && spec_phases_advanced(channels.records, channels2.records, batch, max)
                && channels2.registered_mask == channels.registered_mask && channels2.count
                == channels.count,
        },
    }
}

impl<B: LedBackend> Driver<B> {
    pub open spec fn wf(&self) -> bool {
        self.runtime().wf()
    }

    pub closed spec fn owner(&self) -> DriverId {
        self.driver_id
    }

    pub closed spec fn runtime(&self) -> LedEngine<B> {
        self.engine
    }

    /// Write access to the channel behind `handle`, if the handle was
    /// issued by this driver.
    pub fn channel<'d>(&'d mut self, handle: &ChannelHandle) -> (r: Result<ChannelWriter<'d, B>, WriteError>)
        ensures
            handle.owner() != old(self).owner() ==> (r matches Err(WriteError::InvalidChannel)
                && *final(self) == *old(self)),
            handle.owner() == old(self).owner() ==> (r matches Ok(w) && *w.engine == old(self).runtime()
                && w.channel_index == handle.slot()
                && final(self).runtime() == *final(w.engine)
                && final(self).owner() == old(self).owner()),
    {
        if handle.driver_id != self.driver_id {
            return Err(WriteError::InvalidChannel);
        }
        Ok(ChannelWriter { engine: &mut self.engine, channel_index: handle.channel_index, written: Ghost(Seq::empty()) })
    }

    /// Promotes published channels into the pending set.
    pub fn commit(&mut self) -> (r: Result<(), ServiceError>)
        requires
            old(self).wf(),
        ensures
            final(self).runtime().backend == old(self).runtime().backend,
            final(self).wf(),
            final(self).owner() == old(self).owner(),
            final(self).runtime().channels == old(self).runtime().channels,
            final(self).runtime().max_channels == old(self).runtime().max_channels,
            old(self).runtime().ready.ingress_violation ==> r == Err::<(), _>(
                ServiceError::BackendContract,
            ) && final(self).runtime().ready == spec_surfaced(old(self).runtime().ready),
            !old(self).runtime().ready.ingress_violation ==> r is Ok && final(self).runtime().ready == spec_promoted(old(self).runtime().ready),
    {
        match self.engine.submit_dirty() {
            Ok(()) => Ok(()),
            Err(e) => Err(map_service_err(e)),
        }
    }

    /// Retires a finished transfer and starts the pending batch when idle.
    pub fn service(&mut self) -> (r: Result<(), ServiceError>)
        requires
            old(self).wf(),
        ensures
            final(self).wf(),
            final(self).owner() == old(self).owner(),
            final(self).runtime().max_channels == old(self).runtime().max_channels,
            old(self).runtime().ready.ingress_violation ==> r == Err::<(), _>(
                ServiceError::BackendContract,
            ) && final(self).runtime().ready == spec_surfaced(old(self).runtime().ready) && final(self).runtime().channels == old(self).runtime().channels,
            !old(self).runtime().ready.ingress_violation ==> spec_service_outcome(
                ReadyState { transfer: spec_retired(old(self).runtime().ready.transfer), ..old(self).runtime().ready },
                old(self).runtime().channels,
                old(self).runtime().max_channels,
                r,
                final(self).runtime().ready,
                final(self).runtime().channels,
            ),
            !old(self).runtime().ready.ingress_violation ==> spec_service_answered(
                ReadyState { transfer: spec_retired(old(self).runtime().ready.transfer), ..old(self).runtime().ready },
                old(self).runtime().channels,
                old(self).runtime().max_channels,
                final(self).runtime().submit_answer@,
                r,
                final(self).runtime().ready,
                final(self).runtime().channels,
            ),
    {
        match self.engine.service() {
            Ok(()) => Ok(()),
            Err(e) => Err(map_service_err(e)),
        }
    }

    pub fn on_backend_signal(&mut self, signal: BackendSignal)
        ensures
            final(self).owner() == old(self).owner(),
            final(self).runtime().ready == old(self).runtime().ready,
            final(self).runtime().channels == old(self).runtime().channels,
            final(self).runtime().max_channels == old(self).runtime().max_channels,
    {
        self.engine.on_backend_signal(signal);
    }

    pub fn on_backend_event(&mut self, event: BackendEvent)
        ensures
            final(self).owner() == old(self).owner(),
            final(self).runtime().ready == engine::runtime::spec_on_complete(old(self).runtime().ready),
            final(self).runtime().channels == old(self).runtime().channels,
            final(self).runtime().max_channels == old(self).runtime().max_channels,
    {
        self.engine.on_backend_event(event);
    }
}

impl<'d, B: LedBackend> ChannelWriter<'d, B> {
    /// Packs `pixels` into the channel's backend buffer, publishes it and
    /// marks the channel dirty.
    pub fn write_rgb48(&mut self, pixels: &[Rgb48]) -> (r: Result<(), WriteError>)
        requires
            old(self).engine.wf(),
        ensures
            final(self).engine.wf(),
            final(self).channel_index == old(self).channel_index,
            *final(final(self).engine) == *final(old(self).engine),
            final(self).engine.channels == old(self).engine.channels,
            final(self).engine.max_channels == old(self).engine.max_channels,
            old(self).engine.ready.ingress_violation ==> r == Err::<(), _>(
                WriteError::BackendContract,
            ) && final(self).engine.ready == spec_surfaced(old(self).engine.ready),
            !old(self).engine.ready.ingress_violation && !slot_occupied(
                old(self).engine.channels.records,
                old(self).channel_index as int,
            ) ==> r == Err::<(), _>(WriteError::InvalidChannel) && final(self).engine.ready == old(self).engine.ready,
            !old(self).engine.ready.ingress_violation && slot_occupied(
                old(self).engine.channels.records,
                old(self).channel_index as int,
            ) ==> {
                &&& r is Ok ==> final(self).engine.ready == spec_marked(old(self).engine.ready, old(self).channel_index)
                &&& r is Err ==> final(self).engine.ready == old(self).engine.ready
                &&& r is Ok ==> pixels@.len() == old(self).engine.channels.records@[old(self).channel_index as int]->Some_0.pixel_count
                &&& r is Ok ==> final(self).written@ == spec_pack::<ActiveTemporalDither, ActiveSpatialQuantizer>(
                    pixels@,
                    old(self).engine.channels.records@[old(self).channel_index as int]->Some_0.layout,
                    old(self).engine.channels.records@[old(self).channel_index as int]->Some_0.frame_phase,
                )
                &&& r matches Err(e) ==> e is Busy || e is Backend || e is BackendContract || (
                e matches WriteError::LengthMismatch { expected, actual } && expected
                    == old(self).engine.channels.records@[old(self).channel_index as int]->Some_0.pixel_count
                    && actual == pixels@.len() && expected != actual)
            },
    {
        let idx = self.channel_index;
        let ghost e0 = *self.engine;
        {
            let mut pw = match self.engine.acquire_prepared_write(idx) {
                Ok(pw) => pw,
                Err(e) => {
                    return Err(map_write_err(e));
                },
            };
            match pw.pack_rgb48_active(pixels) {
                Ok(()) => {},
                Err(e) => {
                    return Err(map_write_err(e));
                },
            }
            proof {
                let rec = e0.channels.records@[idx as int]->Some_0;
                assert(slot_occupied(e0.channels.records, idx as int));
                assert(pw.wire_byte_count == rec.wire_byte_count);
                assert(rec.wire_byte_count == rec.pixel_count * 3);
                assert(pw.packed@.subrange(0, 3 * pixels@.len() as int) =~= pw.packed@);
            }
            match pw.publish() {
                Ok(()) => {},
                Err(e) => {
                    return Err(map_write_err(e));
                },
            }
            self.written = Ghost(pw.packed@);
        }
        match self.engine.mark_channel_published(idx) {
            Ok(()) => Ok(()),
            Err(e) => Err(map_write_err(e)),
        }
    }
}

// ── Error mapping ────────────────────────────────────────────────────────────

pub fn map_write_err(e: EngineError) -> (r: WriteError)
    ensures
        r == spec_map_write_err(e),
{
    match e {
        EngineError::InvalidChannel => WriteError::InvalidChannel,
        EngineError::WriteBusy => WriteError::Busy,
        EngineError::Backend(e) => WriteError::Backend(e),
        EngineError::BackendContractViolation(_) => WriteError::BackendContract,
        EngineError::SourceLengthMismatch { expected_pixels, actual_pixels } =>
            WriteError::LengthMismatch { expected: expected_pixels, actual: actual_pixels },
    }
}

pub fn map_service_err(e: EngineError) -> (r: ServiceError)
    ensures
        r == spec_map_service_err(e),
{
    match e {
        EngineError::Backend(e) => ServiceError::Backend(e),
        _ => ServiceError::BackendContract,
    }
}

} // verus!

verus! {

/// Setups naming distinct backend channels, each within the byte limit,
/// have no problem.
proof fn lemma_setups_valid(channels: Seq<ChannelSetup>, max_bytes: Option<u32>, n: int)
    requires
        0 <= n <= channels.len(),
        forall|i: int|
            0 <= i < n ==> (max_bytes matches Some(m) ==> (#[trigger] channels[i]).pixel_count * 3 <= m),
        forall|i: int, j: int|
            0 <= i < j < n ==> (#[trigger] channels[i]).backend_channel != (
            #[trigger] channels[j]).backend_channel,
    ensures
        spec_setup_error(channels, max_bytes, n) is None,
    decreases n,
{
    if n > 0 {
        lemma_setups_valid(channels, max_bytes, n - 1);
        let s = channels[n - 1];
        assert(max_bytes matches Some(m) ==> s.pixel_count * 3 <= m);
        assert(!exists|k: int| 0 <= k < n - 1 && #[trigger] channels[k].backend_channel == s.backend_channel) by {
            if exists|k: int| 0 <= k < n - 1 && #[trigger] channels[k].backend_channel == s.backend_channel {
                let k = choose|k: int| 0 <= k < n - 1 && #[trigger] channels[k].backend_channel == s.backend_channel;
                assert(channels[k].backend_channel != channels[n - 1].backend_channel);
            }
        }
    }
}

/// Validation against backend limits accepts every setup list that fits:
/// no more setups than the backend's channel count (and the driver's
/// slots), each backend channel named once, each channel within the
/// per-channel byte limit. Such a list is accepted with the usable slot
/// count, `min(caps.max_channels, DRIVER_MAX_CHANNELS)`.
pub proof fn law_fitting_setups_are_accepted(channels: Seq<ChannelSetup>, caps: BackendCapabilities)
    requires
        channels.len() <= caps.max_channels,
        channels.len() <= DRIVER_MAX_CHANNELS,
        forall|i: int|
            0 <= i < channels.len() ==> (caps.max_bytes_per_channel matches Some(m) ==> (
            #[trigger] channels[i]).pixel_count * 3 <= m),
        forall|i: int, j: int|
            0 <= i < j < channels.len() ==> (#[trigger] channels[i]).backend_channel != (
            #[trigger] channels[j]).backend_channel,
    ensures
        spec_check_setups(channels, caps) == Ok::<usize, ConfigureError>(
            if caps.max_channels < DRIVER_MAX_CHANNELS {
                caps.max_channels
            } else {
                DRIVER_MAX_CHANNELS
            },
        ),
{
    lemma_setups_valid(channels, caps.max_bytes_per_channel, channels.len() as int);
}

} // verus!

verus! {

/// `service` follows the backend's answer to the batch it offered: it
/// succeeds exactly when the backend did not fail, passes a failure on as
/// `ServiceError::Backend` with the same error, and only a `Started` answer
/// puts a transfer in flight; any other answer keeps the pending batch and
/// every record for a retry.
pub proof fn law_service_follows_backend_answer(
    ready: ReadyState,
    channels: RegistrationTable,
    max: usize,
    answer: Option<Result<StartTransfer, BackendError>>,
    r: Result<(), ServiceError>,
    ready2: ReadyState,
    channels2: RegistrationTable,
)
    requires
        ready.transfer is Idle,
        ready.pending_mask.0 & channels.registered_mask.0 != 0,
        spec_service_answered(ready, channels, max, answer, r, ready2, channels2),
    ensures
        answer is Some,
        r is Ok <==> answer->Some_0 is Ok,
        answer matches Some(Err(e)) ==> r == Err::<(), _>(ServiceError::Backend(e)),
        ready2.transfer is InFlight <==> answer == Some(Ok::<StartTransfer, BackendError>(StartTransfer::Started)),
        answer != Some(Ok::<StartTransfer, BackendError>(StartTransfer::Started)) ==> ready2.pending_mask
            == ready.pending_mask && channels2 == channels,
{
    assert(ready.pending_mask.0 != 0) by {
        let p = ready.pending_mask.0;
        let g = channels.registered_mask.0;
        assert(p & g != 0 ==> p != 0) by (bit_vector);
    }
}

} // verus!
