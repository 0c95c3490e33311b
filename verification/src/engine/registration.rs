//! Channel registration: a setup is first staged into a plan, the backend is
//! configured with the plan's specs as one batch, and only then are the
//! staged records committed to the engine's table.

use super::error::EngineError;
use super::mask::ChannelMask;
use crate::api::channel::{spec_channel, Channel, DriverId};
use crate::api::setup::{PreparedBinding, PreparedSetup};
use crate::backend::BackendChannelSpec;
use crate::bits::{lemma_mask_or, lemma_mask_single, lemma_mask_zero, mask_has};
use crate::bounded::{
    held_indices, held_specs, index_list_as_slice, index_list_new, index_list_push,
    spec_list_as_slice, spec_list_new, spec_list_push,
};
use crate::model::{BackendChannelId, ChannelId, FrameEpoch, PixelLayout};
use crate::DRIVER_MAX_CHANNELS;
use vstd::prelude::*;

verus! {

/// Registration record of one logical channel.
#[derive(Copy, Clone, Debug, PartialEq, Eq, Structural)]
pub struct ChannelState {
    pub len_pixels: usize,
    pub layout: PixelLayout,
    pub backend_channel: BackendChannelId,
    pub frame_phase: FrameEpoch,
}

/// `s` with its frame phase moved one frame on (wrapping).
pub open spec fn spec_advanced(s: ChannelState) -> ChannelState {
    ChannelState { frame_phase: FrameEpoch(((s.frame_phase.0 + 1) % 0x1_0000_0000) as u32), ..s }
}

impl ChannelState {
    pub fn new(backend_channel: BackendChannelId, len_pixels: usize, layout: PixelLayout) -> (r:
        Self)
        ensures
            r == (ChannelState { len_pixels, layout, backend_channel, frame_phase: FrameEpoch(0) }),
    {
        ChannelState { len_pixels, backend_channel, layout, frame_phase: FrameEpoch::from_raw(0) }
    }

    pub fn advance_phase(&mut self)
        ensures
            *final(self) == spec_advanced(*old(self)),
    {
        self.frame_phase = self.frame_phase.wrapping_add(1);
    }
}

/// The record a binding is staged as.
pub open spec fn spec_staged_record(b: PreparedBinding) -> ChannelState {
    ChannelState {
        len_pixels: b.pixels as usize,
        layout: b.layout,
        backend_channel: b.backend_channel,
        frame_phase: FrameEpoch(0),
    }
}

/// The backend spec a binding is configured with.
pub open spec fn spec_staged_spec(b: PreparedBinding) -> BackendChannelSpec {
    BackendChannelSpec { channel: b.backend_channel, pixels: b.pixels, layout: b.layout }
}

/// Problem with staging binding `j` after the bindings before it.
pub open spec fn spec_plan_binding_error(
    bs: Seq<PreparedBinding>,
    j: int,
    max_channels: usize,
    max_bytes: Option<u32>,
) -> Option<EngineError> {
    let b = bs[j];
    if b.logical_channel.0 >= max_channels {
        Some(EngineError::ChannelOutOfRange)
    } else if exists|k: int| 0 <= k < j && #[trigger] bs[k].logical_channel == b.logical_channel {
        Some(EngineError::ChannelAlreadyRegistered)
    } else if max_bytes matches Some(m) && b.pixels * 3 > m {
        Some(EngineError::ConfigurationLimitExceeded)
    } else {
        None
    }
}

/// First staging problem among the first `n` bindings.
pub open spec fn spec_plan_error(
    bs: Seq<PreparedBinding>,
    n: int,
    max_channels: usize,
    max_bytes: Option<u32>,
) -> Option<EngineError>
    decreases n,
{
    if n <= 0 {
        None
    } else {
        match spec_plan_error(bs, n - 1, max_channels, max_bytes) {
            Some(e) => Some(e),
            None => spec_plan_binding_error(bs, n - 1, max_channels, max_bytes),
        }
    }
}

proof fn lemma_plan_error_at(
    bs: Seq<PreparedBinding>,
    j: int,
    max_channels: usize,
    max_bytes: Option<u32>,
)
    requires
        0 <= j < bs.len(),
        spec_plan_error(bs, j, max_channels, max_bytes) is None,
        spec_plan_binding_error(bs, j, max_channels, max_bytes) is Some,
    ensures
        spec_plan_error(bs, bs.len() as int, max_channels, max_bytes) == spec_plan_binding_error(
            bs,
            j,
            max_channels,
            max_bytes,
        ),
    decreases bs.len() - j,
{
    lemma_plan_error_stable(bs, j + 1, bs.len() as int, max_channels, max_bytes);
}

proof fn lemma_plan_error_stable(
    bs: Seq<PreparedBinding>,
    k: int,
    m: int,
    max_channels: usize,
    max_bytes: Option<u32>,
)
    requires
        0 <= k <= m,
        spec_plan_error(bs, k, max_channels, max_bytes) is Some,
    ensures
        spec_plan_error(bs, m, max_channels, max_bytes) == spec_plan_error(
            bs,
            k,
            max_channels,
            max_bytes,
        ),
    decreases m - k,
{
    if m > k {
        lemma_plan_error_stable(bs, k, m - 1, max_channels, max_bytes);
    }
}

/// Slot contents after staging the first `n` bindings: each binding's
/// record at its logical channel.
pub open spec fn spec_plan_records(bs: Seq<PreparedBinding>, n: int) -> Seq<Option<ChannelState>>
    decreases n,
{
    if n <= 0 {
        Seq::new(DRIVER_MAX_CHANNELS as nat, |i: int| None)
    } else {
        spec_plan_records(bs, n - 1).update(
            bs[n - 1].logical_channel.0 as int,
            Some(spec_staged_record(bs[n - 1])),
        )
    }
}

/// Handle contents after staging the first `n` bindings.
pub open spec fn spec_plan_handles(bs: Seq<PreparedBinding>, n: int, driver_id: DriverId) -> Seq<
    Option<Channel>,
>
    decreases n,
{
    if n <= 0 {
        Seq::new(DRIVER_MAX_CHANNELS as nat, |i: int| None)
    } else {
        let c = bs[n - 1].logical_channel;
        spec_plan_handles(bs, n - 1, driver_id).update(
            c.0 as int,
            Some(spec_channel(driver_id, c)),
        )
    }
}

/// One registration unit staged from a prepared setup: the handles to hand
/// out, the records to commit, the backend specs and the staging order.
pub struct RegistrationPlan {
    handles: [Option<Channel>; DRIVER_MAX_CHANNELS],
    records: [Option<ChannelState>; DRIVER_MAX_CHANNELS],
    specs: heapless::Vec<BackendChannelSpec, DRIVER_MAX_CHANNELS>,
    order: heapless::Vec<usize, DRIVER_MAX_CHANNELS>,
}

/// Staged `(slot, record)` pairs of a plan, in staging order.
pub open spec fn spec_staged(records: Seq<Option<ChannelState>>, order: Seq<usize>) -> Seq<(usize, ChannelState)> {
    order.map_values(|i: usize| (i, records[i as int]->Some_0))
}

impl RegistrationPlan {
    /// Every staged slot holds a record.
    #[verifier::type_invariant]
    pub closed spec fn inv(self) -> bool {
        &&& held_indices(self.order).len() <= DRIVER_MAX_CHANNELS
        &&& forall|k: int|
            0 <= k < held_indices(self.order).len() ==> {
                let i = #[trigger] held_indices(self.order)[k];
                i < DRIVER_MAX_CHANNELS && self.records@[i as int] is Some
            }
        &&& forall|i: int|
            0 <= i < 8 && #[trigger] self.records@[i] is Some ==> self.records@[i]->Some_0.len_pixels
                <= 0xFFFF
    }

    pub closed spec fn planned_handles(self) -> Seq<Option<Channel>> {
        self.handles@
    }

    pub closed spec fn planned_records(self) -> Seq<Option<ChannelState>> {
        self.records@
    }

    pub closed spec fn planned_specs(self) -> Seq<BackendChannelSpec> {
        held_specs(self.specs)
    }

    pub closed spec fn planned_order(self) -> Seq<usize> {
        held_indices(self.order)
    }

    /// Staged `(slot, record)` pairs, in staging order.
    pub open spec fn staged(self) -> Seq<(usize, ChannelState)> {
        spec_staged(self.planned_records(), self.planned_order())
    }

    /// Stages a validated setup for the driver `driver_id`, checking the
    /// engine's structural limits, without touching any engine state.
    pub fn from_prepared_setup(
        setup: &PreparedSetup,
        driver_id: DriverId,
        max_channels: usize,
        max_bytes_per_channel: Option<u32>,
    ) -> (r: Result<Self, EngineError>)
        ensures
            match spec_plan_error(setup@, setup@.len() as int, max_channels, max_bytes_per_channel) {
                Some(e) => r == Err::<Self, _>(e),
                None => r matches Ok(plan) && {
                    &&& plan.planned_records() == spec_plan_records(setup@, setup@.len() as int)
                    &&& plan.planned_handles() == spec_plan_handles(setup@, setup@.len() as int, driver_id)
                    &&& plan.planned_specs() == setup@.map_values(|b: PreparedBinding| spec_staged_spec(b))
                    &&& plan.planned_order() == setup@.map_values(|b: PreparedBinding| b.logical_channel.0 as usize)
                },
            },
    {
        proof {
            use_type_invariant(setup);
            crate::api::setup::law_valid_bindings_are_distinct(setup@);
        }
        let bindings = setup.bindings();
        let ghost bs = setup@;
        let mut handles: [Option<Channel>; DRIVER_MAX_CHANNELS] = [None; DRIVER_MAX_CHANNELS];
        let mut records: [Option<ChannelState>; DRIVER_MAX_CHANNELS] = [None; DRIVER_MAX_CHANNELS];
        let mut specs = spec_list_new();
        let mut order = index_list_new();
        let n = bindings.len();
        let mut idx: usize = 0;
        assert(records@ == spec_plan_records(bs, 0));
        assert(handles@ == spec_plan_handles(bs, 0, driver_id));
        while idx < n
            invariant
                bindings@ == bs,
                bs == setup@,
                n == bs.len(),
                n <= DRIVER_MAX_CHANNELS,
                idx <= n,
                forall|k: int| 0 <= k < n ==> (#[trigger] bs[k]).logical_channel.0 < DRIVER_MAX_CHANNELS,
                spec_plan_error(bs, idx as int, max_channels, max_bytes_per_channel) is None,
                records@ == spec_plan_records(bs, idx as int),
                handles@ == spec_plan_handles(bs, idx as int, driver_id),
                held_specs(specs) == bs.subrange(0, idx as int).map_values(|b: PreparedBinding| spec_staged_spec(b)),
                held_indices(order) == bs.subrange(0, idx as int).map_values(|b: PreparedBinding| b.logical_channel.0 as usize),
                forall|k: int| 0 <= k < idx ==> #[trigger] bs[k].logical_channel.0 < max_channels,
                forall|c: int| 0 <= c < 8 ==> (#[trigger] records@[c] is Some <==> exists|k: int| 0 <= k < idx && bs[k].logical_channel.0 == c),
                forall|c: int| 0 <= c < 8 && #[trigger] records@[c] is Some ==> records@[c]->Some_0.len_pixels <= 0xFFFF,
            decreases n - idx,
        {
            let binding = bindings[idx];
            let channel_index = binding.logical_channel.as_index();
            if channel_index >= max_channels {
                proof {
                    lemma_plan_error_at(bs, idx as int, max_channels, max_bytes_per_channel);
                }
                return Err(EngineError::ChannelOutOfRange);
            }
            if records[channel_index].is_some() {
                proof {
                    let k = choose|k: int| 0 <= k < idx && bs[k].logical_channel.0 == channel_index;
                    assert(bs[k].logical_channel == binding.logical_channel);
                    lemma_plan_error_at(bs, idx as int, max_channels, max_bytes_per_channel);
                }
                return Err(EngineError::ChannelAlreadyRegistered);
            }
            proof {
                assert(!exists|k: int| 0 <= k < idx && #[trigger] bs[k].logical_channel == binding.logical_channel) by {
                    if exists|k: int| 0 <= k < idx && #[trigger] bs[k].logical_channel == binding.logical_channel {
                        let k = choose|k: int| 0 <= k < idx && #[trigger] bs[k].logical_channel == binding.logical_channel;
                        assert(bs[k].logical_channel.0 == channel_index);
                    }
                }
            }
            let wire_bytes = match (binding.pixels as u32).checked_mul(3) {
                Some(w) => w,
                None => {
                    return Err(EngineError::ConfigurationLimitExceeded);
                },
            };
            if let Some(max_bytes) = max_bytes_per_channel {
                if wire_bytes > max_bytes {
                    proof {
                        lemma_plan_error_at(bs, idx as int, max_channels, max_bytes_per_channel);
                    }
                    return Err(EngineError::ConfigurationLimitExceeded);
                }
            }
            let record = ChannelState::new(binding.backend_channel, binding.pixels as usize, binding.layout);
            let pixels: u16 = if record.len_pixels <= 0xFFFF {
                record.len_pixels as u16
            } else {
                return Err(EngineError::ChannelOutOfRange);
            };
            let spec = BackendChannelSpec { channel: record.backend_channel, pixels, layout: record.layout };
            let logical_channel = match ChannelId::from_index(channel_index) {
                Some(c) => c,
                None => {
                    return Err(EngineError::ChannelOutOfRange);
                },
            };
            handles[channel_index] = Some(Channel::new(driver_id, logical_channel));
            records[channel_index] = Some(record);
            let pushed_spec = spec_list_push(&mut specs, spec);
            if pushed_spec.is_err() {
                return Err(EngineError::ConfigurationLimitExceeded);
            }
            let pushed_index = index_list_push(&mut order, channel_index);
            if pushed_index.is_err() {
                return Err(EngineError::ConfigurationLimitExceeded);
            }
            proof {
                assert(bs.subrange(0, idx + 1) == bs.subrange(0, idx as int).push(binding));
                assert(binding.logical_channel == logical_channel);
            }
            idx = idx + 1;
        }
        proof {
            assert(bs.subrange(0, n as int) == bs);
            assert forall|k: int| 0 <= k < held_indices(order).len() implies {
                let i = #[trigger] held_indices(order)[k];
                i < DRIVER_MAX_CHANNELS && records@[i as int] is Some
            } by {
                assert(held_indices(order)[k] == bs[k].logical_channel.0);
            }
        }
        Ok(RegistrationPlan { handles, records, specs, order })
    }

    pub fn handles(&self) -> (r: [Option<Channel>; DRIVER_MAX_CHANNELS])
        ensures
            r@ == self.planned_handles(),
    {
        self.handles
    }

    pub fn specs(&self) -> (r: &[BackendChannelSpec])
        ensures
            r@ == self.planned_specs(),
    {
        spec_list_as_slice(&self.specs)
    }

    /// Staged `(slot, record)` pairs, in staging order.
    pub fn staged_records(&self) -> (r: Vec<(usize, ChannelState)>)
        ensures
            r@ == self.staged(),
            forall|k: int| 0 <= k < r@.len() ==> (#[trigger] r@[k]).1.len_pixels <= 0xFFFF,
            forall|k: int| 0 <= k < r@.len() ==> (#[trigger] r@[k]).0 < DRIVER_MAX_CHANNELS,
    {
        proof {
            use_type_invariant(self);
        }
        let order = index_list_as_slice(&self.order);
        let mut out: Vec<(usize, ChannelState)> = Vec::new();
        let mut k: usize = 0;
        while k < order.len()
            invariant
                order@ == held_indices(self.order),
                k <= order@.len(),
                out@ == spec_staged(self.records@, order@.subrange(0, k as int)),
                forall|i: int|
                    0 <= i < 8 && #[trigger] self.records@[i] is Some ==> self.records@[i]->Some_0.len_pixels
                        <= 0xFFFF,
                forall|j: int|
                    0 <= j < order@.len() ==> {
                        let i = #[trigger] order@[j];
                        i < DRIVER_MAX_CHANNELS && self.records@[i as int] is Some
                    },
            decreases order@.len() - k,
        {
            let channel_index = order[k];
            let record = match self.records[channel_index] {
                Some(rec) => rec,
                None => {
                    return out;
                },
            };
            out.push((channel_index, record));
            proof {
                assert(order@.subrange(0, k + 1) == order@.subrange(0, k as int).push(channel_index));
            }
            k = k + 1;
        }
        assert(order@.subrange(0, order@.len() as int) == order@);
        out
    }
}

} // verus!

verus! {

/// Lookup of slot `index` in a table limited to `max_channels` slots.
pub open spec fn spec_lookup(
    records: Seq<Option<ChannelState>>,
    index: usize,
    max_channels: usize,
) -> Result<ChannelState, EngineError> {
    if index >= max_channels {
        Err(EngineError::ChannelOutOfRange)
    } else if records[index as int] is None {
        Err(EngineError::ChannelNotRegistered)
    } else {
        Ok(records[index as int]->Some_0)
    }
}

/// Table contents and first error after registering the first `n` staged
/// pairs in order, stopping at the first refused one.
pub open spec fn spec_commit(
    records: Seq<Option<ChannelState>>,
    staged: Seq<(usize, ChannelState)>,
    max_channels: usize,
    n: int,
) -> (Seq<Option<ChannelState>>, Option<EngineError>)
    decreases n,
{
    if n <= 0 {
        (records, None)
    } else {
        let prev = spec_commit(records, staged, max_channels, n - 1);
        if prev.1 is Some {
            prev
        } else {
            let (i, c) = staged[n - 1];
            if i >= max_channels {
                (prev.0, Some(EngineError::ChannelOutOfRange))
            } else if prev.0[i as int] is Some {
                (prev.0, Some(EngineError::ChannelAlreadyRegistered))
            } else {
                (prev.0.update(i as int, Some(c)), None)
            }
        }
    }
}

/// The mask whose bits are the registered slots below `max_channels` (and
/// below `DRIVER_MAX_CHANNELS`, the table's size).
pub open spec fn spec_registered_bits(records: Seq<Option<ChannelState>>, max_channels: usize) -> u32 {
    choose|b: u32| #[trigger] is_registered_bits(b, records, max_channels)
}

/// `b` has exactly the registered slots below `max_channels` set.
pub open spec fn is_registered_bits(b: u32, records: Seq<Option<ChannelState>>, max_channels: usize) -> bool {
    forall|i: u32|
        #[trigger] mask_has(b, i) <==> (i < max_channels && i < DRIVER_MAX_CHANNELS && records[i as int] is Some)
}

/// Bits of the registered slots among the first `n` slots.
spec fn spec_bits_upto(records: Seq<Option<ChannelState>>, max_channels: usize, n: nat) -> u32
    decreases n,
{
    if n == 0 {
        0
    } else {
        let prev = spec_bits_upto(records, max_channels, (n - 1) as nat);
        if n - 1 < max_channels && records[n - 1] is Some {
            prev | (1u32 << (n - 1) as u32)
        } else {
            prev
        }
    }
}

proof fn lemma_bits_upto(records: Seq<Option<ChannelState>>, max_channels: usize, n: nat)
    requires
        n <= DRIVER_MAX_CHANNELS,
    ensures
        forall|i: u32|
            #[trigger] mask_has(spec_bits_upto(records, max_channels, n), i) <==> (i < n && i
                < max_channels && records[i as int] is Some),
    decreases n,
{
    if n == 0 {
        assert forall|i: u32| !#[trigger] mask_has(0, i) by {
            lemma_mask_zero(i);
        }
    } else {
        lemma_bits_upto(records, max_channels, (n - 1) as nat);
        let prev = spec_bits_upto(records, max_channels, (n - 1) as nat);
        let j = (n - 1) as u32;
        assert forall|i: u32|
            #[trigger] mask_has(spec_bits_upto(records, max_channels, n), i) <==> (i < n && i
                < max_channels && records[i as int] is Some) by {
            lemma_mask_or(prev, 1u32 << j, i);
            lemma_mask_single(j, i);
        }
    }
}

/// The registered-slot mask exists: its bits are exactly the registered
/// slots below `max_channels` and the table's size.
pub proof fn lemma_registered_bits_exact(records: Seq<Option<ChannelState>>, max_channels: usize)
    ensures
        forall|i: u32|
            #[trigger] mask_has(spec_registered_bits(records, max_channels), i) <==> (i < max_channels
                && i < DRIVER_MAX_CHANNELS && records[i as int] is Some),
{
    lemma_bits_upto(records, max_channels, 8);
    let b = spec_bits_upto(records, max_channels, 8);
    assert(is_registered_bits(b, records, max_channels));
}

pub proof fn lemma_registered_bits(records: Seq<Option<ChannelState>>, max_channels: usize, bits: u32)
    requires
        forall|i: u32| #[trigger] mask_has(bits, i) <==> (i < max_channels && i < DRIVER_MAX_CHANNELS && records[i as int] is Some),
    ensures
        spec_registered_bits(records, max_channels) == bits,
        forall|i: u32| #[trigger] mask_has(spec_registered_bits(records, max_channels), i) <==> (i < max_channels && i < DRIVER_MAX_CHANNELS && records[i as int] is Some),
{
    assert(is_registered_bits(bits, records, max_channels));
    let b = spec_registered_bits(records, max_channels);
    assert forall|i: u32| i < 32 implies #[trigger] mask_has(b, i) == mask_has(bits, i) by {}
    crate::bits::lemma_mask_ext(b, bits);
}

/// Every record sits below `max_channels` and describes at most
/// `u16::MAX` pixels.
pub open spec fn records_ok(records: Seq<Option<ChannelState>>, max_channels: usize) -> bool {
    &&& records.len() == DRIVER_MAX_CHANNELS
    &&& forall|i: int|
        0 <= i < 8 && #[trigger] records[i] is Some ==> i < max_channels && records[i]->Some_0.len_pixels
            <= 0xFFFF
}

/// Committing bounded records keeps a table bounded.
pub proof fn lemma_commit_keeps_records_ok(
    records: Seq<Option<ChannelState>>,
    staged: Seq<(usize, ChannelState)>,
    max_channels: usize,
    n: int,
)
    requires
        records_ok(records, max_channels),
        0 <= n <= staged.len(),
        forall|k: int| 0 <= k < staged.len() ==> (#[trigger] staged[k]).1.len_pixels <= 0xFFFF,
        forall|k: int| 0 <= k < staged.len() ==> (#[trigger] staged[k]).0 < DRIVER_MAX_CHANNELS,
    ensures
        records_ok(spec_commit(records, staged, max_channels, n).0, max_channels),
    decreases n,
{
    if n > 0 {
        lemma_commit_keeps_records_ok(records, staged, max_channels, n - 1);
        let t = staged[n - 1];
    }
}

/// Registered channels, indexed by logical channel.
#[derive(Copy, Clone, Debug)]
pub struct RegistrationTable {
    pub records: [Option<ChannelState>; DRIVER_MAX_CHANNELS],
}

impl RegistrationTable {
    pub fn new() -> (r: Self)
        ensures
            forall|i: int| 0 <= i < 8 ==> #[trigger] r.records@[i] is None,
    {
        RegistrationTable { records: [None; DRIVER_MAX_CHANNELS] }
    }

    pub fn register(&mut self, max_channels: usize, channel_index: usize, channel: ChannelState) -> (r:
        Result<(), EngineError>)
        requires
            channel_index < max_channels ==> channel_index < DRIVER_MAX_CHANNELS,
        ensures
            channel_index >= max_channels ==> r == Err::<(), _>(EngineError::ChannelOutOfRange)
                && *final(self) == *old(self),
            channel_index < max_channels && old(self).records@[channel_index as int] is Some ==> r
                == Err::<(), _>(EngineError::ChannelAlreadyRegistered) && *final(self) == *old(self),
            channel_index < max_channels && old(self).records@[channel_index as int] is None ==> r
                is Ok && final(self).records@ == old(self).records@.update(
                channel_index as int,
                Some(channel),
            ),
    {
        if channel_index >= max_channels {
            return Err(EngineError::ChannelOutOfRange);
        }
        if self.records[channel_index].is_some() {
            return Err(EngineError::ChannelAlreadyRegistered);
        }
        self.records[channel_index] = Some(channel);
        Ok(())
    }

    /// Commits a plan's staged records, in staging order.
    pub fn commit_plan(&mut self, max_channels: usize, plan: &RegistrationPlan) -> (r: Result<
        (),
        EngineError,
    >)
        ensures
            records_ok(old(self).records@, max_channels) ==> records_ok(final(self).records@, max_channels),
            ({
                let (records, err) = spec_commit(
                    old(self).records@,
                    plan.staged(),
                    max_channels,
                    plan.staged().len() as int,
                );
                &&& final(self).records@ == records
                &&& match err {
                    Some(e) => r == Err::<(), _>(e),
                    None => r is Ok,
                }
            }),
    {
        let staged = plan.staged_records();
        let n = staged.len();
        let mut k: usize = 0;
        while k < n
            invariant
                n == staged@.len(),
                staged@ == plan.staged(),
                k <= n,
                forall|j: int| 0 <= j < staged@.len() ==> (#[trigger] staged@[j]).0 < DRIVER_MAX_CHANNELS,
                spec_commit(old(self).records@, staged@, max_channels, k as int) == (
                    self.records@,
                    None::<EngineError>,
                ),
                forall|j: int| 0 <= j < staged@.len() ==> (#[trigger] staged@[j]).1.len_pixels <= 0xFFFF,
            decreases n - k,
        {
            let (channel_index, channel) = staged[k];
            match self.register(max_channels, channel_index, channel) {
                Ok(()) => {},
                Err(e) => {
                    proof {
                        lemma_commit_stable(old(self).records@, staged@, max_channels, k + 1, n as int);
                        if records_ok(old(self).records@, max_channels) {
                            lemma_commit_keeps_records_ok(old(self).records@, staged@, max_channels, n as int);
                        }
                    }
                    return Err(e);
                },
            }
            k = k + 1;
        }
        proof {
            if records_ok(old(self).records@, max_channels) {
                lemma_commit_keeps_records_ok(old(self).records@, staged@, max_channels, n as int);
            }
        }
        Ok(())
    }

    pub fn record(&self, channel_index: usize, max_channels: usize) -> (r: Result<
        ChannelState,
        EngineError,
    >)
        requires
            channel_index < max_channels ==> channel_index < DRIVER_MAX_CHANNELS,
        ensures
            r == spec_lookup(self.records@, channel_index, max_channels),
    {
        if channel_index >= max_channels {
            return Err(EngineError::ChannelOutOfRange);
        }
        match self.records[channel_index] {
            Some(s) => Ok(s),
            None => Err(EngineError::ChannelNotRegistered),
        }
    }

    pub fn record_mut(&mut self, channel_index: usize, max_channels: usize) -> (r: Result<
        &mut ChannelState,
        EngineError,
    >)
        requires
            channel_index < max_channels ==> channel_index < DRIVER_MAX_CHANNELS,
        ensures
            spec_lookup(old(self).records@, channel_index, max_channels) matches Err(e) ==> r
                matches Err(re) && re == e && *final(self) == *old(self),
            spec_lookup(old(self).records@, channel_index, max_channels) matches Ok(s) ==> r
                matches Ok(rs) && *rs == s && final(self).records@ == old(self).records@.update(
                channel_index as int,
                Some(*final(rs)),
            ),
    {
        if channel_index >= max_channels {
            return Err(EngineError::ChannelOutOfRange);
        }
        if self.records[channel_index].is_none() {
            return Err(EngineError::ChannelNotRegistered);
        }
        match &mut self.records[channel_index] {
            Some(s) => Ok(s),
            None => Err(EngineError::ChannelNotRegistered),
        }
    }

    /// Mask of the registered slots below `max_channels`; a limit past the
    /// table's size covers the whole table.
    pub fn registered_channel_mask(&self, max_channels: usize) -> (r: Result<ChannelMask, EngineError>)
        ensures
            r == Ok::<_, EngineError>(ChannelMask(spec_registered_bits(self.records@, max_channels))),
            forall|i: u32| #[trigger] mask_has(spec_registered_bits(self.records@, max_channels), i) <==> (i < max_channels && i < DRIVER_MAX_CHANNELS && self.records@[i as int] is Some),
    {
        let limit = if max_channels < DRIVER_MAX_CHANNELS {
            max_channels
        } else {
            DRIVER_MAX_CHANNELS
        };
        let mut bits: u32 = 0;
        proof {
            assert forall|j: u32| !#[trigger] mask_has(0, j) by {
                lemma_mask_zero(j);
            }
        }
        let mut index: usize = 0;
        while index < limit
            invariant
                index <= limit,
                limit <= DRIVER_MAX_CHANNELS,
                limit <= max_channels,
                limit == max_channels || limit == DRIVER_MAX_CHANNELS,
                forall|i: u32| #[trigger] mask_has(bits, i) <==> (i < index && self.records@[i as int] is Some),
            decreases limit - index,
        {
            if self.records[index].is_some() {
                let bit = Self::mask_bit(index)?;
                proof {
                    assert forall|i: u32| #[trigger] mask_has(bits | bit.0, i) <==> (mask_has(bits, i) || i == index) by {
                        lemma_mask_or(bits, bit.0, i);
                        lemma_mask_single(index as u32, i);
                    }
                }
                bits = bits | bit.bits();
            }
            index = index + 1;
        }
        proof {
            lemma_registered_bits(self.records@, max_channels, bits);
        }
        Ok(ChannelMask::from_bits(bits))
    }

    /// `dirty_mask` with the bit of a registered channel added.
    pub fn mark_written(&self, channel_index: usize, max_channels: usize, dirty_mask: ChannelMask) -> (r:
        Result<ChannelMask, EngineError>)
        requires
            channel_index < max_channels ==> channel_index < DRIVER_MAX_CHANNELS,
        ensures
            spec_lookup(self.records@, channel_index, max_channels) matches Err(e) ==> r
                == Err::<ChannelMask, _>(e),
            spec_lookup(self.records@, channel_index, max_channels) is Ok ==> r == Ok::<
                _,
                EngineError,
            >(ChannelMask(dirty_mask.0 | (1u32 << channel_index as u32))),
    {
        self.record(channel_index, max_channels)?;
        let bit = Self::mask_bit(channel_index)?;
        Ok(ChannelMask::from_bits(dirty_mask.bits() | bit.bits()))
    }

    /// Moves a registered channel's frame phase one frame on.
    pub fn advance_phase(&mut self, channel_index: usize, max_channels: usize) -> (r: Result<
        (),
        EngineError,
    >)
        requires
            channel_index < max_channels ==> channel_index < DRIVER_MAX_CHANNELS,
        ensures
            spec_lookup(old(self).records@, channel_index, max_channels) matches Err(e) ==> r
                == Err::<(), _>(e) && *final(self) == *old(self),
            spec_lookup(old(self).records@, channel_index, max_channels) matches Ok(s) ==> r is Ok
                && final(self).records@ == old(self).records@.update(
                channel_index as int,
                Some(spec_advanced(s)),
            ),
    {
        let record = self.record_mut(channel_index, max_channels)?;
        record.advance_phase();
        Ok(())
    }

    /// The single-bit mask of a channel slot.
    pub fn mask_bit(channel_index: usize) -> (r: Result<ChannelMask, EngineError>)
        requires
            channel_index < ChannelMask::CAPACITY_BITS,
        ensures
            r == Ok::<_, EngineError>(ChannelMask(1u32 << channel_index as u32)),
    {
        if channel_index >= ChannelMask::CAPACITY_BITS {
            return Err(EngineError::ConfigurationLimitExceeded);
        }
        Ok(ChannelMask::from_bits(1u32 << channel_index as u32))
    }
}

proof fn lemma_commit_stable(
    records: Seq<Option<ChannelState>>,
    staged: Seq<(usize, ChannelState)>,
    max_channels: usize,
    k: int,
    m: int,
)
    requires
        0 <= k <= m,
        spec_commit(records, staged, max_channels, k).1 is Some,
    ensures
        spec_commit(records, staged, max_channels, m) == spec_commit(records, staged, max_channels, k),
    decreases m - k,
{
    if m > k {
        lemma_commit_stable(records, staged, max_channels, k, m - 1);
    }
}

} // verus!

verus! {

/// Staging only ever reports out-of-range, duplicate or oversized channels.
pub proof fn lemma_plan_error_kinds(
    bs: Seq<PreparedBinding>,
    n: int,
    max_channels: usize,
    max_bytes: Option<u32>,
)
    ensures
        spec_plan_error(bs, n, max_channels, max_bytes) matches Some(e) ==> (e is ChannelOutOfRange
            || e is ChannelAlreadyRegistered || e is ConfigurationLimitExceeded),
    decreases n,
{
    if n > 0 {
        lemma_plan_error_kinds(bs, n - 1, max_channels, max_bytes);
    }
}

/// No staging problem in a prefix means no problem at any binding of it.
pub proof fn lemma_plan_ok_each(
    bs: Seq<PreparedBinding>,
    n: int,
    max_channels: usize,
    max_bytes: Option<u32>,
    j: int,
)
    requires
        0 <= j < n,
        spec_plan_error(bs, n, max_channels, max_bytes) is None,
    ensures
        spec_plan_binding_error(bs, j, max_channels, max_bytes) is None,
    decreases n - j,
{
    if j < n - 1 {
        lemma_plan_ok_each(bs, n - 1, max_channels, max_bytes, j);
    }
}

/// A staged slot is occupied exactly when some earlier binding names it.
pub proof fn lemma_plan_records_occupied(bs: Seq<PreparedBinding>, m: int, c: int)
    requires
        0 <= m <= bs.len(),
        0 <= c < 8,
        forall|k: int| 0 <= k < m ==> (#[trigger] bs[k]).logical_channel.0 < 8,
    ensures
        spec_plan_records(bs, m).len() == 8,
        spec_plan_records(bs, m)[c] is Some <==> exists|k: int| 0 <= k < m && (#[trigger] bs[k]).logical_channel.0 == c,
    decreases m,
{
    if m > 0 {
        lemma_plan_records_occupied(bs, m - 1, c);
        if spec_plan_records(bs, m)[c] is Some && bs[m - 1].logical_channel.0 != c {
            let k = choose|k: int| 0 <= k < m - 1 && (#[trigger] bs[k]).logical_channel.0 == c;
            assert(bs[k].logical_channel.0 == c);
        }
    }
}

/// With distinct logical channels, each binding's slot holds its record.
pub proof fn lemma_plan_records_at(bs: Seq<PreparedBinding>, m: int, k: int)
    requires
        0 <= k < m <= bs.len(),
        forall|j: int| 0 <= j < m ==> (#[trigger] bs[j]).logical_channel.0 < 8,
        forall|i: int, j: int|
            0 <= i < j < m ==> (#[trigger] bs[i]).logical_channel != (#[trigger] bs[j]).logical_channel,
    ensures
        spec_plan_records(bs, m)[bs[k].logical_channel.0 as int] == Some(spec_staged_record(bs[k])),
    decreases m,
{
    lemma_plan_records_occupied(bs, m - 1, 0);
    if k < m - 1 {
        lemma_plan_records_at(bs, m - 1, k);
        assert(bs[k].logical_channel != bs[m - 1].logical_channel);
    }
}

/// Committing a problem-free plan into an empty table registers exactly the
/// plan's records.
pub proof fn lemma_commit_fresh(
    bs: Seq<PreparedBinding>,
    max_channels: usize,
    max_bytes: Option<u32>,
    n: int,
)
    requires
        0 <= n <= bs.len(),
        max_channels <= DRIVER_MAX_CHANNELS,
        spec_plan_error(bs, bs.len() as int, max_channels, max_bytes) is None,
    ensures
        spec_commit(
            Seq::new(DRIVER_MAX_CHANNELS as nat, |i: int| None),
            spec_staged(
                spec_plan_records(bs, bs.len() as int),
                bs.map_values(|b: PreparedBinding| b.logical_channel.0 as usize),
            ),
            max_channels,
            n,
        ) == (spec_plan_records(bs, n), None::<EngineError>),
    decreases n,
{
    let nn = bs.len() as int;
    let staged = spec_staged(
        spec_plan_records(bs, nn),
        bs.map_values(|b: PreparedBinding| b.logical_channel.0 as usize),
    );
    assert forall|j: int| 0 <= j < nn implies (#[trigger] bs[j]).logical_channel.0 < max_channels by {
        lemma_plan_ok_each(bs, nn, max_channels, max_bytes, j);
    }
    assert forall|i: int, j: int| 0 <= i < j < nn implies (#[trigger] bs[i]).logical_channel != (
    #[trigger] bs[j]).logical_channel by {
        lemma_plan_ok_each(bs, nn, max_channels, max_bytes, j);
    }
    if n > 0 {
        lemma_commit_fresh(bs, max_channels, max_bytes, n - 1);
        let c = bs[n - 1].logical_channel.0 as int;
        lemma_plan_records_at(bs, nn, n - 1);
        lemma_plan_records_occupied(bs, n - 1, c);
        assert(staged[n - 1] == (c as usize, spec_staged_record(bs[n - 1])));
        assert(!exists|k: int| 0 <= k < n - 1 && (#[trigger] bs[k]).logical_channel.0 == c);
    }
}

} // verus!

verus! {

/// The handles a configuration hands out match the records it commits: a
/// slot has a handle exactly when it has a record, and every handle names
/// its own slot and carries the configuring driver's tag.
pub proof fn law_handles_match_records(
    bs: Seq<PreparedBinding>,
    n: int,
    driver_id: DriverId,
    i: int,
)
    requires
        0 <= n <= bs.len(),
        0 <= i < DRIVER_MAX_CHANNELS,
        forall|k: int| 0 <= k < n ==> (#[trigger] bs[k]).logical_channel.0 < DRIVER_MAX_CHANNELS,
    ensures
        spec_plan_handles(bs, n, driver_id).len() == DRIVER_MAX_CHANNELS,
        spec_plan_records(bs, n).len() == DRIVER_MAX_CHANNELS,
        spec_plan_handles(bs, n, driver_id)[i] is Some <==> spec_plan_records(bs, n)[i] is Some,
        spec_plan_handles(bs, n, driver_id)[i] matches Some(c) ==> c.tag() == driver_id
            && c.logical().0 == i,
    decreases n,
{
    if n > 0 {
        law_handles_match_records(bs, n - 1, driver_id, i);
        let c = bs[n - 1].logical_channel;
        crate::api::channel::lemma_spec_channel(driver_id, c);
    }
}

} // verus!
