//! Authoritative engine state machine behind the typestate API.
//!
//! - `registration`: staged plans and the registered-channel table;
//! - `runtime`: write, submit and transfer progression;
//! - `error`: the engine's error vocabulary.
//!
//! Invariants the contracts below state:
//! - a transfer goes in flight only after the backend accepted it;
//! - a busy backend leaves the pending set intact;
//! - a channel's frame phase moves on only for batches the backend accepted;
//! - configuration is committed locally only after the backend accepted it.

pub mod error;
pub mod mask;
pub mod prepared_write;
pub mod registration;
pub mod runtime;
pub mod types;
pub mod write;

pub use error::{BackendContractViolation, EngineError, EngineStateExpectation};

use crate::api::channel::{ConfiguredChannels, DriverId};
use crate::api::setup::PreparedSetup;
use crate::backend::{BackendCapabilities, BackendError, LedBackend, StartTransfer};
use crate::driver::spec_max_channels;
use crate::DRIVER_MAX_CHANNELS;
use registration::{
    lemma_commit_fresh, records_ok, spec_commit, spec_plan_error,
    spec_plan_handles, spec_plan_records, RegistrationPlan, RegistrationTable,
};
use runtime::{EngineLifecycle, EngineState};
use crate::driver::engine::runtime::{spec_ready_initial, ReadyState};
use vstd::prelude::*;

verus! {

pub struct LedEngine<B> where B: LedBackend {
    pub backend: B,
    pub max_channels: usize,
    pub max_bytes_per_channel: Option<u32>,
    pub state: EngineState,
    pub channels: RegistrationTable,
    /// The backend's answer to the latest batch offered to it, if any.
    pub submit_answer: Ghost<Option<Result<StartTransfer, BackendError>>>,
}

/// A table with no registered channel.
pub open spec fn table_empty(t: RegistrationTable) -> bool {
    forall|i: int| 0 <= i < 8 ==> #[trigger] t.records@[i] is None
}

/// The engine limits the backend's reported capabilities give: at most
/// `DRIVER_MAX_CHANNELS` channels, which fits the 32-bit channel mask, and
/// the reported per-channel byte limit.
pub fn limits_from(caps: BackendCapabilities) -> (r: (usize, Option<u32>))
    ensures
        r.0 == spec_max_channels(caps),
        r.1 == caps.max_bytes_per_channel,
{
    let max_channels = if caps.max_channels < DRIVER_MAX_CHANNELS {
        caps.max_channels
    } else {
        DRIVER_MAX_CHANNELS
    };
    (max_channels, caps.max_bytes_per_channel)
}

impl<B: LedBackend> LedEngine<B> {
    pub open spec fn wf(&self) -> bool {
        &&& self.max_channels <= DRIVER_MAX_CHANNELS
        &&& records_ok(self.channels.records@, self.max_channels)
    }

    /// Creates an engine; it supports at most `DRIVER_MAX_CHANNELS`
    /// channels, which fits the 32-bit channel mask.
    pub fn new(backend: B) -> (r: Self)
        ensures
            r.wf(),
            r.backend == backend,
            r.state.lifecycle is Uninitialized,
            table_empty(r.channels),
            exists|caps: BackendCapabilities|
                #[trigger] spec_max_channels(caps) == r.max_channels && caps.max_bytes_per_channel
                    == r.max_bytes_per_channel,
    {
        let capabilities = backend.capabilities();
        let (max_channels, max_bytes_per_channel) = limits_from(capabilities);
        LedEngine {
            backend,
            max_channels,
            max_bytes_per_channel,
            state: EngineState::new(),
            channels: RegistrationTable::new(),
            submit_answer: Ghost(None),
        }
    }

    /// Initialises the backend once; afterwards the engine is registering.
    pub fn init(&mut self) -> (r: Result<(), EngineError>)
        ensures
            final(self).max_channels == old(self).max_channels,
            final(self).max_bytes_per_channel == old(self).max_bytes_per_channel,
            final(self).channels == old(self).channels,
            !(old(self).state.lifecycle is Uninitialized) ==> r is Ok && final(self).state == old(
                self,
            ).state && final(self).backend == old(self).backend,
            old(self).state.lifecycle is Uninitialized ==> (r is Ok && final(self).state.lifecycle is Registering)
                || (r matches Err(EngineError::Backend(_)) && final(self).state == old(self).state),
    {
        if matches!(self.state.lifecycle, EngineLifecycle::Uninitialized) {
            let outcome = self.backend.init();
            return self.on_init_outcome(outcome);
        }
        Ok(())
    }

    /// Applies the backend's answer to initialisation: success moves the
    /// engine to registering; a failure is passed on with nothing changed.
    pub fn on_init_outcome(&mut self, outcome: Result<(), BackendError>) -> (r: Result<(), EngineError>)
        ensures
            final(self).backend == old(self).backend,
            final(self).max_channels == old(self).max_channels,
            final(self).max_bytes_per_channel == old(self).max_bytes_per_channel,
            final(self).channels == old(self).channels,
            match outcome {
                Err(e) => r == Err::<(), _>(EngineError::Backend(e)) && final(self).state == old(self).state,
                Ok(()) => r is Ok && final(self).state.lifecycle is Registering,
            },
    {
        match outcome {
            Ok(()) => {},
            Err(e) => {
                return Err(EngineError::Backend(e));
            },
        }
        self.state.lifecycle = EngineLifecycle::Registering;
        Ok(())
    }

    pub fn max_channels(&self) -> (r: usize)
        ensures
            r == self.max_channels,
    {
        self.max_channels
    }

    pub fn is_configuration_committed(&self) -> (r: bool)
        ensures
            r == self.state.lifecycle is Ready,
    {
        self.state.is_ready()
    }

    /// Stages a setup against this engine's limits, without mutating it.
    pub fn build_registration_plan(&self, setup: &PreparedSetup, driver_id: DriverId) -> (r: Result<
        RegistrationPlan,
        EngineError,
    >)
        requires
            self.wf(),
            self.state.lifecycle is Registering,
        ensures
            match spec_plan_error(setup@, setup@.len() as int, self.max_channels, self.max_bytes_per_channel) {
                Some(e) => r == Err::<RegistrationPlan, _>(e),
                None => r matches Ok(plan) && {
                    &&& plan.planned_records() == spec_plan_records(setup@, setup@.len() as int)
                    &&& plan.planned_handles() == spec_plan_handles(setup@, setup@.len() as int, driver_id)
                    &&& plan.planned_order() == setup@.map_values(|b: crate::api::setup::PreparedBinding| b.logical_channel.0 as usize)
                },
            },
    {
        if !self.state.is_registering() {
            return Err(EngineError::InvalidState(EngineStateExpectation::MustBeRegistering));
        }
        RegistrationPlan::from_prepared_setup(
            setup,
            driver_id,
            self.max_channels(),
            self.max_bytes_per_channel,
        )
    }

    /// Configures the backend with the plan's specs as one batch, then
    /// commits the staged records locally; nothing is committed when the
    /// backend refuses.
    pub fn apply_registration_plan(&mut self, plan: &RegistrationPlan) -> (r: Result<(), EngineError>)
        requires
            old(self).wf(),
            old(self).state.lifecycle is Registering,
        ensures
            final(self).wf(),
            final(self).state == old(self).state,
            final(self).max_channels == old(self).max_channels,
            final(self).max_bytes_per_channel == old(self).max_bytes_per_channel,
            (r matches Err(EngineError::Backend(_)) && final(self).channels.records == old(self).channels.records)
                || ({
                let (records, err) = spec_commit(
                    old(self).channels.records@,
                    plan.staged(),
                    old(self).max_channels,
                    plan.staged().len() as int,
                );
                &&& final(self).channels.records@ == records
                &&& match err {
                    Some(e) => r == Err::<(), _>(e),
                    None => r is Ok,
                }
            }),
    {
        if !self.state.is_registering() {
            return Err(EngineError::InvalidState(EngineStateExpectation::MustBeRegistering));
        }
        let outcome = self.backend.configure_channels(plan.specs());
        self.on_configure_outcome(plan, outcome)
    }

    /// Applies the backend's answer to configuring `plan`'s specs: a
    /// refusal is passed on and nothing is committed; an acceptance commits
    /// the plan's staged records, in staging order.
    pub fn on_configure_outcome(&mut self, plan: &RegistrationPlan, outcome: Result<(), BackendError>) -> (r:
        Result<(), EngineError>)
        requires
            old(self).wf(),
        ensures
            final(self).wf(),
            final(self).state == old(self).state,
            final(self).backend == old(self).backend,
            final(self).max_channels == old(self).max_channels,
            final(self).max_bytes_per_channel == old(self).max_bytes_per_channel,
            match outcome {
                Err(e) => r == Err::<(), _>(EngineError::Backend(e)) && final(self).channels
                    == old(self).channels,
                Ok(()) => {
                    let (records, err) = spec_commit(
                        old(self).channels.records@,
                        plan.staged(),
                        old(self).max_channels,
                        plan.staged().len() as int,
                    );
                    &&& final(self).channels.records@ == records
                    &&& match err {
                        Some(e) => r == Err::<(), _>(e),
                        None => r is Ok,
                    }
                },
            },
    {
        match outcome {
            Ok(()) => {},
            Err(e) => {
                return Err(EngineError::Backend(e));
            },
        }
        let max = self.max_channels();
        self.channels.commit_plan(max, plan)
    }

    /// Moves a configured engine into the ready state.
    pub fn enter_ready_state(&mut self)
        ensures
            final(self).backend == old(self).backend,
            final(self).channels == old(self).channels,
            final(self).max_channels == old(self).max_channels,
            final(self).max_bytes_per_channel == old(self).max_bytes_per_channel,
            old(self).state.lifecycle is Ready ==> final(self).state == old(self).state,
            !(old(self).state.lifecycle is Ready) ==> final(self).state.lifecycle == EngineLifecycle::Ready(
                spec_ready_initial(),
            ),
    {
        if self.state.is_ready() {
            return;
        }
        self.state.lifecycle = EngineLifecycle::Ready(ReadyState::new());
    }

    /// Stages, applies and commits one setup, then enters the ready state.
    pub fn configure_prepared(&mut self, setup: &PreparedSetup, driver_id: DriverId) -> (r: Result<
        ConfiguredChannels,
        EngineError,
    >)
        requires
            old(self).wf(),
            old(self).state.lifecycle is Registering,
            table_empty(old(self).channels),
        ensures
            final(self).wf(),
            final(self).max_channels == old(self).max_channels,
            final(self).max_bytes_per_channel == old(self).max_bytes_per_channel,
            r matches Ok(handles) ==> {
                &&& final(self).state.lifecycle == EngineLifecycle::Ready(spec_ready_initial())
                &&& spec_plan_error(setup@, setup@.len() as int, old(self).max_channels, old(self).max_bytes_per_channel) is None
                &&& final(self).channels.records@ == spec_plan_records(setup@, setup@.len() as int)
                &&& forall|i: int| 0 <= i < 8 ==> #[trigger] handles.entry(i) == spec_plan_handles(setup@, setup@.len() as int, driver_id)[i]
            },
            r matches Err(e) ==> {
                &&& final(self).state == old(self).state
                &&& table_empty(final(self).channels)
                &&& (e is ChannelOutOfRange || e is ChannelAlreadyRegistered || e is ConfigurationLimitExceeded || e is Backend)
                &&& !(e is Backend) ==> spec_plan_error(setup@, setup@.len() as int, old(self).max_channels, old(self).max_bytes_per_channel) == Some(e)
                &&& e is Backend ==> spec_plan_error(setup@, setup@.len() as int, old(self).max_channels, old(self).max_bytes_per_channel) is None
            },
    {
        proof {
            registration::lemma_plan_error_kinds(setup@, setup@.len() as int, self.max_channels, self.max_bytes_per_channel);
        }
        let plan = self.build_registration_plan(setup, driver_id)?;
        let ghost bs = setup@;
        proof {
            lemma_commit_fresh(bs, self.max_channels, self.max_bytes_per_channel, bs.len() as int);
            assert(self.channels.records@ =~= Seq::new(DRIVER_MAX_CHANNELS as nat, |i: int| None::<registration::ChannelState>));
        }
        match self.apply_registration_plan(&plan) {
            Ok(()) => {},
            Err(e) => {
                return Err(e);
            },
        }
        self.enter_ready_state();
        let handles = plan.handles();
        Ok(ConfiguredChannels::from_entries(handles))
    }
}

} // verus!
