use led_wire_driver::engine::runtime::{check_lease_channel, check_lease_len, lease_from_answer};
use led_wire_driver::engine::limits_from;
use std::cell::RefCell;
use std::rc::Rc;

use led_wire_driver::api::channel::{Channel, DriverId};
use led_wire_driver::api::{
    DriverInitError, PreparedBinding, PreparedSetup, Ready, RegisterError, RuntimeError,
};
use led_wire_driver::driver::engine::channel_state::ChannelState as DriverChannelState;
use led_wire_driver::driver::engine::mask::ChannelMask;
use led_wire_driver::driver::engine::registration::RegistrationTable as DriverRegistrationTable;
use led_wire_driver::driver::engine::runtime::{ReadyState, TransferState};
use led_wire_driver::driver::engine::LedEngine as DriverEngine;
use led_wire_driver::engine::types::{WireSpan, WireTarget, WritePlan};
use led_wire_driver::engine::{BackendContractViolation, EngineError, LedEngine};
use led_wire_driver::pack::{NoSpatialQuantizer, NoTemporalDither};
use led_wire_driver::{
    AcquireWrite, BackendCapabilities, BackendChannelId, BackendChannelSpec, BackendError, BackendEvent,
    BackendSignal, BackendWriteLease, ChannelId, ChannelSetup, ConfigureError, ConfiguringDriver, FrameEpoch,
    LedBackend, PixelLayout, Rgb48, ServiceError, StartTransfer, WriteError, DRIVER_MAX_CHANNELS,
};

// ── A scriptable in-memory backend ──────────────────────────────────────────

#[derive(Clone, Debug, Default, PartialEq, Eq)]
struct FakeBackendLog {
    init_calls: usize,
    configured_specs: Vec<Vec<BackendChannelSpec>>,
    submit_masks: Vec<u32>,
    signals: Vec<BackendSignal>,
    events: Vec<BackendEvent>,
}

#[derive(Copy, Clone, Debug, PartialEq, Eq)]
enum AcquireBehavior {
    Ready,
    Busy,
    Error(BackendError),
    WrongChannel(BackendChannelId),
    WrongLength(usize),
}

#[derive(Clone, Debug, PartialEq, Eq)]
struct FakeBackendScript {
    next_init: Option<BackendError>,
    next_configure: Option<BackendError>,
    next_submit: Option<Result<StartTransfer, BackendError>>,
    acquire: [AcquireBehavior; DRIVER_MAX_CHANNELS],
    publish: [Option<BackendError>; DRIVER_MAX_CHANNELS],
}

impl Default for FakeBackendScript {
    fn default() -> Self {
        Self {
            next_init: None,
            next_configure: None,
            next_submit: None,
            acquire: [AcquireBehavior::Ready; DRIVER_MAX_CHANNELS],
            publish: [None; DRIVER_MAX_CHANNELS],
        }
    }
}

#[derive(Clone, Debug, Default, PartialEq, Eq)]
struct FakeBackendShared {
    script: FakeBackendScript,
    log: FakeBackendLog,
}

#[derive(Clone, Debug)]
struct FakeBackendHandle {
    shared: Rc<RefCell<FakeBackendShared>>,
}

impl FakeBackendHandle {
    fn script_init_error(&self, err: BackendError) {
        self.shared.borrow_mut().script.next_init = Some(err);
    }

    fn script_configure_error(&self, err: BackendError) {
        self.shared.borrow_mut().script.next_configure = Some(err);
    }

    fn script_submit_result(&self, result: Result<StartTransfer, BackendError>) {
        self.shared.borrow_mut().script.next_submit = Some(result);
    }

    fn script_acquire_busy(&self, channel: BackendChannelId) {
        self.shared.borrow_mut().script.acquire[channel.as_index()] = AcquireBehavior::Busy;
    }

    fn script_acquire_error(&self, channel: BackendChannelId, err: BackendError) {
        self.shared.borrow_mut().script.acquire[channel.as_index()] = AcquireBehavior::Error(err);
    }

    fn script_acquire_wrong_channel(&self, requested: BackendChannelId, returned: BackendChannelId) {
        self.shared.borrow_mut().script.acquire[requested.as_index()] = AcquireBehavior::WrongChannel(returned);
    }

    fn script_acquire_wrong_length(&self, channel: BackendChannelId, len: usize) {
        self.shared.borrow_mut().script.acquire[channel.as_index()] = AcquireBehavior::WrongLength(len);
    }

    fn script_publish_error(&self, channel: BackendChannelId, err: BackendError) {
        self.shared.borrow_mut().script.publish[channel.as_index()] = Some(err);
    }

    fn log(&self) -> FakeBackendLog {
        self.shared.borrow().log.clone()
    }
}

#[derive(Clone, Debug)]
struct FakeChannelSlot {
    configured: bool,
    channel: BackendChannelId,
    bytes: Vec<u8>,
    write_acquired: bool,
    write_published: bool,
}

impl Default for FakeChannelSlot {
    fn default() -> Self {
        Self {
            configured: false,
            channel: BackendChannelId::new(0),
            bytes: Vec::new(),
            write_acquired: false,
            write_published: false,
        }
    }
}

struct FakeBackend {
    capabilities: BackendCapabilities,
    slots: [FakeChannelSlot; DRIVER_MAX_CHANNELS],
    shared: Rc<RefCell<FakeBackendShared>>,
}

impl FakeBackend {
    fn new(capabilities: BackendCapabilities) -> (Self, FakeBackendHandle) {
        let shared = Rc::new(RefCell::new(FakeBackendShared::default()));
        (
            Self {
                capabilities,
                slots: std::array::from_fn(|_| FakeChannelSlot::default()),
                shared: Rc::clone(&shared),
            },
            FakeBackendHandle { shared },
        )
    }

    fn validate_specs(&self, specs: &[BackendChannelSpec]) -> Result<(), BackendError> {
        let mut seen = [false; DRIVER_MAX_CHANNELS];
        for spec in specs {
            let index = spec.channel.as_index();
            if index >= self.capabilities.max_channels || index >= DRIVER_MAX_CHANNELS {
                return Err(BackendError::InvalidBinding);
            }
            if seen[index] {
                return Err(BackendError::InvalidBinding);
            }
            seen[index] = true;
            if let Some(max_bytes) = self.capabilities.max_bytes_per_channel {
                let wire_bytes = u32::from(spec.pixels).checked_mul(3).ok_or(BackendError::InvalidBinding)?;
                if wire_bytes > max_bytes {
                    return Err(BackendError::InvalidBinding);
                }
            }
        }
        Ok(())
    }
}

struct FakeWriteLease<'a> {
    slot: &'a mut FakeChannelSlot,
    shared: Rc<RefCell<FakeBackendShared>>,
    returned_channel: BackendChannelId,
    exposed_len: usize,
}

impl BackendWriteLease for FakeWriteLease<'_> {
    fn channel(&self) -> BackendChannelId {
        self.returned_channel
    }

    fn bytes_mut(&mut self) -> &mut [u8] {
        &mut self.slot.bytes[..self.exposed_len]
    }

    fn publish(&mut self) -> Result<(), BackendError> {
        let channel_index = self.slot.channel.as_index();
        if let Some(err) = self.shared.borrow_mut().script.publish[channel_index].take() {
            return Err(err);
        }
        self.slot.write_published = true;
        self.slot.write_acquired = false;
        Ok(())
    }
}

impl Drop for FakeWriteLease<'_> {
    fn drop(&mut self) {
        if !self.slot.write_published {
            self.slot.write_acquired = false;
        }
    }
}

impl LedBackend for FakeBackend {
    type WriteLease<'a>
        = FakeWriteLease<'a>
    where
        Self: 'a;

    fn init(&mut self) -> Result<(), BackendError> {
        let mut shared = self.shared.borrow_mut();
        shared.log.init_calls += 1;
        if let Some(err) = shared.script.next_init.take() {
            return Err(err);
        }
        Ok(())
    }

    fn capabilities(&self) -> BackendCapabilities {
        self.capabilities
    }

    fn configure_channels(&mut self, specs: &[BackendChannelSpec]) -> Result<(), BackendError> {
        self.validate_specs(specs)?;
        {
            let mut shared = self.shared.borrow_mut();
            shared.log.configured_specs.push(specs.to_vec());
            if let Some(err) = shared.script.next_configure.take() {
                return Err(err);
            }
        }
        self.slots = std::array::from_fn(|_| FakeChannelSlot::default());
        for spec in specs {
            let index = spec.channel.as_index();
            let wire_len = usize::from(spec.pixels) * 3;
            self.slots[index] = FakeChannelSlot {
                configured: true,
                channel: spec.channel,
                bytes: vec![0; wire_len],
                write_acquired: false,
                write_published: false,
            };
        }
        Ok(())
    }

    fn acquire_write_target(
        &mut self,
        channel: BackendChannelId,
    ) -> Result<AcquireWrite<Self::WriteLease<'_>>, BackendError> {
        let index = channel.as_index();
        if index >= self.capabilities.max_channels || index >= DRIVER_MAX_CHANNELS {
            return Err(BackendError::InvalidBinding);
        }
        let behavior = {
            let mut shared = self.shared.borrow_mut();
            let scripted = &mut shared.script.acquire[index];
            let current = *scripted;
            if !matches!(current, AcquireBehavior::Ready) {
                *scripted = AcquireBehavior::Ready;
            }
            current
        };
        let mut returned_channel = channel;
        let mut exposed_len_override = None;
        match behavior {
            AcquireBehavior::Busy => return Ok(AcquireWrite::Busy),
            AcquireBehavior::Error(err) => return Err(err),
            AcquireBehavior::WrongChannel(wrong) => returned_channel = wrong,
            AcquireBehavior::WrongLength(len) => exposed_len_override = Some(len),
            AcquireBehavior::Ready => {}
        }
        let slot_len = self.slots[index].bytes.len();
        let exposed_len = exposed_len_override.unwrap_or(slot_len).min(slot_len);
        let slot = &mut self.slots[index];
        if !slot.configured || slot.channel != channel || slot.write_acquired {
            return Ok(AcquireWrite::Busy);
        }
        slot.write_acquired = true;
        slot.write_published = false;
        Ok(AcquireWrite::Ready(FakeWriteLease {
            slot,
            shared: Rc::clone(&self.shared),
            returned_channel,
            exposed_len,
        }))
    }

    fn submit_channels(&mut self, mask_bits: u32) -> Result<StartTransfer, BackendError> {
        self.shared.borrow_mut().log.submit_masks.push(mask_bits);
        if let Some(result) = self.shared.borrow_mut().script.next_submit.take() {
            return result;
        }
        Ok(StartTransfer::Started)
    }

    fn on_signal(&mut self, signal: BackendSignal) {
        self.shared.borrow_mut().log.signals.push(signal);
    }

    fn on_event(&mut self, event: BackendEvent) {
        self.shared.borrow_mut().log.events.push(event);
    }
}

impl FakeBackend {
    fn slot_bytes(&self, index: usize) -> Vec<u8> {
        self.slots[index].bytes.clone()
    }
}

// ── Typestate driver ────────────────────────────────────────────────────────

type ApiDriver<S> = led_wire_driver::api::Driver<FakeBackend, S>;

fn test_backend() -> (FakeBackend, FakeBackendHandle) {
    FakeBackend::new(BackendCapabilities { max_channels: 4, max_bytes_per_channel: Some(12) })
}

fn one_channel_setup() -> PreparedSetup {
    PreparedSetup::from_bindings(&[PreparedBinding::new(
        ChannelId::new(0),
        BackendChannelId::new(0),
        2,
        PixelLayout::Grb,
    )])
    .expect("test setup should validate")
}

fn ready_driver(id: u32) -> (ApiDriver<Ready>, FakeBackendHandle, Channel) {
    let (backend, handle) = test_backend();
    let mut configuring = ApiDriver::new(backend, DriverId::new(id)).expect("driver init should succeed");
    let handles = configuring.configure_prepared(&one_channel_setup()).expect("configuration should succeed");
    let channel = handles.get(ChannelId::new(0)).expect("configured handle should exist");
    (configuring.finalize(), handle, channel)
}

#[test]
fn configure_prepared_rejects_empty_setup() {
    let (backend, _handle) = test_backend();
    let mut driver = ApiDriver::new(backend, DriverId::new(1)).expect("driver init should succeed");
    let empty = PreparedSetup::from_bindings(&[]).expect("empty prepared setup is structurally valid");

    let err = driver.configure_prepared(&empty).expect_err("empty setup should be rejected at configuration time");

    assert_eq!(err, RegisterError::EmptyConfiguration);
}

#[test]
fn configure_prepared_is_single_shot() {
    let (backend, _handle) = test_backend();
    let mut driver = ApiDriver::new(backend, DriverId::new(1)).expect("driver init should succeed");
    let setup = one_channel_setup();

    driver.configure_prepared(&setup).expect("first configuration should succeed");

    let err = driver.configure_prepared(&setup).expect_err("second configuration should be rejected");

    assert_eq!(err, RegisterError::AlreadyConfigured);
}

#[test]
fn channel_rejects_handle_from_another_driver() {
    let (driver_a, _handle_a, channel_a) = ready_driver(1);
    let (mut driver_b, _handle_b, _channel_b) = ready_driver(2);

    let _ = driver_a;
    let err = driver_b.channel(channel_a).err().expect("cross-driver handle should be rejected");

    assert_eq!(err, RuntimeError::InvalidChannel);
}

#[test]
fn runtime_maps_backend_contract_violation_distinctly() {
    let (mut driver, handle, channel) = ready_driver(1);
    handle.script_acquire_wrong_length(BackendChannelId::new(0), 3);

    let err = driver
        .channel(channel)
        .expect("channel handle should belong to driver")
        .write_rgb48(&[Rgb48 { r: 0, g: 0, b: 0 }; 2])
        .expect_err("wrong target length should surface as backend-contract failure");

    assert_eq!(err, RuntimeError::BackendContract);
}

#[test]
fn runtime_maps_backend_fault_distinctly() {
    let (mut driver, handle, channel) = ready_driver(1);
    handle.script_acquire_error(BackendChannelId::new(0), BackendError::TransportFault { raw_code: 9 });

    let err = driver
        .channel(channel)
        .expect("channel handle should belong to driver")
        .write_rgb48(&[Rgb48 { r: 0, g: 0, b: 0 }; 2])
        .expect_err("backend transport fault should surface as backend runtime error");

    assert_eq!(err, RuntimeError::Backend);
}

#[test]
fn idle_transfer_complete_surfaces_backend_contract_once() {
    let (mut driver, _handle, _channel) = ready_driver(1);

    driver.on_backend_event(BackendEvent::TransferComplete);

    let err = driver.service().expect_err("idle completion should surface as backend contract violation");
    assert_eq!(err, RuntimeError::BackendContract);

    driver.service().expect("latched ingress violation should clear after one surfaced error");
}

#[test]
fn driver_init_failure_is_reported() {
    let (backend, handle) = test_backend();
    handle.script_init_error(BackendError::InvalidBinding);
    let err = ApiDriver::new(backend, DriverId::new(1)).err().expect("scripted init failure should surface");
    assert_eq!(err, DriverInitError::Backend);
}

#[test]
fn configure_prepared_reports_backend_refusal_and_commits_nothing() {
    let (backend, handle) = test_backend();
    let mut driver = ApiDriver::new(backend, DriverId::new(1)).unwrap();
    handle.script_configure_error(BackendError::TransportFault { raw_code: 2 });
    let err = driver.configure_prepared(&one_channel_setup()).expect_err("backend refusal should surface");
    assert_eq!(err, RegisterError::Backend);
    let handles = driver.configure_prepared(&one_channel_setup()).expect("a refused configuration can be retried");
    assert!(handles.get(ChannelId::new(0)).is_some());
    assert!(handles.get(ChannelId::new(1)).is_none());
}

#[test]
fn configure_prepared_rejects_bindings_past_backend_limits() {
    let (backend, _handle) = test_backend();
    let mut driver = ApiDriver::new(backend, DriverId::new(1)).unwrap();
    let too_far = PreparedSetup::from_bindings(&[PreparedBinding::new(
        ChannelId::new(5),
        BackendChannelId::new(0),
        2,
        PixelLayout::Grb,
    )])
    .unwrap();
    assert_eq!(driver.configure_prepared(&too_far).err(), Some(RegisterError::InvalidBinding));
    let too_long = PreparedSetup::from_bindings(&[PreparedBinding::new(
        ChannelId::new(0),
        BackendChannelId::new(0),
        5,
        PixelLayout::Grb,
    )])
    .unwrap();
    assert_eq!(driver.configure_prepared(&too_long).err(), Some(RegisterError::InvalidBinding));
}

#[test]
fn api_write_commit_service_cycle() {
    let (mut driver, handle, channel) = ready_driver(3);
    driver
        .channel(channel)
        .unwrap()
        .write_rgb48(&[Rgb48 { r: 0xFFFF, g: 0, b: 0 }; 2])
        .expect("write should succeed");
    driver.commit().unwrap();
    driver.service().unwrap();
    assert_eq!(handle.log().submit_masks, vec![1]);
    driver.on_backend_event(BackendEvent::TransferComplete);
    driver.service().unwrap();
    assert_eq!(handle.log().submit_masks, vec![1]);
    driver.on_backend_signal(BackendSignal::Opaque(4));
    assert_eq!(handle.log().signals, vec![BackendSignal::Opaque(4)]);
}

#[test]
fn api_write_of_wrong_length_is_rejected() {
    let (mut driver, _handle, channel) = ready_driver(3);
    let err = driver
        .channel(channel)
        .unwrap()
        .write_rgb48(&[Rgb48 { r: 1, g: 1, b: 1 }; 3])
        .expect_err("three pixels do not fit a two-pixel channel");
    assert_eq!(err, RuntimeError::LengthMismatch);
}

#[test]
fn api_busy_backend_keeps_pending_batch() {
    let (mut driver, handle, channel) = ready_driver(4);
    driver.channel(channel).unwrap().write_rgb48(&[Rgb48 { r: 9, g: 9, b: 9 }; 2]).unwrap();
    driver.commit().unwrap();
    handle.script_submit_result(Ok(StartTransfer::Busy));
    driver.service().unwrap();
    handle.script_submit_result(Err(BackendError::TransportFault { raw_code: 1 }));
    assert_eq!(driver.service(), Err(RuntimeError::Backend));
    driver.service().unwrap();
    assert_eq!(handle.log().submit_masks, vec![1, 1, 1]);
}

// ── Engine behind the typestate driver ──────────────────────────────────────

fn engine_backend() -> (LedEngine<FakeBackend>, FakeBackendHandle) {
    let (backend, handle) =
        FakeBackend::new(BackendCapabilities { max_channels: 4, max_bytes_per_channel: Some(12) });
    let mut engine = LedEngine::new(backend);
    engine.init().expect("fake backend init should succeed");
    (engine, handle)
}

fn configure_ready_engine() -> (LedEngine<FakeBackend>, FakeBackendHandle) {
    let (mut engine, handle) = engine_backend();
    let plan = engine
        .build_registration_plan(&one_channel_setup(), DriverId::new(1))
        .expect("registration plan should build");
    engine.apply_registration_plan(&plan).expect("registration plan should apply");
    engine.enter_ready_state();
    (engine, handle)
}

#[test]
fn registration_apply_commits_records_on_success() {
    let (mut engine, handle) = engine_backend();
    let plan = engine
        .build_registration_plan(&one_channel_setup(), DriverId::new(1))
        .expect("registration plan should build");

    engine.apply_registration_plan(&plan).expect("registration plan should apply");

    let channel = engine
        .channels
        .record(0, engine.max_channels())
        .expect("channel should be registered after apply");
    assert_eq!(channel.backend_channel, BackendChannelId::new(0));
    assert_eq!(channel.len_pixels, 2);
    assert_eq!(channel.layout, PixelLayout::Grb);
    assert_eq!(handle.log().configured_specs.len(), 1);
}

#[test]
fn registration_apply_failure_does_not_commit_records() {
    let (mut engine, handle) = engine_backend();
    let plan = engine
        .build_registration_plan(&one_channel_setup(), DriverId::new(1))
        .expect("registration plan should build");
    handle.script_configure_error(BackendError::InvalidBinding);

    let err = engine.apply_registration_plan(&plan).expect_err("scripted configure failure should surface");

    assert_eq!(err, EngineError::Backend(BackendError::InvalidBinding));
    assert_eq!(engine.channels.record(0, engine.max_channels()), Err(EngineError::ChannelNotRegistered));
}

#[test]
fn dropped_unpublished_write_is_retryable() {
    let (mut engine, _handle) = configure_ready_engine();

    let write = engine.acquire_prepared_write(0).expect("first acquire should succeed");
    drop(write);

    engine.acquire_prepared_write(0).expect("dropped unpublished lease should abort and become retryable");
}

#[test]
fn publish_failure_aborts_write_and_is_retryable() {
    let (mut engine, handle) = configure_ready_engine();
    handle.script_publish_error(BackendChannelId::new(0), BackendError::TransportFault { raw_code: 7 });

    let mut write = engine.acquire_prepared_write(0).expect("first acquire should succeed");
    let err = write.publish().expect_err("scripted publish failure should surface");
    assert_eq!(err, EngineError::Backend(BackendError::TransportFault { raw_code: 7 }));
    drop(write);

    engine
        .acquire_prepared_write(0)
        .expect("failed publish lease should abort on drop and become retryable");
}

#[test]
fn busy_submit_preserves_pending_and_phase_advances_only_on_started() {
    let (mut engine, handle) = configure_ready_engine();

    {
        let mut write = engine.acquire_prepared_write(0).expect("acquire should succeed");
        write.publish().expect("publish should succeed");
    }
    engine.mark_channel_published(0).expect("mark published should succeed");
    engine.submit_dirty().expect("submit_dirty should succeed");

    handle.script_submit_result(Ok(StartTransfer::Busy));
    engine.service().expect("busy service should succeed");

    let ready = engine.state.ready().expect("engine should be ready");
    assert_eq!(ready.pending_mask.bits(), 1);
    assert_eq!(ready.transfer, TransferState::Idle);
    assert_eq!(
        engine.channels.record(0, engine.max_channels()).expect("channel should stay registered").frame_phase,
        FrameEpoch::from_raw(0)
    );

    handle.script_submit_result(Ok(StartTransfer::Started));
    engine.service().expect("started service should succeed");

    let ready = engine.state.ready().expect("engine should be ready");
    assert_eq!(ready.pending_mask.bits(), 0);
    assert!(matches!(
        ready.transfer,
        TransferState::InFlight {
            dma_complete_pending: false,
            submitted_mask
        } if submitted_mask.bits() == 1
    ));
    assert_eq!(
        engine.channels.record(0, engine.max_channels()).expect("channel should stay registered").frame_phase,
        FrameEpoch::from_raw(0).wrapping_add(1)
    );
    assert_eq!(handle.log().submit_masks, vec![1, 1]);
}

#[test]
fn transfer_complete_event_clears_inflight_on_service() {
    let (mut engine, handle) = configure_ready_engine();

    {
        let mut write = engine.acquire_prepared_write(0).expect("acquire should succeed");
        write.publish().expect("publish should succeed");
    }
    engine.mark_channel_published(0).expect("mark published should succeed");
    engine.submit_dirty().expect("submit_dirty should succeed");
    handle.script_submit_result(Ok(StartTransfer::Started));
    engine.service().expect("service should start transfer");

    engine.on_backend_event(BackendEvent::TransferComplete);
    let ready = engine.state.ready().expect("engine should be ready");
    assert!(matches!(
        ready.transfer,
        TransferState::InFlight {
            dma_complete_pending: true,
            submitted_mask
        } if submitted_mask.bits() == 1
    ));

    engine.service().expect("service should clear completed transfer");
    let ready = engine.state.ready().expect("engine should stay ready");
    assert_eq!(ready.transfer, TransferState::Idle);
    assert_eq!(handle.log().events, vec![BackendEvent::TransferComplete]);
}

#[test]
fn transfer_complete_while_idle_is_latched_as_ingress_violation() {
    let (mut engine, handle) = configure_ready_engine();

    engine.on_backend_event(BackendEvent::TransferComplete);

    let ready = engine.state.ready().expect("engine should be ready");
    assert_eq!(ready.transfer, TransferState::Idle);
    assert!(ready.ingress_violation);
    assert_eq!(handle.log().events, vec![BackendEvent::TransferComplete]);
}

#[test]
fn latched_ingress_violation_surfaces_once_on_service() {
    let (mut engine, _handle) = configure_ready_engine();

    engine.on_backend_event(BackendEvent::TransferComplete);

    let err = engine.service().expect_err("latched idle completion should surface on next runtime call");
    assert_eq!(err, EngineError::BackendContractViolation(BackendContractViolation::TransferCompleteWhileIdle));

    let ready = engine.state.ready().expect("engine should stay ready");
    assert!(!ready.ingress_violation);

    engine.service().expect("latched violation should clear after being surfaced once");
}

#[test]
fn scripted_busy_write_is_reported_without_consuming_retry() {
    let (mut engine, handle) = configure_ready_engine();
    handle.script_acquire_busy(BackendChannelId::new(0));

    let err = engine.acquire_prepared_write(0).err().expect("scripted busy acquire should surface");
    assert_eq!(err, EngineError::WriteBusy);

    engine.acquire_prepared_write(0).expect("next acquire should succeed after one-shot busy response");
}

#[test]
fn engine_rejects_a_lease_for_another_channel() {
    let (mut engine, handle) = configure_ready_engine();
    handle.script_acquire_wrong_channel(BackendChannelId::new(0), BackendChannelId::new(3));
    let err = engine.acquire_prepared_write(0).err().expect("mismatched lease should be refused");
    assert!(matches!(err, EngineError::BackendContractViolation(_)));
}

#[test]
fn engine_rejects_runtime_calls_before_ready() {
    let (mut engine, _handle) = engine_backend();
    assert!(matches!(engine.submit_dirty(), Err(EngineError::InvalidState(_))));
    assert!(matches!(engine.service(), Err(EngineError::InvalidState(_))));
}

// ── Configuring driver and its engine ───────────────────────────────────────

fn caps() -> BackendCapabilities {
    BackendCapabilities { max_channels: DRIVER_MAX_CHANNELS, max_bytes_per_channel: None }
}

fn ch(backend: u8, pixels: u16) -> ChannelSetup {
    ChannelSetup { backend_channel: BackendChannelId::new(backend), pixel_count: pixels, layout: PixelLayout::Grb }
}

#[test]
fn configure_succeeds() {
    let (backend, _) = FakeBackend::new(caps());
    let (_driver, handles) = ConfiguringDriver::new(DriverId::new(1)).configure(&[ch(0, 10)], backend).unwrap();
    assert_eq!(handles.len(), 1);
    assert!(handles.get(0).is_some());
    assert!(handles.get(1).is_none());
}

#[test]
fn configure_empty_returns_error() {
    let (backend, _) = FakeBackend::new(caps());
    let err = ConfiguringDriver::new(DriverId::new(1)).configure(&[], backend).err().unwrap();
    assert_eq!(err, ConfigureError::NoChannels);
}

#[test]
fn configure_duplicate_backend_channel() {
    let (backend, _) = FakeBackend::new(caps());
    let err = ConfiguringDriver::new(DriverId::new(1)).configure(&[ch(0, 5), ch(0, 5)], backend).err().unwrap();
    assert_eq!(err, ConfigureError::DuplicateBackendChannel(BackendChannelId::new(0)));
}

#[test]
fn configure_too_many_channels() {
    let (backend, _) = FakeBackend::new(BackendCapabilities { max_channels: 2, max_bytes_per_channel: None });
    let err = ConfiguringDriver::new(DriverId::new(1))
        .configure(&[ch(0, 1), ch(1, 1), ch(2, 1)], backend)
        .err()
        .unwrap();
    assert_eq!(err, ConfigureError::TooManyChannels);
}

#[test]
fn cross_driver_handle_rejected() {
    let (b1, _) = FakeBackend::new(caps());
    let (b2, _) = FakeBackend::new(caps());
    let (mut d1, h1) = ConfiguringDriver::new(DriverId::new(1)).configure(&[ch(0, 1)], b1).unwrap();
    let (mut d2, _) = ConfiguringDriver::new(DriverId::new(2)).configure(&[ch(0, 1)], b2).unwrap();
    let handle = h1.get(0).unwrap();
    assert!(d2.channel(handle).is_err());
    assert!(d1.channel(handle).is_ok());
}

#[test]
fn full_write_commit_service_cycle() {
    let (backend, bh) = FakeBackend::new(caps());
    bh.script_submit_result(Ok(StartTransfer::Started));
    let (mut driver, handles) = ConfiguringDriver::new(DriverId::new(1)).configure(&[ch(0, 2)], backend).unwrap();
    let h = *handles.get(0).unwrap();
    let colors = [Rgb48 { r: 65535, g: 0, b: 0 }; 2];
    driver.channel(&h).unwrap().write_rgb48(&colors).unwrap();
    driver.commit().unwrap();
    driver.service().unwrap();
    assert_eq!(bh.log().submit_masks, [1u32]);
    driver.on_backend_event(BackendEvent::TransferComplete);
    driver.service().unwrap();
    assert_eq!(bh.log().submit_masks.len(), 1);
}

#[test]
fn write_wrong_pixel_count_returns_length_mismatch() {
    let (backend, _) = FakeBackend::new(caps());
    let (mut driver, handles) = ConfiguringDriver::new(DriverId::new(1)).configure(&[ch(0, 10)], backend).unwrap();
    let h = *handles.get(0).unwrap();
    let err = driver.channel(&h).unwrap().write_rgb48(&[Rgb48 { r: 0, g: 0, b: 0 }; 5]).err().unwrap();
    assert!(matches!(err, WriteError::LengthMismatch { expected: 10, actual: 5 }));
}

#[test]
fn configure_reports_backend_failures() {
    let (backend, handle) = FakeBackend::new(caps());
    handle.script_init_error(BackendError::TransportFault { raw_code: 3 });
    let err = ConfiguringDriver::new(DriverId::new(1)).configure(&[ch(0, 1)], backend).err().unwrap();
    assert_eq!(err, ConfigureError::Backend(BackendError::TransportFault { raw_code: 3 }));

    let (backend, handle) = FakeBackend::new(caps());
    handle.script_configure_error(BackendError::InvalidBinding);
    let err = ConfiguringDriver::new(DriverId::new(1)).configure(&[ch(0, 1)], backend).err().unwrap();
    assert_eq!(err, ConfigureError::Backend(BackendError::InvalidBinding));
}

#[test]
fn configure_hands_out_handles_in_list_order() {
    let (backend, _) = FakeBackend::new(caps());
    let (_driver, handles) =
        ConfiguringDriver::new(DriverId::new(1)).configure(&[ch(4, 1), ch(2, 3), ch(7, 2)], backend).unwrap();
    assert_eq!(handles.len(), 3);
    assert!(!handles.is_empty());
    assert_eq!(handles.iter().len(), 3);
    assert!(handles.get(2).is_some());
    assert!(handles.get(3).is_none());
}

#[test]
fn busy_backend_keeps_the_batch_pending() {
    let (backend, bh) = FakeBackend::new(caps());
    let (mut driver, handles) = ConfiguringDriver::new(DriverId::new(1)).configure(&[ch(0, 1), ch(1, 1)], backend).unwrap();
    let h1 = *handles.get(1).unwrap();
    driver.channel(&h1).unwrap().write_rgb48(&[Rgb48 { r: 5, g: 5, b: 5 }]).unwrap();
    driver.commit().unwrap();
    bh.script_submit_result(Ok(StartTransfer::Busy));
    driver.service().unwrap();
    driver.service().unwrap();
    assert_eq!(bh.log().submit_masks, vec![2, 2]);
    driver.service().unwrap();
    assert_eq!(bh.log().submit_masks, vec![2, 2]);
}

#[test]
fn driver_idle_completion_is_reported_once() {
    let (backend, _bh) = FakeBackend::new(caps());
    let (mut driver, _handles) = ConfiguringDriver::new(DriverId::new(1)).configure(&[ch(0, 1)], backend).unwrap();
    driver.on_backend_event(BackendEvent::TransferComplete);
    assert_eq!(driver.commit(), Err(ServiceError::BackendContract));
    assert_eq!(driver.commit(), Ok(()));
    driver.on_backend_event(BackendEvent::TransferComplete);
    assert_eq!(driver.service(), Err(ServiceError::BackendContract));
    assert_eq!(driver.service(), Ok(()));
}

#[test]
fn driver_write_reports_backend_errors() {
    let (backend, bh) = FakeBackend::new(caps());
    let (mut driver, handles) = ConfiguringDriver::new(DriverId::new(1)).configure(&[ch(0, 1)], backend).unwrap();
    let h = *handles.get(0).unwrap();
    bh.script_acquire_busy(BackendChannelId::new(0));
    assert_eq!(driver.channel(&h).unwrap().write_rgb48(&[Rgb48 { r: 1, g: 1, b: 1 }]), Err(WriteError::Busy));
    bh.script_acquire_wrong_length(BackendChannelId::new(0), 1);
    assert_eq!(
        driver.channel(&h).unwrap().write_rgb48(&[Rgb48 { r: 1, g: 1, b: 1 }]),
        Err(WriteError::BackendContract)
    );
    bh.script_publish_error(BackendChannelId::new(0), BackendError::InvalidBinding);
    assert_eq!(
        driver.channel(&h).unwrap().write_rgb48(&[Rgb48 { r: 1, g: 1, b: 1 }]),
        Err(WriteError::Backend(BackendError::InvalidBinding))
    );
    assert_eq!(driver.channel(&h).unwrap().write_rgb48(&[Rgb48 { r: 1, g: 1, b: 1 }]), Ok(()));
}

fn make_engine(pixel_count: u16) -> DriverEngine<FakeBackend> {
    let (mut backend, _handle) =
        FakeBackend::new(BackendCapabilities { max_channels: DRIVER_MAX_CHANNELS, max_bytes_per_channel: None });
    backend.init().unwrap();
    backend
        .configure_channels(&[BackendChannelSpec {
            channel: BackendChannelId::new(0),
            pixels: pixel_count,
            layout: PixelLayout::Grb,
        }])
        .unwrap();
    let mut records = [None; DRIVER_MAX_CHANNELS];
    records[0] = Some(DriverChannelState::new(BackendChannelId::new(0), pixel_count, PixelLayout::Grb));
    let table = DriverRegistrationTable::new(records, 1);
    DriverEngine::new(backend, DRIVER_MAX_CHANNELS, table)
}

#[test]
fn write_and_publish_marks_dirty() {
    let mut engine = make_engine(1);
    let colors = [Rgb48 { r: 65535, g: 0, b: 0 }];
    {
        let mut pw = engine.acquire_prepared_write(0).unwrap();
        pw.pack_rgb48_active(&colors).unwrap();
        pw.publish().unwrap();
    }
    engine.mark_channel_published(0).unwrap();
    assert!(!engine.ready.dirty_mask.is_empty());
}

#[test]
fn submit_dirty_promotes_to_pending() {
    let mut engine = make_engine(1);
    let colors = [Rgb48 { r: 0, g: 0, b: 65535 }];
    {
        let mut pw = engine.acquire_prepared_write(0).unwrap();
        pw.pack_rgb48_active(&colors).unwrap();
        pw.publish().unwrap();
    }
    engine.mark_channel_published(0).unwrap();
    engine.submit_dirty().unwrap();
    assert!(engine.ready.dirty_mask.is_empty());
    assert!(!engine.ready.pending_mask.is_empty());
}

#[test]
fn service_starts_transfer_when_pending() {
    let mut engine = make_engine(2);
    let colors = [Rgb48 { r: 100, g: 200, b: 0 }; 2];
    {
        let mut pw = engine.acquire_prepared_write(0).unwrap();
        pw.pack_rgb48_active(&colors).unwrap();
        pw.publish().unwrap();
    }
    engine.mark_channel_published(0).unwrap();
    engine.submit_dirty().unwrap();
    engine.service().unwrap();
    assert!(matches!(engine.ready.transfer, TransferState::InFlight { .. }));
}

#[test]
fn packed_bytes_reach_the_backend_buffer() {
    let mut engine = make_engine(1);
    {
        let mut pw = engine.acquire_prepared_write(0).unwrap();
        pw.pack_rgb48_active(&[Rgb48 { r: 0xFFFF, g: 0, b: 0 }]).unwrap();
        pw.publish().unwrap();
    }
    assert_eq!(engine.backend.slot_bytes(0), vec![0x00, 0xFF, 0x00]);
}

#[test]
fn published_then_committed_channel_is_offered_exactly() {
    let mut engine = make_engine(1);
    engine.mark_channel_published(0).unwrap();
    assert_eq!(engine.ready.dirty_mask, ChannelMask::from_bits(1));
    engine.submit_dirty().unwrap();
    assert_eq!(engine.compute_pending_batch(), Some(ChannelMask::from_bits(1)));
    assert_eq!(engine.mark_channel_published(3).err().map(|_| ()), Some(()));
}

#[test]
fn started_batch_advances_only_its_channels() {
    let mut engine = make_engine(1);
    engine.ready = ReadyState {
        transfer: TransferState::Idle,
        dirty_mask: ChannelMask::from_bits(0),
        pending_mask: ChannelMask::from_bits(1),
        ingress_violation: false,
    };
    engine.on_submit_started(ChannelMask::from_bits(1)).unwrap();
    assert_eq!(engine.channels.record(0).unwrap().frame_phase, FrameEpoch::from_raw(1));
    assert_eq!(engine.ready.pending_mask, ChannelMask::from_bits(0));
    engine.complete_in_flight_if_ready();
    assert!(matches!(engine.ready.transfer, TransferState::InFlight { dma_complete_pending: false, .. }));
    engine.on_backend_event(BackendEvent::TransferComplete);
    engine.complete_in_flight_if_ready();
    assert_eq!(engine.ready.transfer, TransferState::Idle);
}

#[test]
fn write_slice_to_plan_packs_into_the_plan_target() {
    let mut bytes = [0x11u8; 6];
    let target = WireTarget::from_span(WireSpan { addr: 0x2000, size_bytes: 6 }).unwrap();
    let plan = WritePlan { layout: PixelLayout::Rgb, frame_phase: FrameEpoch::from_raw(0), target };
    let source = [Rgb48 { r: 0x0100, g: 0x0200, b: 0x0300 }, Rgb48 { r: 0, g: 0, b: 0 }];
    LedEngine::<FakeBackend>::write_slice_to_plan::<NoTemporalDither, NoSpatialQuantizer>(
        &source,
        FrameEpoch::from_raw(0),
        plan,
        &mut bytes,
    )
    .expect("two pixels fill a six-byte target");
    assert_eq!(bytes, [0x01, 0x02, 0x03, 0, 0, 0]);

    let err = LedEngine::<FakeBackend>::write_slice_to_plan::<NoTemporalDither, NoSpatialQuantizer>(
        &source[..1],
        FrameEpoch::from_raw(0),
        plan,
        &mut bytes,
    )
    .expect_err("one pixel does not fill a six-byte target");
    assert_eq!(err, EngineError::SourceLengthMismatch { expected_pixels: 2, actual_pixels: 1 });
    assert_eq!(bytes, [0x01, 0x02, 0x03, 0, 0, 0]);
}

#[test]
fn submit_outcome_follows_the_backend_answer() {
    let mut engine = make_engine(1);
    engine.mark_channel_published(0).unwrap();
    engine.submit_dirty().unwrap();
    let batch = engine.compute_pending_batch().unwrap();
    let before = engine.ready;

    assert_eq!(engine.on_submit_outcome(batch, Ok(StartTransfer::Busy)), Ok(()));
    assert_eq!(engine.ready, before);
    assert_eq!(
        engine.on_submit_outcome(batch, Err(BackendError::TransportFault { raw_code: 5 })),
        Err(led_wire_driver::driver::engine::EngineError::Backend(BackendError::TransportFault { raw_code: 5 }))
    );
    assert_eq!(engine.ready, before);
    assert_eq!(engine.on_submit_outcome(batch, Ok(StartTransfer::Started)), Ok(()));
    assert!(matches!(engine.ready.transfer, TransferState::InFlight { dma_complete_pending: false, submitted_mask } if submitted_mask.bits() == 1));
    assert_eq!(engine.ready.pending_mask, ChannelMask::from_bits(0));
    assert_eq!(engine.channels.record(0).unwrap().frame_phase, FrameEpoch::from_raw(1));
}

#[test]
fn engine_submit_outcome_follows_the_backend_answer() {
    let (mut engine, _handle) = configure_ready_engine();
    engine.mark_channel_published(0).unwrap();
    engine.submit_dirty().unwrap();
    let batch = ChannelMask::from_bits(1);
    assert_eq!(engine.on_submit_outcome(batch, Ok(StartTransfer::Busy)), Ok(()));
    assert_eq!(engine.state.ready().unwrap().pending_mask.bits(), 1);
    assert_eq!(
        engine.on_submit_outcome(batch, Err(BackendError::InvalidBinding)),
        Err(EngineError::Backend(BackendError::InvalidBinding))
    );
    assert_eq!(engine.state.ready().unwrap().transfer, TransferState::Idle);
    assert_eq!(engine.on_submit_outcome(batch, Ok(StartTransfer::Started)), Ok(()));
    assert_eq!(engine.state.ready().unwrap().pending_mask.bits(), 0);
    assert_eq!(engine.channels.record(0, engine.max_channels()).unwrap().frame_phase, FrameEpoch::from_raw(1));
}

#[test]
fn lease_answers_map_to_exact_errors() {
    assert_eq!(lease_from_answer::<u8>(Ok(AcquireWrite::Busy)), Err(EngineError::WriteBusy));
    assert_eq!(lease_from_answer::<u8>(Ok(AcquireWrite::Ready(7))), Ok(7));
    assert_eq!(
        lease_from_answer::<u8>(Err(BackendError::InvalidBinding)),
        Err(EngineError::Backend(BackendError::InvalidBinding))
    );
    assert_eq!(check_lease_channel(BackendChannelId::new(2), BackendChannelId::new(2)), Ok(()));
    assert_eq!(
        check_lease_channel(BackendChannelId::new(2), BackendChannelId::new(3)),
        Err(EngineError::BackendContractViolation(BackendContractViolation::WrongChannelReturned))
    );
    assert_eq!(check_lease_len(6, 6), Ok(()));
    assert_eq!(
        check_lease_len(6, 3),
        Err(EngineError::BackendContractViolation(BackendContractViolation::WrongTargetLength))
    );
}

#[test]
fn configure_outcome_commits_only_on_acceptance() {
    let (mut engine, _handle) = engine_backend();
    let plan = engine.build_registration_plan(&one_channel_setup(), DriverId::new(1)).unwrap();
    assert_eq!(
        engine.on_configure_outcome(&plan, Err(BackendError::InvalidBinding)),
        Err(EngineError::Backend(BackendError::InvalidBinding))
    );
    assert_eq!(engine.channels.record(0, engine.max_channels()), Err(EngineError::ChannelNotRegistered));
    assert_eq!(engine.on_configure_outcome(&plan, Ok(())), Ok(()));
    assert_eq!(engine.channels.record(0, engine.max_channels()).unwrap().len_pixels, 2);
}

#[test]
fn engine_limits_follow_reported_capabilities() {
    assert_eq!(limits_from(BackendCapabilities { max_channels: 3, max_bytes_per_channel: Some(9) }), (3, Some(9)));
    assert_eq!(limits_from(BackendCapabilities { max_channels: 40, max_bytes_per_channel: None }), (8, None));
    let (engine, _handle) = engine_backend();
    assert_eq!(engine.max_channels(), 4);
    assert_eq!(engine.max_bytes_per_channel, Some(12));
}

#[test]
fn init_outcome_moves_to_registering_only_on_success() {
    let (backend, _handle) = test_backend();
    let mut engine = LedEngine::new(backend);
    assert_eq!(
        engine.on_init_outcome(Err(BackendError::InvalidBinding)),
        Err(EngineError::Backend(BackendError::InvalidBinding))
    );
    assert!(!engine.state.is_registering());
    assert_eq!(engine.on_init_outcome(Ok(())), Ok(()));
    assert!(engine.state.is_registering());
}

#[test]
fn configure_hands_the_backend_one_spec_per_setup_in_order() {
    let (backend, handle) = FakeBackend::new(caps());
    let setups = [ch(4, 1), ch(2, 3)];
    let _ = ConfiguringDriver::new(DriverId::new(1)).configure(&setups, backend).unwrap();
    let expected = vec![
        BackendChannelSpec { channel: BackendChannelId::new(4), pixels: 1, layout: PixelLayout::Grb },
        BackendChannelSpec { channel: BackendChannelId::new(2), pixels: 3, layout: PixelLayout::Grb },
    ];
    assert_eq!(handle.log().configured_specs, vec![expected]);
}

#[test]
fn finish_configure_passes_refusals_on() {
    let (backend, _handle) = FakeBackend::new(caps());
    let err = ConfiguringDriver::new(DriverId::new(1))
        .finish_configure(&[ch(0, 1)], backend, 8, Err(BackendError::InvalidBinding))
        .err()
        .unwrap();
    assert_eq!(err, ConfigureError::Backend(BackendError::InvalidBinding));
}

#[test]
fn engine_pending_batch_is_the_pending_registered_channels() {
    let (mut engine, handle) = configure_ready_engine();
    assert_eq!(engine.pending_batch(), None);
    engine.mark_channel_published(0).unwrap();
    assert_eq!(engine.pending_batch(), None);
    engine.submit_dirty().unwrap();
    assert_eq!(engine.pending_batch(), Some(ChannelMask::from_bits(1)));
    handle.script_submit_result(Ok(StartTransfer::Busy));
    engine.service().unwrap();
    assert_eq!(engine.pending_batch(), Some(ChannelMask::from_bits(1)));
    engine.service().unwrap();
    assert_eq!(engine.pending_batch(), None);
    assert_eq!(handle.log().submit_masks, vec![1, 1]);
}

#[test]
fn prepared_write_records_the_checked_length() {
    let mut engine = make_engine(3);
    let mut pw = engine.acquire_prepared_write(0).unwrap();
    assert_eq!(pw.wire_byte_count, 9);
    assert!(matches!(
        pw.pack_rgb48_active(&[Rgb48 { r: 1, g: 1, b: 1 }; 2]),
        Err(led_wire_driver::driver::engine::EngineError::SourceLengthMismatch { expected_pixels: 3, actual_pixels: 2 })
    ));
    assert_eq!(pw.pack_rgb48_active(&[Rgb48 { r: 1, g: 1, b: 1 }; 3]), Ok(()));
}
