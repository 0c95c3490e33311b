use led_wire_driver::api::channel::DriverId;
use led_wire_driver::api::setup::{PreparedBinding, PreparedSetup, SetupBuildError};
use led_wire_driver::driver::check_setups;
use led_wire_driver::driver::engine::channel_state::ChannelState;
use led_wire_driver::driver::engine::mask::ChannelMask;
use led_wire_driver::driver::engine::registration::RegistrationTable;
use led_wire_driver::engine::types::{WireSpan, WireTarget};
use led_wire_driver::engine::EngineError as ApiEngineError;
use led_wire_driver::{
    BackendCapabilities, BackendChannelId, ChannelId, ChannelSetup, ConfigureError, FrameEpoch,
    PixelLayout, ServiceError, WriteError, DRIVER_MAX_CHANNELS,
};

fn make_state(backend: u8, pixels: u16) -> ChannelState {
    ChannelState::new(BackendChannelId::new(backend), pixels, PixelLayout::Grb)
}

#[test]
fn wire_byte_count_precomputed() {
    let s = ChannelState::new(BackendChannelId::new(0), 10, PixelLayout::Grb);
    assert_eq!(s.wire_byte_count, 30);
}

#[test]
fn advance_phase_increments() {
    let mut s = ChannelState::new(BackendChannelId::new(0), 5, PixelLayout::Rgb);
    assert_eq!(s.frame_phase, FrameEpoch::from_raw(0));
    s.advance_phase();
    assert_eq!(s.frame_phase, FrameEpoch::from_raw(1));
}

#[test]
fn advance_phase_wraps_at_the_end_of_the_epoch_range() {
    let mut s = ChannelState::new(BackendChannelId::new(1), 1, PixelLayout::Rgb);
    s.frame_phase = FrameEpoch::from_raw(u32::MAX);
    s.advance_phase();
    assert_eq!(s.frame_phase, FrameEpoch::from_raw(0));
}

#[test]
fn single_sets_correct_bit() {
    assert_eq!(ChannelMask::single(0).bits(), 1u32);
    assert_eq!(ChannelMask::single(3).bits(), 8u32);
    assert_eq!(ChannelMask::single(7).bits(), 128u32);
}

#[test]
fn union_combines_bits() {
    assert_eq!(ChannelMask::single(0).union(ChannelMask::single(1)).bits(), 3u32);
}

#[test]
fn contains_checks_bit() {
    let m = ChannelMask::single(5);
    assert!(m.contains(5));
    assert!(!m.contains(4));
}

#[test]
fn exclude_clears_bits() {
    let m = ChannelMask::single(0).union(ChannelMask::single(1));
    assert_eq!(m.exclude(ChannelMask::single(0)).bits(), 2u32);
}

#[test]
fn mask_edges() {
    assert!(ChannelMask::from_bits(0).is_empty());
    assert!(!ChannelMask::single(31).is_empty());
    assert_eq!(ChannelMask::single(31).bits(), 0x8000_0000);
    assert_eq!(ChannelMask::from_bits(0b1011).exclude(ChannelMask::from_bits(0b0110)).bits(), 0b1001);
}

#[test]
fn lookup_registered_channel() {
    let mut records = [None; DRIVER_MAX_CHANNELS];
    records[2] = Some(make_state(2, 60));
    let table = RegistrationTable::new(records, 1);
    assert_eq!(table.record(2).unwrap().pixel_count, 60);
}

#[test]
fn lookup_unregistered_returns_err() {
    let records = [None; DRIVER_MAX_CHANNELS];
    let table = RegistrationTable::new(records, 0);
    assert!(table.record(0).is_err());
}

#[test]
fn lookup_past_the_table_returns_err() {
    let mut records = [None; DRIVER_MAX_CHANNELS];
    records[0] = Some(make_state(0, 1));
    let table = RegistrationTable::new(records, 1);
    assert!(table.record(DRIVER_MAX_CHANNELS).is_err());
    assert_eq!(table.count(), 1);
}

#[test]
fn registered_mask_covers_occupied_slots() {
    let mut records = [None; DRIVER_MAX_CHANNELS];
    records[0] = Some(make_state(0, 10));
    records[3] = Some(make_state(3, 10));
    let table = RegistrationTable::new(records, 2);
    let mask = table.registered_mask();
    assert!(mask.contains(0));
    assert!(mask.contains(3));
    assert!(!mask.contains(1));
    assert_eq!(mask.bits(), 0b1001);
}

#[test]
fn configure_error_debug() {
    let _ = format!("{:?}", ConfigureError::DuplicateBackendChannel(BackendChannelId::new(0)));
}

#[test]
fn write_error_variants() {
    let _ = format!("{:?}", WriteError::Busy);
    let _ = format!("{:?}", WriteError::InvalidChannel);
    let _ = format!("{:?}", WriteError::BackendContract);
}

#[test]
fn service_error_debug() {
    let _ = format!("{:?}", ServiceError::BackendContract);
}

#[test]
fn backend_channel_id_roundtrip() {
    let id = BackendChannelId::new(42);
    assert_eq!(id.as_index(), 42);
}

#[test]
fn frame_epoch_wrapping_add() {
    let epoch = FrameEpoch::from_raw(u32::MAX);
    assert_eq!(epoch.wrapping_add(1), FrameEpoch::from_raw(0));
}

#[test]
fn frame_epoch_defaults_to_zero() {
    assert_eq!(FrameEpoch::default(), FrameEpoch::from_raw(0));
    assert_eq!(FrameEpoch::from_raw(7).as_u32(), 7);
    assert_eq!(FrameEpoch::from_raw(7).wrapping_add(3), FrameEpoch::from_raw(10));
}

#[test]
fn channel_id_index_roundtrip() {
    assert_eq!(ChannelId::from_index(255), Some(ChannelId::new(255)));
    assert_eq!(ChannelId::from_index(256), None);
    assert_eq!(ChannelId::new(9).as_index(), 9);
}

#[test]
fn channel_setup_fields() {
    let s = ChannelSetup {
        backend_channel: BackendChannelId::new(3),
        pixel_count: 60,
        layout: PixelLayout::Grb,
    };
    assert_eq!(s.pixel_count, 60);
}

fn ch(backend: u8, pixels: u16) -> ChannelSetup {
    ChannelSetup { backend_channel: BackendChannelId::new(backend), pixel_count: pixels, layout: PixelLayout::Grb }
}

#[test]
fn check_setups_reports_each_problem() {
    let caps = BackendCapabilities { max_channels: 2, max_bytes_per_channel: Some(30) };
    assert_eq!(check_setups(&[ch(0, 10), ch(1, 10)], caps), Ok(2));
    assert_eq!(check_setups(&[ch(0, 1), ch(1, 1), ch(2, 1)], caps), Err(ConfigureError::TooManyChannels));
    assert_eq!(
        check_setups(&[ch(1, 1), ch(1, 1)], caps),
        Err(ConfigureError::DuplicateBackendChannel(BackendChannelId::new(1)))
    );
    assert_eq!(check_setups(&[ch(0, 11)], caps), Err(ConfigureError::ChannelTooLarge));
}

#[test]
fn check_setups_caps_limit_at_driver_capacity() {
    let caps = BackendCapabilities { max_channels: 100, max_bytes_per_channel: None };
    let setups: Vec<ChannelSetup> = (0..8u8).map(|i| ch(i, 1)).collect();
    assert_eq!(check_setups(&setups, caps), Ok(DRIVER_MAX_CHANNELS));
    let too_many: Vec<ChannelSetup> = (0..9u8).map(|i| ch(i, 1)).collect();
    assert_eq!(check_setups(&too_many, caps), Err(ConfigureError::TooManyChannels));
}

fn binding(logical: u8, backend: u8, pixels: u16) -> PreparedBinding {
    PreparedBinding::new(ChannelId::new(logical), BackendChannelId::new(backend), pixels, PixelLayout::Rgb)
}

#[test]
fn prepared_setup_keeps_valid_bindings_in_order() {
    let setup = PreparedSetup::from_bindings(&[binding(2, 5, 3), binding(0, 1, 4)]).unwrap();
    assert_eq!(setup.len(), 2);
    assert!(!setup.is_empty());
    assert_eq!(setup.bindings(), &[binding(2, 5, 3), binding(0, 1, 4)]);
    assert_eq!(setup.iter(), vec![binding(2, 5, 3), binding(0, 1, 4)]);
}

#[test]
fn prepared_setup_reports_each_binding_problem() {
    assert_eq!(
        PreparedSetup::from_bindings(&[binding(8, 0, 1)]).err(),
        Some(SetupBuildError::InvalidLogicalChannel)
    );
    assert_eq!(
        PreparedSetup::from_bindings(&[binding(1, 0, 1), binding(1, 2, 1)]).err(),
        Some(SetupBuildError::DuplicateLogicalChannel)
    );
    assert_eq!(
        PreparedSetup::from_bindings(&[binding(1, 0, 1), binding(2, 0, 1)]).err(),
        Some(SetupBuildError::DuplicateBackendChannel)
    );
    assert_eq!(
        PreparedSetup::from_bindings(&[binding(1, 0, 0)]).err(),
        Some(SetupBuildError::InvalidPixelCount)
    );
    let nine: Vec<PreparedBinding> = (0..9u8).map(|i| binding(i % 8, i, 1)).collect();
    assert_eq!(PreparedSetup::from_bindings(&nine).err(), Some(SetupBuildError::CapacityExceeded));
}

#[test]
fn prepared_setup_reports_the_first_problem() {
    assert_eq!(
        PreparedSetup::from_bindings(&[binding(1, 0, 0), binding(9, 0, 1)]).err(),
        Some(SetupBuildError::InvalidPixelCount)
    );
}

#[test]
fn empty_prepared_setup_is_valid() {
    let setup = PreparedSetup::from_bindings(&[]).unwrap();
    assert!(setup.is_empty());
    assert_eq!(setup.len(), 0);
}

#[test]
fn wire_target_from_span() {
    assert_eq!(
        WireTarget::from_span(WireSpan { addr: 0x1000, size_bytes: 12 }),
        Ok(WireTarget { addr: 0x1000, len_bytes: 12 })
    );
    assert_eq!(
        WireTarget::from_span(WireSpan { addr: 0, size_bytes: 12 }),
        Err(ApiEngineError::InvalidWireSpan)
    );
    assert_eq!(
        WireTarget::from_span(WireSpan { addr: 0, size_bytes: 0 }),
        Ok(WireTarget { addr: 0, len_bytes: 0 })
    );
}

#[test]
fn driver_id_claims_skip_zero_and_wrap() {
    assert_eq!(DriverId::claim_from(0), (DriverId::new(1), 2));
    assert_eq!(DriverId::claim_from(1), (DriverId::new(1), 2));
    assert_eq!(DriverId::claim_from(41), (DriverId::new(41), 42));
    assert_eq!(DriverId::claim_from(u32::MAX), (DriverId::new(u32::MAX), 1));
}

#[test]
fn successive_claims_run_through_the_tags() {
    let mut counter = u32::MAX - 1;
    let mut tags = Vec::new();
    for _ in 0..4 {
        let (id, next) = DriverId::claim_from(counter);
        tags.push(id);
        counter = next;
    }
    assert_eq!(tags, vec![DriverId::new(u32::MAX - 1), DriverId::new(u32::MAX), DriverId::new(1), DriverId::new(2)]);
}
