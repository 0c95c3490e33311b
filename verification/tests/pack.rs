use led_wire_driver::pack::pipeline::{apply_temporal, downscale_to_u8, quantize_channel, temporal_offset};
use led_wire_driver::pack::{
    layout_map, pack_into_bytes, NoSpatialQuantizer, NoTemporalDither, PackError, SpatialBayerQuantizer,
    SpatialQuantizer, TemporalBayerDither, TemporalDither, WireColor,
};
use led_wire_driver::{pack_rgb48_active, FrameEpoch, PixelLayout, Rgb48};

#[derive(Default)]
struct NoopTemporal;

impl TemporalDither for NoopTemporal {
    fn offset(&self, _frame: FrameEpoch) -> i16 {
        0
    }
}

#[derive(Default)]
struct NudgeTemporal;

impl TemporalDither for NudgeTemporal {
    fn offset(&self, _frame: FrameEpoch) -> i16 {
        256
    }
}

#[derive(Default)]
struct ShiftSpatial;

impl SpatialQuantizer for ShiftSpatial {
    fn quantize(&mut self, value: u16, _index: usize) -> u8 {
        (value >> 8) as u8
    }
}

#[test]
fn pack_single_pixel_grb_layout() {
    let source = [Rgb48 { r: 0xFFFF, g: 0x0000, b: 0x0000 }];
    let mut target = [0u8; 3];
    pack_rgb48_active(&source, &mut target, PixelLayout::Grb, FrameEpoch::from_raw(0)).unwrap();
    assert_eq!(target[0], 0x00);
    assert_eq!(target[1], 0xFF);
    assert_eq!(target[2], 0x00);
}

#[test]
fn pack_length_mismatch_returns_error() {
    let source = [Rgb48 { r: 0, g: 0, b: 0 }];
    let mut target = [0u8; 6];
    assert!(pack_rgb48_active(&source, &mut target, PixelLayout::Rgb, FrameEpoch::from_raw(0)).is_err());
}

#[test]
fn rejects_source_length_mismatch() {
    let source = [Rgb48 { r: 0, g: 0, b: 0 }];
    let mut target = [0u8; 6];

    let err = pack_into_bytes::<NoopTemporal, ShiftSpatial>(
        &source,
        &mut target,
        PixelLayout::Rgb,
        FrameEpoch::from_raw(0),
    )
    .expect_err("length mismatch should be rejected");

    assert_eq!(err, PackError::SourceLengthMismatch { source_pixels: 1, target_pixels: 2 });
}

#[test]
fn maps_layout_indices_correctly() {
    let source = [Rgb48 { r: 0x1100, g: 0x2200, b: 0x3300 }];

    let mut rgb = [0u8; 3];
    pack_into_bytes::<NoopTemporal, ShiftSpatial>(&source, &mut rgb, PixelLayout::Rgb, FrameEpoch::from_raw(0))
        .expect("rgb layout should pack");
    assert_eq!(rgb, [0x11, 0x22, 0x33]);

    let mut grb = [0u8; 3];
    pack_into_bytes::<NoopTemporal, ShiftSpatial>(&source, &mut grb, PixelLayout::Grb, FrameEpoch::from_raw(0))
        .expect("grb layout should pack");
    assert_eq!(grb, [0x22, 0x11, 0x33]);

    let mut brg = [0u8; 3];
    pack_into_bytes::<NoopTemporal, ShiftSpatial>(&source, &mut brg, PixelLayout::Brg, FrameEpoch::from_raw(0))
        .expect("brg layout should pack");
    assert_eq!(brg, [0x22, 0x33, 0x11]);
}

#[test]
fn off_pixels_zero_the_target_chunk() {
    let source = [Rgb48 { r: 0, g: 0, b: 0 }, Rgb48 { r: 0x0100, g: 0x0200, b: 0x0300 }];
    let mut target = [0xFFu8; 6];

    pack_into_bytes::<NoopTemporal, ShiftSpatial>(&source, &mut target, PixelLayout::Rgb, FrameEpoch::from_raw(0))
        .expect("pack should succeed");

    assert_eq!(&target[..3], &[0, 0, 0]);
    assert_eq!(&target[3..], &[0x01, 0x02, 0x03]);
}

#[test]
fn temporal_and_spatial_policies_affect_output() {
    let source = [Rgb48 { r: 0, g: 0, b: 0 }];
    let mut target = [0xAAu8; 3];

    pack_into_bytes::<NudgeTemporal, ShiftSpatial>(&source, &mut target, PixelLayout::Rgb, FrameEpoch::from_raw(0))
        .expect("pack should succeed");

    assert_eq!(target, [0, 0, 0]);

    let source = [Rgb48 { r: 0x0001, g: 0x0001, b: 0x0001 }];
    let mut target = [0u8; 3];

    pack_into_bytes::<NudgeTemporal, ShiftSpatial>(&source, &mut target, PixelLayout::Rgb, FrameEpoch::from_raw(0))
        .expect("temporal nudge should affect quantized output");

    assert_eq!(target, [1, 1, 1]);
}

#[test]
fn mismatch_leaves_target_untouched() {
    let source = [Rgb48 { r: 1, g: 2, b: 3 }; 2];
    let mut target = [0x5Au8; 3];
    let err = pack_rgb48_active(&source, &mut target, PixelLayout::Rgb, FrameEpoch::from_raw(0)).unwrap_err();
    assert_eq!(err, PackError::SourceLengthMismatch { source_pixels: 2, target_pixels: 1 });
    assert_eq!(target, [0x5A; 3]);
}

#[test]
fn off_pixel_is_zero_under_every_policy_and_layout() {
    let layouts = [
        PixelLayout::Grb,
        PixelLayout::Rgb,
        PixelLayout::Bgr,
        PixelLayout::Rbg,
        PixelLayout::Gbr,
        PixelLayout::Brg,
    ];
    for layout in layouts {
        for frame in 0..4u32 {
            let source = [Rgb48 { r: 0xFFFF, g: 0x8000, b: 0x0101 }, Rgb48 { r: 0, g: 0, b: 0 }];
            let mut target = [0x77u8; 6];
            pack_rgb48_active(&source, &mut target, layout, FrameEpoch::from_raw(frame)).unwrap();
            assert_eq!(&target[3..], &[0, 0, 0]);
        }
    }
}

#[test]
fn each_channel_lands_in_its_layout_slot() {
    let source = [Rgb48 { r: 0x0A00, g: 0x0B00, b: 0x0C00 }];
    let layouts = [
        PixelLayout::Grb,
        PixelLayout::Rgb,
        PixelLayout::Bgr,
        PixelLayout::Rbg,
        PixelLayout::Gbr,
        PixelLayout::Brg,
    ];
    for layout in layouts {
        let slots = layout_map(layout);
        let mut target = [0u8; 3];
        pack_into_bytes::<NoTemporalDither, NoSpatialQuantizer>(&source, &mut target, layout, FrameEpoch::from_raw(0))
            .unwrap();
        assert_eq!(target[slots[0]], 0x0A);
        assert_eq!(target[slots[1]], 0x0B);
        assert_eq!(target[slots[2]], 0x0C);
    }
}

#[test]
fn layout_map_values() {
    assert_eq!(layout_map(PixelLayout::Grb), [1, 0, 2]);
    assert_eq!(layout_map(PixelLayout::Rgb), [0, 1, 2]);
    assert_eq!(layout_map(PixelLayout::Bgr), [2, 1, 0]);
    assert_eq!(layout_map(PixelLayout::Rbg), [0, 2, 1]);
    assert_eq!(layout_map(PixelLayout::Gbr), [1, 2, 0]);
    assert_eq!(layout_map(PixelLayout::Brg), [2, 0, 1]);
}

#[test]
fn apply_temporal_saturates_both_ends() {
    assert_eq!(apply_temporal(10, -32), 0);
    assert_eq!(apply_temporal(65530, 32), 65535);
    assert_eq!(apply_temporal(1000, -16), 984);
    assert_eq!(apply_temporal(1000, 256), 1256);
}

#[test]
fn downscale_keeps_the_high_byte() {
    assert_eq!(downscale_to_u8(0x1234), 0x12);
    assert_eq!(downscale_to_u8(0x00FF), 0x00);
    assert_eq!(downscale_to_u8(0xFFFF), 0xFF);
}

#[test]
fn bayer_temporal_offsets_cycle_every_four_frames() {
    let dither = TemporalBayerDither;
    assert_eq!(dither.offset(FrameEpoch::from_raw(0)), -32);
    assert_eq!(dither.offset(FrameEpoch::from_raw(1)), 32);
    assert_eq!(dither.offset(FrameEpoch::from_raw(2)), -16);
    assert_eq!(dither.offset(FrameEpoch::from_raw(3)), 16);
    assert_eq!(dither.offset(FrameEpoch::from_raw(5)), 32);
    assert_eq!(NoTemporalDither.offset(FrameEpoch::from_raw(5)), 0);
    assert_eq!(temporal_offset::<TemporalBayerDither>(FrameEpoch::from_raw(6)), -16);
}

#[test]
fn bayer_quantizer_rounds_to_a_neighbouring_byte() {
    let mut q = SpatialBayerQuantizer;
    assert_eq!(q.quantize(0x12FF, 0), 0x13);
    assert_eq!(q.quantize(0x1280, 1), 0x12);
    assert_eq!(q.quantize(0x1281, 1), 0x13);
    assert_eq!(q.quantize(0x1200, 0), 0x12);
    assert_eq!(q.quantize(0xFFFF, 0), 0xFF);
    assert_eq!(q.quantize(0x12FF, 64), 0x13);
    for value in [0u16, 1, 0x7F, 0x80, 0x1234, 0xFEFF, 0xFFFF] {
        for index in 0..70usize {
            let byte = q.quantize(value, index) as u16;
            assert!(byte == value / 256 || byte == value / 256 + 1);
        }
    }
}

#[test]
fn plain_quantizer_truncates() {
    let mut q = NoSpatialQuantizer;
    assert_eq!(q.quantize(0x12FF, 3), 0x12);
    assert_eq!(quantize_channel(&mut q, 0xABCD, 0), 0xAB);
}

#[test]
fn wire_color_of_rgb48() {
    let c = Rgb48 { r: 1, g: 2, b: 3 };
    assert_eq!(c.to_wire(), [1, 2, 3]);
    assert!(!c.is_off());
    assert!(Rgb48 { r: 0, g: 0, b: 0 }.is_off());
}
