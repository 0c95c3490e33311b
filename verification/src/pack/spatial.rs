//! Spatial quantisation policies: 16-bit channel value to 8-bit wire byte.

use vstd::prelude::*;

verus! {

pub trait SpatialQuantizer {
    /// Byte produced for `value` at pixel position `index`. The default
    /// describes plain truncation to the high byte; a policy that rounds
    /// otherwise states its own.
    open spec fn spec_quantize(value: u16, index: usize) -> u8 {
        (value / 256) as u8
    }

    fn quantize(&mut self, value: u16, index: usize) -> (r: u8)
        ensures
            r == Self::spec_quantize(value, index),
    ;
}

#[derive(Default)]
pub struct NoSpatialQuantizer;

impl SpatialQuantizer for NoSpatialQuantizer {
    /// Plain truncation to the high byte.
    open spec fn spec_quantize(value: u16, index: usize) -> u8 {
        (value / 256) as u8
    }

    fn quantize(&mut self, value: u16, index: usize) -> (r: u8) {
        super::pipeline::downscale_to_u8(value)
    }
}

/// Thresholds of the 8x8 ordered-dither (Bayer) matrix, scaled to 16 bits.
pub open spec fn bayer_thresholds() -> Seq<u16> {
    seq![
        0, 32768, 8192, 40960, 2048, 34816, 10240, 43008, 49152, 16384, 57344, 24576, 51200,
        18432, 59392, 26624, 12288, 45056, 4096, 36864, 14336, 47104, 6144, 38912, 61440,
        28672, 53248, 20480, 63488, 30720, 55296, 22528, 3072, 35840, 11264, 44032, 1024,
        33792, 9216, 41984, 52224, 19456, 60416, 27648, 50176, 17408, 58368, 25600, 15360,
        48128, 7168, 39936, 13312, 46080, 5120, 37888, 64512, 31744, 56320, 23552, 62464,
        29696, 54272, 21504,
    ]
}

/// Rounds the high byte of `value` up when its low byte, scaled to 16 bits,
/// exceeds `threshold` and the byte is not already saturated.
pub open spec fn spec_bayer_quantize(value: u16, threshold: u16) -> u8 {
    let base = value / 256;
    let fraction = (value % 256) * 256;
    if fraction > threshold && base < 255 {
        (base + 1) as u8
    } else {
        base as u8
    }
}

#[derive(Default)]
pub struct SpatialBayerQuantizer;

impl SpatialQuantizer for SpatialBayerQuantizer {
    open spec fn spec_quantize(value: u16, index: usize) -> u8 {
        spec_bayer_quantize(value, bayer_thresholds()[(index % 64) as int])
    }

    fn quantize(&mut self, value: u16, index: usize) -> (r: u8) {
        let thresholds: [u16; 64] = [
            0, 32768, 8192, 40960, 2048, 34816, 10240, 43008, 49152, 16384, 57344, 24576, 51200,
            18432, 59392, 26624, 12288, 45056, 4096, 36864, 14336, 47104, 6144, 38912, 61440,
            28672, 53248, 20480, 63488, 30720, 55296, 22528, 3072, 35840, 11264, 44032, 1024,
            33792, 9216, 41984, 52224, 19456, 60416, 27648, 50176, 17408, 58368, 25600, 15360,
            48128, 7168, 39936, 13312, 46080, 5120, 37888, 64512, 31744, 56320, 23552, 62464,
            29696, 54272, 21504,
        ];
        assert(thresholds@ =~= bayer_thresholds());
        let threshold = thresholds[index % 64];
        let base = (value >> 8) as u8;
        let fraction = (value & 0x00FF) << 8;
        assert(base == value / 256 && fraction == (value % 256) * 256) by (bit_vector)
            requires
                base == (value >> 8u16) as u8,
                fraction == (value & 0x00FFu16) << 8u16,
        ;
        if fraction > threshold && base < 255 {
            base + 1
        } else {
            base
        }
    }
}

} // verus!

verus! {

/// The ordered-dither quantiser rounds a 16-bit value to its high byte or
/// to the byte above it, and keeps an exact byte value (low byte zero) as
/// it is.
pub proof fn law_bayer_quantize_neighbours(value: u16, index: usize)
    ensures
        SpatialBayerQuantizer::spec_quantize(value, index) == value / 256
            || SpatialBayerQuantizer::spec_quantize(value, index) == value / 256 + 1,
        value % 256 == 0 ==> SpatialBayerQuantizer::spec_quantize(value, index) == value / 256,
{
}

} // verus!
