//! Packing kernel: colour samples to wire-order byte triplets.

use super::{
    convert::{rgb_is_off, wire_channel, WireColor},
    error::PackError,
    layout::{is_slot_permutation, layout_map, spec_layout_map},
    spatial::SpatialQuantizer,
    temporal::TemporalDither,
};
use crate::model::{FrameEpoch, PixelLayout, Rgb48};
use vstd::prelude::*;

verus! {

/// `value + nudge`, saturated to the `u16` range.
pub open spec fn spec_apply_temporal(value: u16, nudge: i16) -> u16 {
    let s = value + nudge;
    if s < 0 {
        0
    } else if s > u16::MAX {
        u16::MAX
    } else {
        s as u16
    }
}

/// Colour channel that lands in wire slot `slot` under the slot map `m`.
pub open spec fn slot_channel(m: (int, int, int), slot: int) -> int {
    if m.0 == slot {
        0
    } else if m.1 == slot {
        1
    } else {
        2
    }
}

/// Wire byte for colour channel `k` of pixel `c` at position `index`.
pub open spec fn packed_byte<SQ: SpatialQuantizer>(c: Rgb48, k: int, nudge: i16, index: int) -> u8 {
    if rgb_is_off(c) {
        0
    } else {
        SQ::spec_quantize(spec_apply_temporal(wire_channel(c, k), nudge), index as usize)
    }
}

/// The whole wire image of `source` under slot map `m` and temporal nudge.
pub open spec fn spec_pack_wire<SQ: SpatialQuantizer>(
    source: Seq<Rgb48>,
    m: (int, int, int),
    nudge: i16,
) -> Seq<u8> {
    Seq::new(
        3 * source.len(),
        |j: int| packed_byte::<SQ>(source[j / 3], slot_channel(m, j % 3), nudge, j / 3),
    )
}

/// The wire image that packing `source` for `layout` in `frame` produces.
pub open spec fn spec_pack<TD: TemporalDither, SQ: SpatialQuantizer>(
    source: Seq<Rgb48>,
    layout: PixelLayout,
    frame: FrameEpoch,
) -> Seq<u8> {
    spec_pack_wire::<SQ>(source, spec_layout_map(layout), TD::spec_offset(frame))
}

/// Adds a signed nudge to a channel value, saturating at both ends.
pub fn apply_temporal(value: u16, t_nudge: i16) -> (r: u16)
    ensures
        r == spec_apply_temporal(value, t_nudge),
{
    let s: i32 = value as i32 + t_nudge as i32;
    if s < 0 {
        0
    } else if s > 0xFFFF {
        0xFFFF
    } else {
        s as u16
    }
}

/// High byte of a 16-bit channel value.
pub fn downscale_to_u8(value: u16) -> (r: u8)
    ensures
        r == value / 256,
{
    assert((value >> 8u16) as u8 == value / 256) by (bit_vector);
    (value >> 8) as u8
}

/// The temporal nudge a policy applies in `frame`.
pub fn temporal_offset<TD>(frame: FrameEpoch) -> (r: i16) where TD: TemporalDither + Default
    ensures
        r == TD::spec_offset(frame),
{
    TD::default().offset(frame)
}

/// Quantises one channel value with a spatial policy.
pub fn quantize_channel<SQ>(quantizer: &mut SQ, value: u16, index: usize) -> (r: u8) where
    SQ: SpatialQuantizer,

    ensures
        r == SQ::spec_quantize(value, index),
{
    quantizer.quantize(value, index)
}

proof fn lemma_triplet_position(i: int, s: int)
    requires
        0 <= i,
        0 <= s < 3,
    ensures
        (3 * i + s) / 3 == i,
        (3 * i + s) % 3 == s,
{
    assert((3 * i + s) / 3 == i && (3 * i + s) % 3 == s) by (nonlinear_arith)
        requires
            0 <= i,
            0 <= s < 3,
    ;
}

/// Packs every pixel with the fixed slot map `(R_INDEX, G_INDEX, B_INDEX)`.
pub fn pack_kernel<TD, SQ, const R_INDEX: usize, const G_INDEX: usize, const B_INDEX: usize>(
    source: &[Rgb48],
    target_bytes: &mut [u8],
    frame: FrameEpoch,
) where TD: TemporalDither + Default, SQ: SpatialQuantizer + Default
    requires
        old(target_bytes)@.len() >= 3 * source@.len(),
        is_slot_permutation((R_INDEX as int, G_INDEX as int, B_INDEX as int)),
    ensures
        final(target_bytes)@ == spec_pack_wire::<SQ>(
            source@,
            (R_INDEX as int, G_INDEX as int, B_INDEX as int),
            TD::spec_offset(frame),
        ) + old(target_bytes)@.subrange(3 * source@.len() as int, old(target_bytes)@.len() as int),
{
    let ghost m = (R_INDEX as int, G_INDEX as int, B_INDEX as int);
    let t_nudge = temporal_offset::<TD>(frame);
    let mut spatial_r = SQ::default();
    let mut spatial_g = SQ::default();
    let mut spatial_b = SQ::default();
    let ghost want = spec_pack_wire::<SQ>(source@, m, t_nudge);
    let n = source.len();
    let total = target_bytes.len();
    let mut index: usize = 0;
    while index < n
        invariant
            n == source@.len(),
            index <= n,
            target_bytes@.len() == total,
            total >= 3 * n,
            forall|j: int| 3 * index <= j < total ==> #[trigger] target_bytes@[j] == old(target_bytes)@[j],
            want == spec_pack_wire::<SQ>(source@, m, t_nudge),
            is_slot_permutation(m),
            m == (R_INDEX as int, G_INDEX as int, B_INDEX as int),
            forall|j: int| 0 <= j < 3 * index ==> #[trigger] target_bytes@[j] == want[j],
        decreases n - index,
    {
        let color = source[index];
        let base = 3 * index;
        let ghost before = target_bytes@;
        if color.is_off() {
            target_bytes[base] = 0;
            target_bytes[base + 1] = 0;
            target_bytes[base + 2] = 0;
        } else {
            let raw = color.to_wire();
            let r = quantize_channel(&mut spatial_r, apply_temporal(raw[0], t_nudge), index);
            let g = quantize_channel(&mut spatial_g, apply_temporal(raw[1], t_nudge), index);
            let b = quantize_channel(&mut spatial_b, apply_temporal(raw[2], t_nudge), index);
            target_bytes[base + R_INDEX] = r;
            target_bytes[base + G_INDEX] = g;
            target_bytes[base + B_INDEX] = b;
        }
        proof {
            assert forall|j: int| 0 <= j < 3 * (index + 1) implies #[trigger] target_bytes@[j]
                == want[j] by {
                if j >= 3 * index {
                    let s = j - 3 * index;
                    lemma_triplet_position(index as int, s);
                    assert(source@[j / 3] == color);
                }
            }
        }
        index = index + 1;
    }
    assert(target_bytes@ =~= want + old(target_bytes)@.subrange(3 * n, total as int));
}

/// Packs `source` into `target_bytes` with the given policies.
///
/// The target must hold three bytes per source pixel (bytes past the last
/// whole triplet are left as they are); otherwise the target is left
/// untouched and the mismatch is reported.
pub fn pack_into_bytes<TD, SQ>(
    source: &[Rgb48],
    target_bytes: &mut [u8],
    layout: PixelLayout,
    frame: FrameEpoch,
) -> (r: Result<(), PackError>) where TD: TemporalDither + Default, SQ: SpatialQuantizer + Default
    ensures
        r is Ok <==> source@.len() == old(target_bytes)@.len() / 3,
        r is Ok ==> final(target_bytes)@ == spec_pack::<TD, SQ>(source@, layout, frame)
            + old(target_bytes)@.subrange(3 * source@.len() as int, old(target_bytes)@.len() as int),
        r matches Err(PackError::SourceLengthMismatch { source_pixels, target_pixels }) ==> {
            &&& source_pixels == source@.len()
            &&& target_pixels == old(target_bytes)@.len() / 3
            &&& final(target_bytes)@ == old(target_bytes)@
        },
{
    let target_pixels = target_bytes.len() / 3;
    if source.len() != target_pixels {
        return Err(PackError::SourceLengthMismatch { source_pixels: source.len(), target_pixels });
    }
    let m = layout_map(layout);
    proof {
        crate::pack::layout::lemma_layout_map_is_permutation(layout);
    }
    if m[0] == 0 && m[1] == 1 && m[2] == 2 {
        pack_kernel::<TD, SQ, 0, 1, 2>(source, target_bytes, frame);
    } else if m[0] == 0 && m[1] == 2 && m[2] == 1 {
        pack_kernel::<TD, SQ, 0, 2, 1>(source, target_bytes, frame);
    } else if m[0] == 1 && m[1] == 0 && m[2] == 2 {
        pack_kernel::<TD, SQ, 1, 0, 2>(source, target_bytes, frame);
    } else if m[0] == 1 && m[1] == 2 && m[2] == 0 {
        pack_kernel::<TD, SQ, 1, 2, 0>(source, target_bytes, frame);
    } else if m[0] == 2 && m[1] == 0 && m[2] == 1 {
        pack_kernel::<TD, SQ, 2, 0, 1>(source, target_bytes, frame);
    } else {
        pack_kernel::<TD, SQ, 2, 1, 0>(source, target_bytes, frame);
    }
    Ok(())
}

} // verus!

verus! {

/// Wire slot that colour channel `k` (0 = red, 1 = green, 2 = blue) takes
/// under the slot map `m`.
pub open spec fn channel_slot(m: (int, int, int), k: int) -> int {
    if k == 0 {
        m.0
    } else if k == 1 {
        m.1
    } else {
        m.2
    }
}

/// Packing yields three wire bytes per pixel, and a fully dark pixel packs
/// to three zero bytes whatever the layout, frame and policies.
pub proof fn law_off_pixel_packs_to_zero<TD: TemporalDither, SQ: SpatialQuantizer>(
    source: Seq<Rgb48>,
    layout: PixelLayout,
    frame: FrameEpoch,
    i: int,
)
    requires
        0 <= i < source.len(),
        source[i].r == 0,
        source[i].g == 0,
        source[i].b == 0,
    ensures
        spec_pack::<TD, SQ>(source, layout, frame).len() == 3 * source.len(),
        spec_pack::<TD, SQ>(source, layout, frame).subrange(3 * i, 3 * i + 3) =~= seq![0u8, 0u8, 0u8],
{
    let w = spec_pack::<TD, SQ>(source, layout, frame);
    assert((3 * i) / 3 == i && (3 * i + 1) / 3 == i && (3 * i + 2) / 3 == i);
    assert(w[3 * i] == 0 && w[3 * i + 1] == 0 && w[3 * i + 2] == 0);
}

/// Colour channel `k` of pixel `i` lands in wire byte `3 * i` plus the slot
/// the layout gives that channel, so each triplet holds the pixel's three
/// channels in wire order.
pub proof fn law_channel_lands_in_layout_slot<TD: TemporalDither, SQ: SpatialQuantizer>(
    source: Seq<Rgb48>,
    layout: PixelLayout,
    frame: FrameEpoch,
    i: int,
    k: int,
)
    requires
        0 <= i < source.len(),
        0 <= k < 3,
    ensures
        0 <= channel_slot(spec_layout_map(layout), k) < 3,
        spec_pack::<TD, SQ>(source, layout, frame)[3 * i + channel_slot(spec_layout_map(layout), k)]
            == packed_byte::<SQ>(source[i], k, TD::spec_offset(frame), i),
{
    crate::pack::layout::lemma_layout_map_is_permutation(layout);
    let m = spec_layout_map(layout);
    let s = channel_slot(m, k);
    assert((3 * i + s) / 3 == i && (3 * i + s) % 3 == s);
    assert(slot_channel(m, s) == k);
}

/// A pixel with any channel lit is packed channel by channel: the byte in
/// each channel's layout slot is that channel's value, nudged for the frame
/// and quantised for the pixel's position. In particular a pure blue (or
/// red, or green) pixel is not taken for a dark one.
pub proof fn law_lit_pixel_packs_its_channels<TD: TemporalDither, SQ: SpatialQuantizer>(
    source: Seq<Rgb48>,
    layout: PixelLayout,
    frame: FrameEpoch,
    i: int,
)
    requires
        0 <= i < source.len(),
        source[i].r != 0 || source[i].g != 0 || source[i].b != 0,
    ensures
        spec_pack::<TD, SQ>(source, layout, frame)[3 * i + spec_layout_map(layout).0]
            == SQ::spec_quantize(spec_apply_temporal(source[i].r, TD::spec_offset(frame)), i as usize),
        spec_pack::<TD, SQ>(source, layout, frame)[3 * i + spec_layout_map(layout).1]
            == SQ::spec_quantize(spec_apply_temporal(source[i].g, TD::spec_offset(frame)), i as usize),
        spec_pack::<TD, SQ>(source, layout, frame)[3 * i + spec_layout_map(layout).2]
            == SQ::spec_quantize(spec_apply_temporal(source[i].b, TD::spec_offset(frame)), i as usize),
{
    law_channel_lands_in_layout_slot::<TD, SQ>(source, layout, frame, i, 0);
    law_channel_lands_in_layout_slot::<TD, SQ>(source, layout, frame, i, 1);
    law_channel_lands_in_layout_slot::<TD, SQ>(source, layout, frame, i, 2);
}

} // verus!
