//! Packing a colour slice into the wire target a write plan describes.

use super::error::EngineError;
use super::types::WritePlan;
use super::LedEngine;
use crate::backend::LedBackend;
use crate::model::{FrameEpoch, Rgb48};
use crate::pack::pipeline::spec_pack;
use crate::pack::{pack_into_bytes, PackError, SpatialQuantizer, TemporalDither};
use vstd::prelude::*;

verus! {

impl<B: LedBackend> LedEngine<B> {
    /// Packs `source` for `frame_count` into `target`, the bytes of the wire
    /// target `plan` describes, with the given policies.
    ///
    /// The target must hold three bytes per source pixel; otherwise nothing
    /// is written and the mismatch is reported in pixels.
    pub fn write_slice_to_plan<TD, SQ>(
        source: &[Rgb48],
        frame_count: FrameEpoch,
        plan: WritePlan,
        target: &mut [u8],
    ) -> (r: Result<(), EngineError>) where
        TD: TemporalDither + Default,
        SQ: SpatialQuantizer + Default,

        requires
            old(target)@.len() == plan.target.len_bytes,
        ensures
            r is Ok <==> source@.len() == old(target)@.len() / 3,
            r is Ok ==> final(target)@ == spec_pack::<TD, SQ>(source@, plan.layout, frame_count)
                + old(target)@.subrange(3 * source@.len() as int, old(target)@.len() as int),
            r is Err ==> r == Err::<(), _>(
                EngineError::SourceLengthMismatch {
                    expected_pixels: (old(target)@.len() / 3) as usize,
                    actual_pixels: source@.len() as usize,
                },
            ) && final(target)@ == old(target)@,
    {
        match pack_into_bytes::<TD, SQ>(source, target, plan.layout, frame_count) {
            Ok(()) => Ok(()),
            Err(PackError::SourceLengthMismatch { source_pixels, target_pixels }) => Err(
                EngineError::SourceLengthMismatch {
                    expected_pixels: target_pixels,
                    actual_pixels: source_pixels,
                },
            ),
        }
    }
}

} // verus!
