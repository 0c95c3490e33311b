use super::error::EngineError;
use crate::backend::{BackendWriteLease, LedBackend};
use crate::model::{FrameEpoch, PixelLayout, Rgb48};
use crate::pack::pipeline::spec_pack;
use crate::pack::{
    pack_into_bytes, ActiveSpatialQuantizer, ActiveTemporalDither, PackError, SpatialQuantizer,
    TemporalDither,
};
use vstd::prelude::*;

verus! {

/// Engine-owned holder of one acquired backend write lease and of what is
/// needed to pack into it. Publishing and aborting live on the lease.
pub struct PreparedWrite<'a, B> where B: LedBackend + 'a {
    pub layout: PixelLayout,
    pub frame_phase: FrameEpoch,
    pub lease: B::WriteLease<'a>,
    /// The wire bytes the latest successful pack left in the lease's buffer.
    pub packed: Ghost<Seq<u8>>,
}

impl<'a, B: LedBackend> PreparedWrite<'a, B> {
    /// Packs with the driver's active policies.
    pub fn pack_rgb48_active(&mut self, source: &[Rgb48]) -> (r: Result<(), EngineError>)
        ensures
            final(self).layout == old(self).layout,
            final(self).frame_phase == old(self).frame_phase,
            r is Ok || (r matches Err(EngineError::SourceLengthMismatch { expected_pixels, actual_pixels })
                && actual_pixels == source@.len() && expected_pixels != actual_pixels),
            r is Ok ==> final(self).packed@.subrange(0, 3 * source@.len() as int)
                == spec_pack::<ActiveTemporalDither, ActiveSpatialQuantizer>(source@, old(self).layout, old(self).frame_phase),
    {
        self.pack_slice_with::<ActiveTemporalDither, ActiveSpatialQuantizer>(source)
    }

    /// Packs `source` into the lease's wire buffer with the given policies.
    pub fn pack_slice_with<TD, SQ>(&mut self, source: &[Rgb48]) -> (r: Result<(), EngineError>) where
        TD: TemporalDither + Default,
        SQ: SpatialQuantizer + Default,

        ensures
            final(self).layout == old(self).layout,
            final(self).frame_phase == old(self).frame_phase,
            r is Ok || (r matches Err(EngineError::SourceLengthMismatch { expected_pixels, actual_pixels })
                && actual_pixels == source@.len() && expected_pixels != actual_pixels),
            r is Ok ==> final(self).packed@.subrange(0, 3 * source@.len() as int)
                == spec_pack::<TD, SQ>(source@, old(self).layout, old(self).frame_phase),
    {
        let target = self.lease.bytes_mut();
        match pack_into_bytes::<TD, SQ>(source, target, self.layout, self.frame_phase) {
            Ok(()) => {
                self.packed = Ghost(target@);
                Ok(())
            },
            Err(PackError::SourceLengthMismatch { source_pixels, target_pixels }) => Err(
                EngineError::SourceLengthMismatch {
                    expected_pixels: target_pixels,
                    actual_pixels: source_pixels,
                },
            ),
        }
    }

    /// Publishes the write into backend-pending state.
    pub fn publish(&mut self) -> (r: Result<(), EngineError>)
        ensures
            final(self).layout == old(self).layout,
            final(self).frame_phase == old(self).frame_phase,
            final(self).packed == old(self).packed,
            r is Ok || r matches Err(EngineError::Backend(_)),
    {
        match self.lease.publish() {
            Ok(()) => Ok(()),
            Err(e) => Err(EngineError::Backend(e)),
        }
    }
}

} // verus!
