use super::error::{BackendContractViolation, EngineError};
use crate::backend::{BackendWriteLease, LedBackend};
use crate::model::{FrameEpoch, PixelLayout, Rgb48};
use crate::pack::pipeline::spec_pack;
use crate::pack::{pack_rgb48_active, ActiveSpatialQuantizer, ActiveTemporalDither, PackError};
use vstd::prelude::*;

verus! {

/// One acquired backend write together with what is needed to pack into it.
pub struct PreparedWrite<'a, B> where B: LedBackend + 'a {
    pub layout: PixelLayout,
    pub frame_phase: FrameEpoch,
    /// Length the lease's buffer was checked to have when it was acquired.
    pub wire_byte_count: usize,
    pub lease: B::WriteLease<'a>,
    /// The wire bytes the latest successful pack left in the lease's buffer.
    pub packed: Ghost<Seq<u8>>,
}

impl<'a, B: LedBackend> PreparedWrite<'a, B> {
    /// Packs `source` into the lease's wire buffer with the active policies.
    /// The buffer must still have the length checked at acquisition; the
    /// source must hold one pixel per three of its bytes.
    pub fn pack_rgb48_active(&mut self, source: &[Rgb48]) -> (r: Result<(), EngineError>)
        ensures
            final(self).layout == old(self).layout,
            final(self).frame_phase == old(self).frame_phase,
            final(self).wire_byte_count == old(self).wire_byte_count,
            r is Ok ==> source@.len() == old(self).wire_byte_count / 3,
            r is Ok ==> final(self).packed@.len() == old(self).wire_byte_count,
            r is Ok ==> final(self).packed@.subrange(0, 3 * source@.len() as int)
                == spec_pack::<ActiveTemporalDither, ActiveSpatialQuantizer>(source@, old(self).layout, old(self).frame_phase),
            r is Err ==> r == Err::<(), _>(
                EngineError::BackendContractViolation(BackendContractViolation::WrongTargetLength),
            ) || (r matches Err(EngineError::SourceLengthMismatch { expected_pixels, actual_pixels })
                && expected_pixels == old(self).wire_byte_count / 3 && actual_pixels
                == source@.len() && expected_pixels != actual_pixels),
    {
        let target = self.lease.bytes_mut();
        if target.len() != self.wire_byte_count {
            return Err(
                EngineError::BackendContractViolation(BackendContractViolation::WrongTargetLength),
            );
        }
        match pack_rgb48_active(source, target, self.layout, self.frame_phase) {
            Ok(()) => {
                self.packed = Ghost(target@);
                Ok(())
            },
            Err(PackError::SourceLengthMismatch { source_pixels, target_pixels }) => Err(
                EngineError::SourceLengthMismatch {
                    expected_pixels: target_pixels,
                    actual_pixels: source_pixels,
                },
            ),
        }
    }

    /// Publishes the write into backend-pending state.
    pub fn publish(&mut self) -> (r: Result<(), EngineError>)
        ensures
            final(self).layout == old(self).layout,
            final(self).frame_phase == old(self).frame_phase,
            final(self).wire_byte_count == old(self).wire_byte_count,
            final(self).packed == old(self).packed,
            r is Ok || r matches Err(EngineError::Backend(_)),
    {
        match self.lease.publish() {
            Ok(()) => Ok(()),
            Err(e) => Err(EngineError::Backend(e)),
        }
    }
}

} // verus!
