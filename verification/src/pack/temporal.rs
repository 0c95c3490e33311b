//! Temporal dithering policies: a per-frame signed nudge added to every
//! channel before quantisation.

use crate::model::FrameEpoch;
use vstd::prelude::*;

verus! {

pub trait TemporalDither {
    /// Nudge applied in `frame`. The default describes a policy that never
    /// nudges; a policy that nudges states its own.
    open spec fn spec_offset(frame: FrameEpoch) -> i16 {
        0
    }

    fn offset(&self, frame: FrameEpoch) -> (r: i16)
        ensures
            r == Self::spec_offset(frame),
    ;
}

#[derive(Default)]
pub struct NoTemporalDither;

impl TemporalDither for NoTemporalDither {
    open spec fn spec_offset(frame: FrameEpoch) -> i16 {
        0
    }

    fn offset(&self, frame: FrameEpoch) -> (r: i16) {
        0
    }
}

/// Four-frame ordered temporal pattern.
pub open spec fn bayer_frame_offset(frame: u32) -> i16 {
    let phase = frame % 4;
    if phase == 0 {
        -32i16
    } else if phase == 1 {
        32i16
    } else if phase == 2 {
        -16i16
    } else {
        16i16
    }
}

#[derive(Default)]
pub struct TemporalBayerDither;

impl TemporalDither for TemporalBayerDither {
    open spec fn spec_offset(frame: FrameEpoch) -> i16 {
        bayer_frame_offset(frame.0)
    }

    fn offset(&self, frame: FrameEpoch) -> (r: i16) {
        match frame.as_u32() % 4 {
            0 => -32,
            1 => 32,
            2 => -16,
            _ => 16,
        }
    }
}

} // verus!
