//! Packing boundary: colour values to wire-order RGB byte triplets.
//!
//! - `pipeline`: packing kernel plus wire/layout glue;
//! - `spatial`: spatial quantisation policies;
//! - `temporal`: temporal dithering policies.
//!
//! This is a pure data-plane module with no transfer or state policy.

pub mod convert;
pub mod error;
pub mod layout;
pub mod pipeline;
pub mod spatial;
pub mod temporal;

pub use convert::WireColor;
pub use error::PackError;
pub use layout::layout_map;
pub use pipeline::{pack_into_bytes, pack_kernel};
pub use spatial::{NoSpatialQuantizer, SpatialBayerQuantizer, SpatialQuantizer};
pub use temporal::{NoTemporalDither, TemporalBayerDither, TemporalDither};

use crate::model::{FrameEpoch, PixelLayout, Rgb48};
use vstd::prelude::*;

verus! {

/// Temporal policy the driver packs with.
pub type ActiveTemporalDither = TemporalBayerDither;

/// Spatial policy the driver packs with.
pub type ActiveSpatialQuantizer = SpatialBayerQuantizer;

/// Packs with the driver's active temporal and spatial policies.
pub fn pack_rgb48_active(
    source: &[Rgb48],
    target: &mut [u8],
    layout: PixelLayout,
    frame: FrameEpoch,
) -> (r: Result<(), PackError>)
    ensures
        r is Ok <==> source@.len() == old(target)@.len() / 3,
        r is Ok ==> final(target)@ == pipeline::spec_pack::<ActiveTemporalDither, ActiveSpatialQuantizer>(
            source@,
            layout,
            frame,
        ) + old(target)@.subrange(3 * source@.len() as int, old(target)@.len() as int),
        r matches Err(PackError::SourceLengthMismatch { source_pixels, target_pixels }) ==> {
            &&& source_pixels == source@.len()
            &&& target_pixels == old(target)@.len() / 3
            &&& final(target)@ == old(target)@
        },
{
    pack_into_bytes::<ActiveTemporalDither, ActiveSpatialQuantizer>(source, target, layout, frame)
}

} // verus!
