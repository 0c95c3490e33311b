//! Wire-target descriptions handed over by backends that expose raw memory.

use super::error::EngineError;
use crate::model::{FrameEpoch, PixelLayout};
use vstd::prelude::*;

verus! {

/// A backend-reported wire buffer: start address and size in bytes.
#[derive(Copy, Clone, Debug, PartialEq, Eq, Structural)]
pub struct WireSpan {
    pub addr: usize,
    pub size_bytes: u32,
}

/// A validated wire buffer. An empty buffer needs no address; a non-empty
/// one has a non-null address.
#[derive(Copy, Clone, Debug, PartialEq, Eq, Structural)]
pub struct WireTarget {
    pub addr: usize,
    pub len_bytes: u32,
}

impl WireTarget {
    pub fn from_span(span: WireSpan) -> (r: Result<Self, EngineError>)
        ensures
            span.size_bytes != 0 && span.addr == 0 ==> r == Err::<Self, _>(
                EngineError::InvalidWireSpan,
            ),
            !(span.size_bytes != 0 && span.addr == 0) ==> r == Ok::<_, EngineError>(
                WireTarget { addr: span.addr, len_bytes: span.size_bytes },
            ),
    {
        if span.size_bytes != 0 && span.addr == 0 {
            return Err(EngineError::InvalidWireSpan);
        }
        Ok(WireTarget { addr: span.addr, len_bytes: span.size_bytes })
    }
}

/// Everything needed to pack one write into a validated wire target.
#[derive(Copy, Clone, Debug, PartialEq, Eq, Structural)]
pub struct WritePlan {
    pub layout: PixelLayout,
    pub frame_phase: FrameEpoch,
    pub target: WireTarget,
}

} // verus!
