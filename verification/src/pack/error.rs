use vstd::prelude::*;

verus! {

#[derive(Copy, Clone, Debug, PartialEq, Eq, Structural)]
pub enum PackError {
    SourceLengthMismatch { source_pixels: usize, target_pixels: usize },
}

} // verus!
