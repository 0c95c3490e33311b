use crate::model::PixelLayout;
use vstd::prelude::*;

verus! {

/// Wire slot of the red, green and blue channel for a layout.
pub open spec fn spec_layout_map(layout: PixelLayout) -> (int, int, int) {
    match layout {
        PixelLayout::Grb => (1, 0, 2),
        PixelLayout::Rgb => (0, 1, 2),
        PixelLayout::Bgr => (2, 1, 0),
        PixelLayout::Rbg => (0, 2, 1),
        PixelLayout::Gbr => (1, 2, 0),
        PixelLayout::Brg => (2, 0, 1),
    }
}

/// The three slots form a permutation of `{0, 1, 2}`.
pub open spec fn is_slot_permutation(m: (int, int, int)) -> bool {
    &&& 0 <= m.0 < 3
    &&& 0 <= m.1 < 3
    &&& 0 <= m.2 < 3
    &&& m.0 != m.1
    &&& m.0 != m.2
    &&& m.1 != m.2
}

/// Returns the write index for the (r, g, b) channels in the wire triplet.
pub fn layout_map(layout: PixelLayout) -> (r: [usize; 3])
    ensures
        (r[0] as int, r[1] as int, r[2] as int) == spec_layout_map(layout),
{
    match layout {
        PixelLayout::Grb => [1, 0, 2],
        PixelLayout::Rgb => [0, 1, 2],
        PixelLayout::Bgr => [2, 1, 0],
        PixelLayout::Rbg => [0, 2, 1],
        PixelLayout::Gbr => [1, 2, 0],
        PixelLayout::Brg => [2, 0, 1],
    }
}

/// Every layout maps the colour channels onto distinct wire slots.
pub proof fn lemma_layout_map_is_permutation(layout: PixelLayout)
    ensures
        is_slot_permutation(spec_layout_map(layout)),
{
}

} // verus!
