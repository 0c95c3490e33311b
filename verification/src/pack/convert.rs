//! Colour-domain values as 16-bit linear wire channels.

use crate::model::Rgb48;
use vstd::prelude::*;

verus! {

/// Whether a pixel is fully dark.
pub open spec fn rgb_is_off(c: Rgb48) -> bool {
    c.r == 0 && c.g == 0 && c.b == 0
}

/// Channel `k` (0 = red, 1 = green, 2 = blue) of a pixel.
pub open spec fn wire_channel(c: Rgb48, k: int) -> u16 {
    if k == 0 {
        c.r
    } else if k == 1 {
        c.g
    } else {
        c.b
    }
}

/// Converts a driver-native sample into 16-bit linear wire channels.
pub trait WireColor {
    fn to_wire(&self) -> [u16; 3];

    fn is_off(&self) -> bool;
}

impl WireColor for Rgb48 {
    fn to_wire(&self) -> (r: [u16; 3])
        ensures
            r@ == seq![self.r, self.g, self.b],
    {
        [self.r, self.g, self.b]
    }

    fn is_off(&self) -> (r: bool)
        ensures
            r == rgb_is_off(*self),
            r == (self.r == 0 && self.g == 0 && self.b == 0),
    {
        let (r, g, b) = (self.r, self.g, self.b);
        assert(((r | g | b) == 0) == (r == 0 && g == 0 && b == 0)) by (bit_vector);
        (r | g | b) == 0
    }
}

} // verus!
