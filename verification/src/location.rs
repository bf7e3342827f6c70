//! Where a pixel sits.

use vstd::prelude::*;

verus! {

/// The place of one pixel in the plane.
///
/// Each coordinate is held as the bit pattern of an IEEE 754 single-precision
/// number, so that a location can be stored, compared and handed on without
/// any arithmetic on it. The runtime never looks inside a coordinate; an
/// animation turns the bits back into a number when it needs one.
#[derive(Clone, Copy, Debug, PartialEq, Eq, Structural)]
pub struct PixelLocation {
    pub x_bits: u32,
    pub y_bits: u32,
}

impl PixelLocation {
    /// The location whose two coordinates are positive zero: all bits clear.
    pub open spec fn origin() -> PixelLocation {
        PixelLocation { x_bits: 0, y_bits: 0 }
    }

    /// The location with the given coordinate bits.
    pub fn new(x_bits: u32, y_bits: u32) -> (loc: PixelLocation)
        ensures
            loc == (PixelLocation { x_bits, y_bits }),
    {
        PixelLocation { x_bits, y_bits }
    }
}

impl Default for PixelLocation {
    /// The origin, which is what every new slot of a strip holds.
    fn default() -> (loc: PixelLocation)
        ensures
            loc == PixelLocation::origin(),
    {
        PixelLocation { x_bits: 0, y_bits: 0 }
    }
}

} // verus!
