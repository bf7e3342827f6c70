//! Strips as sequences of sequences: the mathematical side of a layout and
//! of a frame.

use vstd::prelude::*;
use crate::location::PixelLocation;

verus! {

/// The strips that a vector of vectors holds, in order.
pub open spec fn strips_of<T>(v: Vec<Vec<T>>) -> Seq<Seq<T>> {
    Seq::new(v@.len(), |s: int| v@[s]@)
}

/// The length of each strip, in order.
pub open spec fn shape_of<T>(strips: Seq<Seq<T>>) -> Seq<nat> {
    Seq::new(strips.len(), |s: int| strips[s].len())
}

/// A strip brought to `len` slots: the slots that stay keep what they held,
/// the new ones hold the origin.
pub open spec fn resized_strip(strip: Seq<PixelLocation>, len: nat) -> Seq<PixelLocation> {
    Seq::new(
        len,
        |p: int|
            if p < strip.len() {
                strip[p]
            } else {
                PixelLocation::origin()
            },
    )
}

/// A layout brought to `n` strips: the strips that stay keep their slots,
/// the new ones are empty.
pub open spec fn resized_layout(layout: Seq<Seq<PixelLocation>>, n: nat) -> Seq<
    Seq<PixelLocation>,
> {
    Seq::new(
        n,
        |s: int|
            if s < layout.len() {
                layout[s]
            } else {
                Seq::empty()
            },
    )
}

/// The frame of the given shape in which every slot is zero.
pub open spec fn zero_frame(shape: Seq<nat>) -> Seq<Seq<u32>> {
    Seq::new(shape.len(), |s: int| Seq::new(shape[s], |p: int| 0u32))
}

} // verus!
