//! The plainest animation there is: every pixel shows the same colour.

use vstd::prelude::*;
use crate::animation::PixelAnimation;
use crate::location::PixelLocation;
use crate::runtime::PixelAnimationGlobal;
use crate::strips::{shape_of, strips_of};

verus! {

/// The settings of [`Solid`]: the three channels of its colour. A channel
/// above 255 counts as 255.
#[derive(Clone, Copy, Debug, PartialEq, Eq, Structural)]
pub struct SolidParams {
    pub red: u32,
    pub green: u32,
    pub blue: u32,
}

impl Default for SolidParams {
    /// Black.
    fn default() -> (params: SolidParams)
        ensures
            params == SolidParams::black(),
    {
        SolidParams { red: 0, green: 0, blue: 0 }
    }
}

/// A channel as it is shown.
pub open spec fn clamped(channel: u32) -> u32 {
    if channel > 255 {
        255
    } else {
        channel
    }
}

impl SolidParams {
    /// The record of defaults.
    pub open spec fn black() -> SolidParams {
        SolidParams { red: 0, green: 0, blue: 0 }
    }

    /// The colour as one number: red in bits 16 to 23, green in bits 8 to
    /// 15, blue in bits 0 to 7.
    pub open spec fn spec_color(&self) -> u32 {
        (clamped(self.red) << 16) | (clamped(self.green) << 8) | clamped(self.blue)
    }

    /// The colour as one number.
    pub fn color(&self) -> (color: u32)
        ensures
            color == self.spec_color(),
    {
        let red: u32 = if self.red > 255 { 255 } else { self.red };
        let green: u32 = if self.green > 255 { 255 } else { self.green };
        let blue: u32 = if self.blue > 255 { 255 } else { self.blue };
        (red << 16) | (green << 8) | blue
    }
}

/// The animation that paints every pixel with the colour of its settings.
/// It has no state of its own, so a step changes nothing.
pub struct Solid;

impl PixelAnimation for Solid {
    type Params = SolidParams;

    open spec fn spec_new(params: &SolidParams, pixel_locs: Seq<Seq<PixelLocation>>) -> Solid {
        Solid
    }

    open spec fn spec_tick(&self, params: &SolidParams) -> Solid {
        Solid
    }

    open spec fn spec_render(&self, params: &SolidParams, strip_idx: int, pixel_idx: int) -> u32 {
        params.spec_color()
    }

    fn new(params: &SolidParams, pixel_locs: Vec<Vec<PixelLocation>>) -> (animation: Solid) {
        Solid
    }

    fn tick(&mut self, params: &SolidParams) {
    }

    fn render(&self, params: &SolidParams, pixels: &mut Vec<Vec<u32>>) {
        let color: u32 = params.color();
        let n_strips: usize = pixels.len();
        let mut s: usize = 0;
        while s < n_strips
            invariant
                s <= n_strips,
                n_strips == pixels@.len(),
                color == params.spec_color(),
                shape_of(strips_of(*pixels)) == shape_of(strips_of(*old(pixels))),
                forall|i: int, p: int|
                    0 <= i < s && 0 <= p < pixels@[i]@.len() ==> #[trigger] pixels@[i]@[p]
                        == color,
            decreases n_strips - s,
        {
            let length: usize = pixels[s].len();
            let mut p: usize = 0;
            while p < length
                invariant
                    s < n_strips,
                    p <= length,
                    n_strips == pixels@.len(),
                    length == pixels@[s as int]@.len(),
                    shape_of(strips_of(*pixels)) == shape_of(strips_of(*old(pixels))),
                    forall|i: int, q: int|
                        0 <= i < s && 0 <= q < pixels@[i]@.len() ==> #[trigger] pixels@[i]@[q]
                            == color,
                    forall|q: int| 0 <= q < p ==> #[trigger] pixels@[s as int]@[q] == color,
                decreases length - p,
            {
                let ghost before = strips_of(*pixels);
                pixels[s][p] = color;
                assert(shape_of(strips_of(*pixels)) =~= shape_of(before));
                p = p + 1;
            }
            s = s + 1;
        }
    }
}

/// The record of a runtime of [`Solid`], field by field. Reading a field
/// makes a fresh runtime ready and changes nothing else, so a field that was
/// never written reads as zero. Writing a field changes that field: the
/// other two read as before, and so do the layout and the frame.
impl PixelAnimationGlobal<Solid> {
    /// The red channel of the live record.
    pub fn get_param_red(&mut self) -> (val: u32)
        ensures
            final(self)@ == old(self)@.started(SolidParams::black()),
            val == final(self)@.params().red,
    {
        self.params_mut().red
    }

    /// Writes the red channel of the live record.
    pub fn set_param_red(&mut self, val: u32)
        ensures
            ({
                let before = old(self)@.started(SolidParams::black());
                final(self)@ == before.with_params(
                    SolidParams {
                        red: val,
                        green: before.params().green,
                        blue: before.params().blue,
                    },
                )
            }),
    {
        self.params_mut().red = val;
    }

    /// The green channel of the live record.
    pub fn get_param_green(&mut self) -> (val: u32)
        ensures
            final(self)@ == old(self)@.started(SolidParams::black()),
            val == final(self)@.params().green,
    {
        self.params_mut().green
    }

    /// Writes the green channel of the live record.
    pub fn set_param_green(&mut self, val: u32)
        ensures
            ({
                let before = old(self)@.started(SolidParams::black());
                final(self)@ == before.with_params(
                    SolidParams {
                        red: before.params().red,
                        green: val,
                        blue: before.params().blue,
                    },
                )
            }),
    {
        self.params_mut().green = val;
    }

    /// The blue channel of the live record.
    pub fn get_param_blue(&mut self) -> (val: u32)
        ensures
            final(self)@ == old(self)@.started(SolidParams::black()),
            val == final(self)@.params().blue,
    {
        self.params_mut().blue
    }

    /// Writes the blue channel of the live record.
    pub fn set_param_blue(&mut self, val: u32)
        ensures
            ({
                let before = old(self)@.started(SolidParams::black());
                final(self)@ == before.with_params(
                    SolidParams {
                        red: before.params().red,
                        green: before.params().green,
                        blue: val,
                    },
                )
            }),
    {
        self.params_mut().blue = val;
    }
}

} // verus!
