//! What the runtime asks of an animation.

use vstd::prelude::*;
use crate::location::PixelLocation;
use crate::strips::{shape_of, strips_of};

verus! {

/// An animation: state that is built from a closed layout, moves on by one
/// step at a time, and can paint itself into a frame.
///
/// Each of the three methods is a function of what it is given and nothing
/// else, and that function has a name here: `spec_new`, `spec_tick` and
/// `spec_render`. An implementation that is verified defines the three and
/// proves its methods against them. Their bodies below say nothing; they
/// are there so that an implementation outside the verifier need not
/// mention them. Of such an implementation the contracts of the methods are
/// taken on trust.
pub trait PixelAnimation: Sized {
    /// The record of settings that the host can change while the animation
    /// runs. The animation never keeps one: it is lent the live record on
    /// every call.
    type Params;

    /// The animation that `new` builds.
    open spec fn spec_new(params: &Self::Params, pixel_locs: Seq<Seq<PixelLocation>>) -> Self {
        arbitrary()
    }

    /// The animation one step later.
    open spec fn spec_tick(&self, params: &Self::Params) -> Self {
        arbitrary()
    }

    /// The colour that the animation gives, as it stands, to one pixel.
    open spec fn spec_render(&self, params: &Self::Params, strip_idx: int, pixel_idx: int) -> u32 {
        arbitrary()
    }

    /// Builds the animation for a layout that will not change any more.
    fn new(params: &Self::Params, pixel_locs: Vec<Vec<PixelLocation>>) -> (animation: Self)
        ensures
            animation == Self::spec_new(params, strips_of(pixel_locs)),
    ;

    /// Moves the animation on by one step. No frame is touched.
    fn tick(&mut self, params: &Self::Params)
        ensures
            *final(self) == old(self).spec_tick(params),
    ;

    /// Paints the animation into `pixels`: every slot gets its colour, and
    /// the frame keeps its shape.
    fn render(&self, params: &Self::Params, pixels: &mut Vec<Vec<u32>>)
        ensures
            shape_of(strips_of(*final(pixels))) == shape_of(strips_of(*old(pixels))),
            forall|s: int, p: int|
                0 <= s < final(pixels)@.len() && 0 <= p < final(pixels)@[s]@.len()
                    ==> #[trigger] final(pixels)@[s]@[p] == self.spec_render(params, s, p),
    ;
}

/// The frame of the given shape as `animation` paints it.
pub open spec fn rendered_frame<A: PixelAnimation>(
    animation: A,
    params: A::Params,
    shape: Seq<nat>,
) -> Seq<Seq<u32>> {
    Seq::new(
        shape.len(),
        |s: int| Seq::new(shape[s], |p: int| animation.spec_render(&params, s, p)),
    )
}

} // verus!
