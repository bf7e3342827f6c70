//! The layout while it can still change.

use std::marker::PhantomData;
use vstd::prelude::*;
use crate::animation::PixelAnimation;
use crate::error::RuntimeError;
use crate::location::PixelLocation;
use crate::strips::{resized_layout, resized_strip, shape_of, strips_of, zero_frame};

verus! {

/// Collects the strips of a layout and the place of each pixel, in any
/// order and as often as the host likes, until the layout is closed with
/// [`PixelAnimationBuilder::build`].
pub struct PixelAnimationBuilder<A: PixelAnimation> {
    pixel_locs: Vec<Vec<PixelLocation>>,
    _a_marker: PhantomData<A>,
}

/// Brings `strip` to `length` slots.
fn resize_strip(strip: &mut Vec<PixelLocation>, length: usize)
    ensures
        final(strip)@ == resized_strip(old(strip)@, length as nat),
{
    strip.truncate(length);
    while strip.len() < length
        invariant
            strip@.len() <= length,
            strip@.len() == length || strip@.len() >= old(strip)@.len(),
            strip@ == resized_strip(old(strip)@, strip@.len()),
        decreases length - strip@.len(),
    {
        strip.push(PixelLocation::default());
    }
}

/// A strip of `length` slots, all zero.
fn zero_strip(length: usize) -> (strip: Vec<u32>)
    ensures
        strip@ == Seq::new(length as nat, |p: int| 0u32),
{
    let mut strip: Vec<u32> = Vec::new();
    while strip.len() < length
        invariant
            strip@.len() <= length,
            strip@ == Seq::new(strip@.len(), |p: int| 0u32),
        decreases length - strip@.len(),
    {
        strip.push(0u32);
    }
    strip
}

impl<A: PixelAnimation> PixelAnimationBuilder<A> {
    /// The layout collected so far: one sequence of locations per strip.
    pub closed spec fn layout(&self) -> Seq<Seq<PixelLocation>> {
        strips_of(self.pixel_locs)
    }

    /// A builder with no strips.
    pub fn new() -> (builder: Self)
        ensures
            builder.layout() == Seq::<Seq<PixelLocation>>::empty(),
    {
        PixelAnimationBuilder { pixel_locs: Vec::new(), _a_marker: PhantomData }
    }

    /// Sets the number of strips. Strips beyond `n_strips` are dropped with
    /// all they hold; strips that are added start empty.
    pub fn set_num_strips(&mut self, n_strips: usize)
        ensures
            final(self).layout() == resized_layout(old(self).layout(), n_strips as nat),
    {
        self.pixel_locs.truncate(n_strips);
        while self.pixel_locs.len() < n_strips
            invariant
                self.pixel_locs@.len() <= n_strips,
                self.pixel_locs@.len() == n_strips || self.pixel_locs@.len() >= old(
                    self,
                ).layout().len(),
                self.layout() == resized_layout(old(self).layout(), self.pixel_locs@.len()),
            decreases n_strips - self.pixel_locs@.len(),
        {
            let ghost before = self.layout();
            self.pixel_locs.push(Vec::new());
            assert(self.layout() =~~= before.push(Seq::empty()));
            assert(before.push(Seq::empty()) =~~= resized_layout(
                old(self).layout(),
                self.pixel_locs@.len(),
            ));
        }
    }

    /// Sets the number of slots of one strip. Slots below `length` keep
    /// their location; slots that are added hold the origin.
    ///
    /// Refused, with nothing changed, when there is no strip `strip_idx`.
    pub fn set_strip_len(&mut self, strip_idx: usize, length: usize) -> (r: Result<
        (),
        RuntimeError,
    >)
        ensures
            strip_idx < old(self).layout().len() ==> r == Ok::<(), RuntimeError>(())
                && final(self).layout() == old(self).layout().update(
                strip_idx as int,
                resized_strip(old(self).layout()[strip_idx as int], length as nat),
            ),
            strip_idx >= old(self).layout().len() ==> r == Err::<(), RuntimeError>(
                RuntimeError::IndexOutOfRange,
            ) && final(self).layout() == old(self).layout(),
    {
        if strip_idx >= self.pixel_locs.len() {
            return Err(RuntimeError::IndexOutOfRange);
        }
        resize_strip(&mut self.pixel_locs[strip_idx], length);
        Ok(())
    }

    /// Sets the location of one pixel to the coordinates whose bits are
    /// given.
    ///
    /// Refused, with nothing changed, when there is no strip `strip_idx`
    /// or that strip has no slot `pixel_idx`.
    pub fn set_pixel_loc(&mut self, strip_idx: usize, pixel_idx: usize, x_bits: u32, y_bits: u32) -> (r:
        Result<(), RuntimeError>)
        ensures
            strip_idx < old(self).layout().len() && pixel_idx < old(
                self,
            ).layout()[strip_idx as int].len() ==> r == Ok::<(), RuntimeError>(())
                && final(self).layout() == old(self).layout().update(
                strip_idx as int,
                old(self).layout()[strip_idx as int].update(
                    pixel_idx as int,
                    PixelLocation { x_bits, y_bits },
                ),
            ),
            strip_idx >= old(self).layout().len() || pixel_idx >= old(
                self,
            ).layout()[strip_idx as int].len() ==> r == Err::<(), RuntimeError>(
                RuntimeError::IndexOutOfRange,
            ) && final(self).layout() == old(self).layout(),
    {
        if strip_idx >= self.pixel_locs.len() {
            return Err(RuntimeError::IndexOutOfRange);
        }
        if pixel_idx >= self.pixel_locs[strip_idx].len() {
            return Err(RuntimeError::IndexOutOfRange);
        }
        self.pixel_locs[strip_idx][pixel_idx] = PixelLocation { x_bits, y_bits };
        Ok(())
    }

    /// Closes the layout: builds the animation for it and a frame of the
    /// same shape in which every slot is zero.
    pub fn build(self, params: &A::Params) -> (r: (A, Vec<Vec<u32>>))
        ensures
            r.0 == A::spec_new(params, self.layout()),
            strips_of(r.1) == zero_frame(shape_of(self.layout())),
    {
        let mut pixels: Vec<Vec<u32>> = Vec::new();
        let mut s: usize = 0;
        while s < self.pixel_locs.len()
            invariant
                s <= self.pixel_locs@.len(),
                pixels@.len() == s,
                forall|i: int|
                    0 <= i < s ==> #[trigger] pixels@[i]@ == Seq::new(
                        self.pixel_locs@[i]@.len(),
                        |p: int| 0u32,
                    ),
            decreases self.pixel_locs@.len() - s,
        {
            let strip = zero_strip(self.pixel_locs[s].len());
            pixels.push(strip);
            s = s + 1;
        }
        let animation = A::new(params, self.pixel_locs);
        (animation, pixels)
    }
}

} // verus!
