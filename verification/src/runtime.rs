//! The runtime that a host drives call by call.

use vstd::prelude::*;
use crate::animation::{rendered_frame, PixelAnimation};
use crate::builder::PixelAnimationBuilder;
use crate::error::RuntimeError;
use crate::location::PixelLocation;
use crate::protocol::Call;
use crate::state::RuntimeState;
use crate::strips::{shape_of, strips_of};

verus! {

/// The two phases of a runtime that has been touched, each with what is
/// alive in it. The record of parameters is there in both.
pub enum PixelAnimationBuildStage<A: PixelAnimation> {
    /// The layout is open and can be changed.
    Building { params: A::Params, builder: PixelAnimationBuilder<A> },
    /// The layout is closed; the animation runs and paints into `pixels`.
    Built { params: A::Params, animation: A, pixels: Vec<Vec<u32>> },
}

/// The runtime: nothing at first, then a layout under construction, then,
/// for good, a running animation with its frame.
///
/// One host owns the runtime and makes one call at a time.
pub struct PixelAnimationGlobal<A: PixelAnimation>(pub Option<PixelAnimationBuildStage<A>>);

impl<A: PixelAnimation> View for PixelAnimationGlobal<A> {
    type V = RuntimeState<A>;

    open spec fn view(&self) -> RuntimeState<A> {
        match self.0 {
            None => RuntimeState::Fresh,
            Some(PixelAnimationBuildStage::Building { params, builder }) => RuntimeState::Building {
                params,
                layout: builder.layout(),
            },
            Some(PixelAnimationBuildStage::Built { params, animation, pixels }) => RuntimeState::Built {
                params,
                animation,
                pixels: strips_of(pixels),
            },
        }
    }
}

impl<A: PixelAnimation> PixelAnimationGlobal<A> where A::Params: Default {
    /// A runtime that nothing has touched.
    pub fn new() -> (runtime: Self)
        ensures
            runtime@ == RuntimeState::<A>::Fresh,
    {
        PixelAnimationGlobal(None)
    }

    /// Makes a fresh runtime ready; leaves any other as it is.
    fn init(&mut self)
        ensures
            final(self).0 is Some,
            old(self)@.admits_params(final(self)@.params()),
            final(self)@ == old(self)@.started(final(self)@.params()),
    {
        if self.0.is_none() {
            let params = A::Params::default();
            let builder = PixelAnimationBuilder::new();
            self.0 = Some(PixelAnimationBuildStage::Building { params, builder });
        }
    }

    /// Sets the number of strips of the open layout.
    ///
    /// Refused as a violation of the protocol once the layout is closed.
    pub fn init_layout_set_num_strips(&mut self, n_strips: usize) -> (r: Result<(), RuntimeError>)
        ensures
            r == (if old(self)@.is_built() {
                Err::<(), RuntimeError>(RuntimeError::ProtocolViolation)
            } else {
                Ok::<(), RuntimeError>(())
            }),
            old(self)@.admits_params(final(self)@.params()),
            final(self)@ == old(self)@.started(final(self)@.params()).with_num_strips(
                n_strips as nat,
            ),
            r == old(self)@.outcome(Call::SetNumStrips { n_strips: n_strips as nat }),
    {
        self.init();
        match &mut self.0 {
            Some(PixelAnimationBuildStage::Building { builder, .. }) => {
                builder.set_num_strips(n_strips);
                Ok(())
            },
            Some(PixelAnimationBuildStage::Built { .. }) => Err(RuntimeError::ProtocolViolation),
            None => unreached(),
        }
    }

    /// Sets the number of slots of one strip of the open layout.
    ///
    /// Refused as a violation of the protocol once the layout is closed;
    /// otherwise refused as out of range when there is no strip
    /// `strip_idx`.
    pub fn init_layout_set_strip_len(&mut self, strip_idx: usize, length: usize) -> (r: Result<
        (),
        RuntimeError,
    >)
        ensures
            r == (if old(self)@.is_built() {
                Err::<(), RuntimeError>(RuntimeError::ProtocolViolation)
            } else if strip_idx >= old(self)@.layout().len() {
                Err::<(), RuntimeError>(RuntimeError::IndexOutOfRange)
            } else {
                Ok::<(), RuntimeError>(())
            }),
            old(self)@.admits_params(final(self)@.params()),
            final(self)@ == old(self)@.started(final(self)@.params()).with_strip_len(
                strip_idx as int,
                length as nat,
            ),
            r == old(self)@.outcome(
                Call::SetStripLen { strip_idx: strip_idx as int, length: length as nat },
            ),
    {
        self.init();
        match &mut self.0 {
            Some(PixelAnimationBuildStage::Building { builder, .. }) => builder.set_strip_len(
                strip_idx,
                length,
            ),
            Some(PixelAnimationBuildStage::Built { .. }) => Err(RuntimeError::ProtocolViolation),
            None => unreached(),
        }
    }

    /// Sets the location of one pixel of the open layout to the
    /// coordinates whose bits are given.
    ///
    /// Refused as a violation of the protocol once the layout is closed;
    /// otherwise refused as out of range when there is no strip
    /// `strip_idx` or that strip has no slot `pixel_idx`.
    pub fn init_layout_set_pixel_loc(
        &mut self,
        strip_idx: usize,
        pixel_idx: usize,
        x_bits: u32,
        y_bits: u32,
    ) -> (r: Result<(), RuntimeError>)
        ensures
            r == (if old(self)@.is_built() {
                Err::<(), RuntimeError>(RuntimeError::ProtocolViolation)
            } else if strip_idx >= old(self)@.layout().len() || pixel_idx >= old(
                self,
            )@.layout()[strip_idx as int].len() {
                Err::<(), RuntimeError>(RuntimeError::IndexOutOfRange)
            } else {
                Ok::<(), RuntimeError>(())
            }),
            old(self)@.admits_params(final(self)@.params()),
            final(self)@ == old(self)@.started(final(self)@.params()).with_pixel_loc(
                strip_idx as int,
                pixel_idx as int,
                PixelLocation { x_bits, y_bits },
            ),
            r == old(self)@.outcome(
                Call::SetPixelLoc {
                    strip_idx: strip_idx as int,
                    pixel_idx: pixel_idx as int,
                    loc: PixelLocation { x_bits, y_bits },
                },
            ),
    {
        self.init();
        match &mut self.0 {
            Some(PixelAnimationBuildStage::Building { builder, .. }) => builder.set_pixel_loc(
                strip_idx,
                pixel_idx,
                x_bits,
                y_bits,
            ),
            Some(PixelAnimationBuildStage::Built { .. }) => Err(RuntimeError::ProtocolViolation),
            None => unreached(),
        }
    }

    /// Closes the layout. The animation is built for the layout and the
    /// record as they are now, and the frame starts with the layout's
    /// shape and every slot zero, so the frame has as many strips as the
    /// layout had and each strip as many slots.
    ///
    /// Refused as a violation of the protocol when the layout is closed
    /// already.
    pub fn init_layout_done(&mut self) -> (r: Result<(), RuntimeError>)
        ensures
            r == (if old(self)@.is_built() {
                Err::<(), RuntimeError>(RuntimeError::ProtocolViolation)
            } else {
                Ok::<(), RuntimeError>(())
            }),
            old(self)@.admits_params(final(self)@.params()),
            final(self)@ == old(self)@.started(final(self)@.params()).finalized(),
            r == old(self)@.outcome(Call::LayoutDone),
            final(self)@.is_built(),
            !old(self)@.is_built() ==> shape_of(final(self)@.pixels()) == shape_of(
                old(self)@.layout(),
            ),
    {
        self.init();
        match self.0.take() {
            Some(PixelAnimationBuildStage::Building { params, builder }) => {
                let (animation, pixels) = builder.build(&params);
                self.0 = Some(PixelAnimationBuildStage::Built { params, animation, pixels });
                Ok(())
            },
            Some(stage) => {
                self.0 = Some(stage);
                Err(RuntimeError::ProtocolViolation)
            },
            None => unreached(),
        }
    }

    /// Makes one frame: the animation takes one step and then paints the
    /// frame, both with the record as it is at this call. The frame keeps
    /// its shape.
    ///
    /// Refused as a violation of the protocol while the layout is not
    /// closed.
    pub fn tick(&mut self) -> (r: Result<(), RuntimeError>)
        ensures
            r == (if old(self)@.is_built() {
                Ok::<(), RuntimeError>(())
            } else {
                Err::<(), RuntimeError>(RuntimeError::ProtocolViolation)
            }),
            final(self)@ == old(self)@.ticked(),
            r == old(self)@.outcome(Call::Tick),
            shape_of(final(self)@.pixels()) == shape_of(old(self)@.pixels()),
    {
        match &mut self.0 {
            Some(PixelAnimationBuildStage::Built { params, animation, pixels }) => {
                let ghost before = strips_of(*pixels);
                animation.tick(params);
                animation.render(params, pixels);
                assert(strips_of(*pixels) =~~= rendered_frame(
                    *animation,
                    *params,
                    shape_of(before),
                ));
                Ok(())
            },
            _ => Err(RuntimeError::ProtocolViolation),
        }
    }

    /// The strip `strip_idx` of the frame, as it was last painted.
    ///
    /// Refused as a violation of the protocol while the layout is not
    /// closed; otherwise refused as out of range when the frame has no
    /// strip `strip_idx`.
    pub fn pixels(&mut self, strip_idx: usize) -> (r: Result<&[u32], RuntimeError>)
        ensures
            *final(self) == *old(self),
            !old(self)@.is_built() ==> r == Err::<&[u32], RuntimeError>(
                RuntimeError::ProtocolViolation,
            ),
            old(self)@.is_built() && strip_idx >= old(self)@.pixels().len() ==> r == Err::<
                &[u32],
                RuntimeError,
            >(RuntimeError::IndexOutOfRange),
            old(self)@.is_built() && strip_idx < old(self)@.pixels().len() ==> r is Ok
                && r->Ok_0@ == old(self)@.pixels()[strip_idx as int],
    {
        match &self.0 {
            Some(PixelAnimationBuildStage::Built { pixels, .. }) => {
                if strip_idx < pixels.len() {
                    Ok(pixels[strip_idx].as_slice())
                } else {
                    Err(RuntimeError::IndexOutOfRange)
                }
            },
            _ => Err(RuntimeError::ProtocolViolation),
        }
    }

    /// The colour of one pixel of the frame, as it was last painted.
    ///
    /// Refused as a violation of the protocol while the layout is not
    /// closed; otherwise refused as out of range when the frame has no
    /// strip `strip_idx` or that strip has no slot `pixel_idx`.
    pub fn get_pixel_val(&self, strip_idx: usize, pixel_idx: usize) -> (r: Result<u32, RuntimeError>)
        ensures
            r == (if !self@.is_built() {
                Err::<u32, RuntimeError>(RuntimeError::ProtocolViolation)
            } else if strip_idx >= self@.pixels().len() || pixel_idx
                >= self@.pixels()[strip_idx as int].len() {
                Err::<u32, RuntimeError>(RuntimeError::IndexOutOfRange)
            } else {
                Ok::<u32, RuntimeError>(self@.pixels()[strip_idx as int][pixel_idx as int])
            }),
    {
        match &self.0 {
            Some(PixelAnimationBuildStage::Built { pixels, .. }) => {
                if strip_idx < pixels.len() && pixel_idx < pixels[strip_idx].len() {
                    Ok(pixels[strip_idx][pixel_idx])
                } else {
                    Err(RuntimeError::IndexOutOfRange)
                }
            },
            _ => Err(RuntimeError::ProtocolViolation),
        }
    }

    /// The live record of parameters, to read and to write, in either
    /// phase. A fresh runtime is made ready first, so the record read
    /// before anything was written is a record of defaults. What the host
    /// writes is the record from then on, and nothing else changes.
    pub fn params_mut(&mut self) -> (params: &mut A::Params)
        ensures
            old(self)@.admits_params(*params),
            final(self)@ == old(self)@.started(*params).with_params(*final(params)),
    {
        self.init();
        match &mut self.0 {
            Some(PixelAnimationBuildStage::Building { params, .. }) => params,
            Some(PixelAnimationBuildStage::Built { params, .. }) => params,
            None => unreached(),
        }
    }
}

} // verus!
