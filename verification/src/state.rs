//! The runtime as a state machine: what it holds in each phase, and what
//! each call makes of it.

use vstd::prelude::*;
use crate::animation::{rendered_frame, PixelAnimation};
use crate::location::PixelLocation;
use crate::strips::{resized_layout, resized_strip, shape_of, zero_frame};

verus! {

/// What a runtime holds, with vectors read as sequences.
pub enum RuntimeState<A: PixelAnimation> {
    /// Nothing has touched the runtime yet. The first call that needs the
    /// parameter record or the layout makes this `Building`, with a record
    /// of defaults and no strips.
    Fresh,
    /// The layout is open.
    Building { params: A::Params, layout: Seq<Seq<PixelLocation>> },
    /// The layout is closed: the animation runs, and `pixels` is its frame.
    Built { params: A::Params, animation: A, pixels: Seq<Seq<u32>> },
}

impl<A: PixelAnimation> RuntimeState<A> {
    /// The layout is closed.
    pub open spec fn is_built(self) -> bool {
        self is Built
    }

    /// The parameter record. A fresh runtime has none yet.
    pub open spec fn params(self) -> A::Params {
        match self {
            RuntimeState::Fresh => arbitrary(),
            RuntimeState::Building { params, .. } => params,
            RuntimeState::Built { params, .. } => params,
        }
    }

    /// The layout while it is open; no strips otherwise.
    pub open spec fn layout(self) -> Seq<Seq<PixelLocation>> {
        match self {
            RuntimeState::Building { layout, .. } => layout,
            _ => Seq::empty(),
        }
    }

    /// The frame once the layout is closed; no strips otherwise.
    pub open spec fn pixels(self) -> Seq<Seq<u32>> {
        match self {
            RuntimeState::Built { pixels, .. } => pixels,
            _ => Seq::empty(),
        }
    }

    /// The state with a fresh runtime made ready: it gets `defaults` for
    /// its record and an open layout without strips. Any other state stays
    /// as it is.
    pub open spec fn started(self, defaults: A::Params) -> Self {
        match self {
            RuntimeState::Fresh => RuntimeState::Building {
                params: defaults,
                layout: Seq::empty(),
            },
            _ => self,
        }
    }

    /// The state with `params` for its record and all else as before.
    pub open spec fn with_params(self, params: A::Params) -> Self {
        match self {
            RuntimeState::Fresh => self,
            RuntimeState::Building { layout, .. } => RuntimeState::Building { params, layout },
            RuntimeState::Built { animation, pixels, .. } => RuntimeState::Built {
                params,
                animation,
                pixels,
            },
        }
    }

    /// The state after the number of strips was set to `n_strips`: an open
    /// layout is resized, a closed one is left alone.
    pub open spec fn with_num_strips(self, n_strips: nat) -> Self {
        match self {
            RuntimeState::Building { params, layout } => RuntimeState::Building {
                params,
                layout: resized_layout(layout, n_strips),
            },
            _ => self,
        }
    }

    /// The state after strip `strip_idx` was set to `length` slots. Nothing
    /// changes unless the layout is open and has that strip.
    pub open spec fn with_strip_len(self, strip_idx: int, length: nat) -> Self {
        match self {
            RuntimeState::Building { params, layout } if 0 <= strip_idx < layout.len() =>
            RuntimeState::Building {
                params,
                layout: layout.update(strip_idx, resized_strip(layout[strip_idx], length)),
            },
            _ => self,
        }
    }

    /// The state after one pixel was given the location `loc`. Nothing
    /// changes unless the layout is open and has that pixel.
    pub open spec fn with_pixel_loc(self, strip_idx: int, pixel_idx: int, loc: PixelLocation) -> Self {
        match self {
            RuntimeState::Building { params, layout } if 0 <= strip_idx < layout.len() && 0
                <= pixel_idx < layout[strip_idx].len() => RuntimeState::Building {
                params,
                layout: layout.update(strip_idx, layout[strip_idx].update(pixel_idx, loc)),
            },
            _ => self,
        }
    }

    /// The state after the layout was closed: the animation is the one
    /// that belongs to the record and the layout of that moment, and the
    /// frame has the layout's shape and is zero throughout. A layout that
    /// is closed already stays as it is.
    pub open spec fn finalized(self) -> Self {
        match self {
            RuntimeState::Building { params, layout } => RuntimeState::Built {
                params,
                animation: A::spec_new(&params, layout),
                pixels: zero_frame(shape_of(layout)),
            },
            _ => self,
        }
    }

    /// The state one frame later: the animation has made one step with the
    /// record as it is now, and has then painted the frame, whose shape
    /// is the same as before. Nothing changes while the layout is open.
    pub open spec fn ticked(self) -> Self {
        match self {
            RuntimeState::Built { params, animation, pixels } => {
                let next = animation.spec_tick(&params);
                RuntimeState::Built {
                    params,
                    animation: next,
                    pixels: rendered_frame(next, params, shape_of(pixels)),
                }
            },
            _ => self,
        }
    }
}

impl<A: PixelAnimation> RuntimeState<A> where A::Params: Default {
    /// `params` can be the record of this runtime: it is the record that
    /// the runtime holds or, while the runtime is fresh, a record of
    /// defaults.
    pub open spec fn admits_params(self, params: A::Params) -> bool {
        match self {
            RuntimeState::Fresh => call_ensures(<A::Params as Default>::default, (), params),
            _ => params == self.params(),
        }
    }
}

} // verus!
