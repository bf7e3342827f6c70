//! The calls that a host can make, as values, and what holds of every
//! sequence of them.

use vstd::prelude::*;
use crate::animation::{rendered_frame, PixelAnimation};
use crate::error::RuntimeError;
use crate::location::PixelLocation;
use crate::state::RuntimeState;
use crate::strips::{shape_of, zero_frame};

verus! {

/// One call that changes the runtime.
pub enum Call<P> {
    /// Set the number of strips.
    SetNumStrips { n_strips: nat },
    /// Set the number of slots of one strip.
    SetStripLen { strip_idx: int, length: nat },
    /// Set the location of one pixel.
    SetPixelLoc { strip_idx: int, pixel_idx: int, loc: PixelLocation },
    /// Close the layout.
    LayoutDone,
    /// Make one frame.
    Tick,
    /// Write the record of parameters.
    SetParams { params: P },
}

impl<P> Call<P> {
    /// The call changes the layout.
    pub open spec fn is_layout_call(self) -> bool {
        self is SetNumStrips || self is SetStripLen || self is SetPixelLoc
    }
}

impl<A: PixelAnimation> RuntimeState<A> {
    /// What the runtime answers to `call` in this state. The phase is
    /// looked at first, then the strip, then the pixel.
    pub open spec fn outcome(self, call: Call<A::Params>) -> Result<(), RuntimeError> {
        match call {
            Call::SetNumStrips { .. } | Call::LayoutDone => if self.is_built() {
                Err(RuntimeError::ProtocolViolation)
            } else {
                Ok(())
            },
            Call::SetStripLen { strip_idx, .. } => if self.is_built() {
                Err(RuntimeError::ProtocolViolation)
            } else if !(0 <= strip_idx < self.layout().len()) {
                Err(RuntimeError::IndexOutOfRange)
            } else {
                Ok(())
            },
            Call::SetPixelLoc { strip_idx, pixel_idx, .. } => if self.is_built() {
                Err(RuntimeError::ProtocolViolation)
            } else if !(0 <= strip_idx < self.layout().len()) || !(0 <= pixel_idx
                < self.layout()[strip_idx].len()) {
                Err(RuntimeError::IndexOutOfRange)
            } else {
                Ok(())
            },
            Call::Tick => if self.is_built() {
                Ok(())
            } else {
                Err(RuntimeError::ProtocolViolation)
            },
            Call::SetParams { .. } => Ok(()),
        }
    }

    /// The state that `call` leaves. `defaults` is the record that a fresh
    /// runtime starts with; every call but `Tick` makes a fresh runtime
    /// ready before it does anything else.
    pub open spec fn after(self, call: Call<A::Params>, defaults: A::Params) -> Self {
        match call {
            Call::SetNumStrips { n_strips } => self.started(defaults).with_num_strips(n_strips),
            Call::SetStripLen { strip_idx, length } => self.started(defaults).with_strip_len(
                strip_idx,
                length,
            ),
            Call::SetPixelLoc { strip_idx, pixel_idx, loc } => self.started(
                defaults,
            ).with_pixel_loc(strip_idx, pixel_idx, loc),
            Call::LayoutDone => self.started(defaults).finalized(),
            Call::Tick => self.ticked(),
            Call::SetParams { params } => self.started(defaults).with_params(params),
        }
    }

    /// The state that a sequence of calls leaves, made one after the other.
    pub open spec fn after_all(self, calls: Seq<Call<A::Params>>, defaults: A::Params) -> Self
        decreases calls.len(),
    {
        if calls.len() == 0 {
            self
        } else {
            self.after_all(calls.drop_last(), defaults).after(calls.last(), defaults)
        }
    }
}

/// Whatever calls came before, closing an open layout gives a frame with
/// as many strips as the layout has at that moment, each with as many
/// slots as the strip of the layout, and every slot zero.
pub proof fn lemma_frame_has_shape_of_layout<A: PixelAnimation>(
    start: RuntimeState<A>,
    calls: Seq<Call<A::Params>>,
    defaults: A::Params,
)
    requires
        !start.after_all(calls, defaults).is_built(),
    ensures
        ({
            let open = start.after_all(calls, defaults);
            let closed = open.after(Call::LayoutDone, defaults);
            &&& open.outcome(Call::LayoutDone) == Ok::<(), RuntimeError>(())
            &&& closed.is_built()
            &&& shape_of(closed.pixels()) == shape_of(open.layout())
            &&& closed.pixels() == zero_frame(shape_of(open.layout()))
        }),
{
    let open = start.after_all(calls, defaults);
    let closed = open.after(Call::LayoutDone, defaults);
    assert(shape_of(closed.pixels()) =~= shape_of(open.layout()));
}

/// Once the layout is closed it stays closed, and the frame keeps its
/// shape, whatever calls follow. So every later call that would change the
/// layout or close it again is refused as a violation of the protocol.
pub proof fn lemma_closed_for_good<A: PixelAnimation>(
    closed: RuntimeState<A>,
    calls: Seq<Call<A::Params>>,
    defaults: A::Params,
)
    requires
        closed.is_built(),
    ensures
        closed.after_all(calls, defaults).is_built(),
        shape_of(closed.after_all(calls, defaults).pixels()) == shape_of(closed.pixels()),
        forall|call: Call<A::Params>|
            call.is_layout_call() || call is LayoutDone ==> #[trigger] closed.after_all(
                calls,
                defaults,
            ).outcome(call) == Err::<(), RuntimeError>(RuntimeError::ProtocolViolation),
    decreases calls.len(),
{
    if calls.len() > 0 {
        lemma_closed_for_good(closed, calls.drop_last(), defaults);
        let before = closed.after_all(calls.drop_last(), defaults);
        let after = before.after(calls.last(), defaults);
        assert(shape_of(after.pixels()) =~= shape_of(before.pixels()));
    }
}

/// The frame changes only when a frame is made: after calls among which
/// none is `Tick`, a runtime whose layout is closed shows the frame it
/// showed before, and its animation stands where it stood.
pub proof fn lemma_frame_stays_until_tick<A: PixelAnimation>(
    closed: RuntimeState<A>,
    calls: Seq<Call<A::Params>>,
    defaults: A::Params,
)
    requires
        closed.is_built(),
        forall|i: int| 0 <= i < calls.len() ==> !(#[trigger] calls[i] is Tick),
    ensures
        closed.after_all(calls, defaults).is_built(),
        closed.after_all(calls, defaults).pixels() == closed.pixels(),
        closed.after_all(calls, defaults)->animation == closed->animation,
    decreases calls.len(),
{
    if calls.len() > 0 {
        lemma_frame_stays_until_tick(closed, calls.drop_last(), defaults);
        assert(!(calls[calls.len() - 1] is Tick));
    }
}

/// Until the layout is closed no frame can be made: after calls among
/// which none closes the layout, a runtime whose layout was open or that
/// was fresh refuses `Tick` as a violation of the protocol.
pub proof fn lemma_no_frame_before_closing<A: PixelAnimation>(
    start: RuntimeState<A>,
    calls: Seq<Call<A::Params>>,
    defaults: A::Params,
)
    requires
        !start.is_built(),
        forall|i: int| 0 <= i < calls.len() ==> !(#[trigger] calls[i] is LayoutDone),
    ensures
        !start.after_all(calls, defaults).is_built(),
        start.after_all(calls, defaults).outcome(Call::Tick) == Err::<(), RuntimeError>(
            RuntimeError::ProtocolViolation,
        ),
    decreases calls.len(),
{
    if calls.len() > 0 {
        lemma_no_frame_before_closing(start, calls.drop_last(), defaults);
        assert(!(calls[calls.len() - 1] is LayoutDone));
    }
}

/// The record changes only when it is written: after calls among which
/// none writes it, the record is the one from before, and for a runtime
/// that was fresh it is the record of defaults.
pub proof fn lemma_params_stay_until_written<A: PixelAnimation>(
    start: RuntimeState<A>,
    calls: Seq<Call<A::Params>>,
    defaults: A::Params,
)
    requires
        forall|i: int| 0 <= i < calls.len() ==> !(#[trigger] calls[i] is SetParams),
    ensures
        start.after_all(calls, defaults).started(defaults).params() == start.started(
            defaults,
        ).params(),
    decreases calls.len(),
{
    if calls.len() > 0 {
        lemma_params_stay_until_written(start, calls.drop_last(), defaults);
        assert(!(calls[calls.len() - 1] is SetParams));
    }
}

/// The runtime hands the record back as the host wrote it. So when a write
/// to the record leaves alone what some reading of the record looks at, as
/// a write to one field leaves every other field alone, that reading gives
/// the same through the runtime after the write as before it.
pub proof fn lemma_write_leaves_what_it_does_not_touch<A: PixelAnimation, T>(
    state: RuntimeState<A>,
    write: spec_fn(A::Params) -> A::Params,
    read: spec_fn(A::Params) -> T,
    defaults: A::Params,
)
    requires
        forall|params: A::Params| #[trigger] read(write(params)) == read(params),
    ensures
        ({
            let before = state.started(defaults).params();
            let after = state.after(Call::SetParams { params: write(before) }, defaults);
            read(after.params()) == read(before)
        }),
{
}

/// A record written while the layout is open is the one that the
/// animation is built with and the one that its first step and its first
/// frame see.
pub proof fn lemma_params_written_before_closing_reach_first_frame<A: PixelAnimation>(
    open: RuntimeState<A>,
    params: A::Params,
    defaults: A::Params,
)
    requires
        !open.is_built(),
    ensures
        ({
            let layout = open.layout();
            let first = A::spec_new(&params, layout).spec_tick(&params);
            open.after(Call::SetParams { params }, defaults).after(Call::LayoutDone, defaults).after(
                Call::Tick,
                defaults,
            ) == (RuntimeState::<A>::Built {
                params,
                animation: first,
                pixels: rendered_frame(first, params, shape_of(layout)),
            })
        }),
{
    let layout = open.layout();
    assert(shape_of(zero_frame(shape_of(layout))) =~= shape_of(layout));
}

/// A record written between two frames is the one that the next step and
/// the next frame see.
pub proof fn lemma_params_written_between_frames_reach_next_frame<A: PixelAnimation>(
    closed: RuntimeState<A>,
    params: A::Params,
    defaults: A::Params,
)
    requires
        closed.is_built(),
    ensures
        ({
            let next = closed->animation.spec_tick(&params);
            closed.after(Call::SetParams { params }, defaults).after(Call::Tick, defaults) == (
            RuntimeState::<A>::Built {
                params,
                animation: next,
                pixels: rendered_frame(next, params, shape_of(closed.pixels())),
            })
        }),
{
}

/// Two runtimes in the same state that start from the same record of
/// defaults and are given the same calls answer each call alike and are in
/// the same state after each of them; so they show the same frame after
/// every `Tick`.
pub proof fn lemma_same_calls_same_frames<A: PixelAnimation>(
    first: RuntimeState<A>,
    second: RuntimeState<A>,
    calls: Seq<Call<A::Params>>,
    defaults: A::Params,
)
    requires
        first == second,
    ensures
        forall|n: int|
            0 <= n <= calls.len() ==> #[trigger] first.after_all(calls.take(n), defaults)
                == second.after_all(calls.take(n), defaults),
        forall|n: int|
            0 <= n <= calls.len() ==> #[trigger] first.after_all(calls.take(n), defaults).pixels()
                == second.after_all(calls.take(n), defaults).pixels(),
        forall|n: int|
            0 <= n < calls.len() ==> #[trigger] first.after_all(calls.take(n), defaults).outcome(
                calls[n],
            ) == second.after_all(calls.take(n), defaults).outcome(calls[n]),
{
}

} // verus!
