//! A runtime for animations of addressable pixels.
//!
//! A host describes an arrangement of pixels strip by strip, closes the
//! layout, and from then on asks for frames. The runtime in [`runtime`]
//! keeps the two phases apart: a layout can only change before it is closed,
//! and frames exist only after. The animation itself is any type that
//! implements [`PixelAnimation`]; [`Solid`] is the one that comes with the
//! library.
//!
//! Every call is verified against the state machine in [`state`], and
//! [`protocol`] proves what holds of every sequence of calls: the frame
//! has the shape of the layout it was closed with, a closed layout stays
//! closed, and what the host writes into the record of parameters is what
//! the next frame is made with.

pub mod animation;
pub mod builder;
pub mod error;
pub mod location;
pub mod params;
pub mod protocol;
pub mod runtime;
pub mod solid;
pub mod state;
pub mod strips;

pub use animation::PixelAnimation;
pub use builder::PixelAnimationBuilder;
pub use error::RuntimeError;
pub use location::PixelLocation;
pub use params::is_param_type;
pub use runtime::{PixelAnimationBuildStage, PixelAnimationGlobal};
pub use solid::{Solid, SolidParams};
pub use state::RuntimeState;
