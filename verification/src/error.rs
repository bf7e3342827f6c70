//! The two ways in which a call on the runtime can fail.

use vstd::prelude::*;

verus! {

/// Why a call was refused. A refused call changes nothing that the host
/// can observe.
#[derive(Clone, Copy, Debug, PartialEq, Eq, Structural)]
pub enum RuntimeError {
    /// The call belongs to the other phase: a layout call or a second
    /// closing of the layout after the layout was closed, or a request
    /// for a frame before.
    ProtocolViolation,
    /// A strip or pixel index lies outside the shape as it is now.
    IndexOutOfRange,
}

} // verus!
