//! The pointer events the interaction state machines react to.

use vstd::prelude::*;

verus! {

/// A pointer input event, as delivered by the host toolkit. The pointer's
/// position at the time of the event travels beside it as a [`crate::geometry::Point`].
#[derive(Clone, Copy, Debug, PartialEq, Eq, Structural)]
pub enum Event {
    /// The primary pointer button was pressed.
    PointerDown,
    /// The pointer moved to a new position.
    PointerMove,
    /// The primary pointer button was released.
    PointerUp,
    /// Any other input event; the state machines ignore it.
    Other,
}

} // verus!
