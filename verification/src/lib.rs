//! Single-pointer drag-and-drop coordination for a retained-mode GUI toolkit.
//!
//! The crate provides the shared [`DragAndDrop`] session — a single slot that
//! carries at most one in-flight payload from a draggable element to a drop
//! zone — together with the two interaction state machines built on top of it:
//! [`drag::Draggable`] and [`dropzone::DropZone`]. The host toolkit remains
//! responsible for layout, drawing and event routing; it feeds pointer events
//! and element bounds into the state machines and applies the effects they
//! report (event capture, redraw requests, application messages).
//!
//! Payloads are type-erased as a tagged value: a [`Payload`] pairs the value
//! with a numeric type tag, and a drop zone claims the session's payload only
//! when the tag matches the one it expects — a mismatch still consumes the
//! payload, mirroring a failed runtime downcast.

use vstd::prelude::*;

pub mod drag;
pub mod event;
pub mod dropzone;
pub mod geometry;

pub use drag::drag;
pub use dropzone::drop_zone;

verus! {

/// A type-erased payload: a value together with the numeric tag that stands
/// for its runtime type. Two payloads are interchangeable for a drop zone
/// exactly when their tags are equal.
#[derive(Clone, Copy, Debug, PartialEq, Eq)]
pub struct Payload<V> {
    /// Stands for the payload's runtime type.
    pub tag: u64,
    /// The transferred value itself.
    pub value: V,
}

/// The shared, internally mutable state of the drag-and-drop system: a single
/// slot holding at most one in-flight payload. The application owns exactly
/// one session per independent drag context and passes it to every draggable
/// and drop zone update.
#[derive(Debug)]
pub struct DragAndDrop<V> {
    /// The payload being dragged, if any.
    pub dragging: Option<Payload<V>>,
}

/// The slot's content after a payload is stored: the previous content is
/// discarded unconditionally — last writer wins.
pub open spec fn stored_payload<V>(prev: Option<Payload<V>>, to: Payload<V>) -> Option<Payload<V>> {
    Some(to)
}

/// The value a claim with tag `expected` yields from a slot: the held value
/// when a payload is present and its tag matches, nothing otherwise.
pub open spec fn claimed_value<V>(slot: Option<Payload<V>>, expected: u64) -> Option<V> {
    match slot {
        Some(p) => if p.tag == expected {
            Some(p.value)
        } else {
            None
        },
        None => None,
    }
}

impl<V> DragAndDrop<V> {
    /// Creates an empty session: nothing is being dragged.
    pub fn new() -> (s: Self)
        ensures
            s.dragging is None,
    {
        DragAndDrop { dragging: None }
    }

    /// Stores `to` as the current payload, discarding any previous payload
    /// regardless of its tag. Always succeeds.
    pub fn set_to(&mut self, to: Payload<V>)
        ensures
            final(self).dragging == stored_payload(old(self).dragging, to),
    {
        self.dragging = Some(to);
    }

    /// Clears the payload, setting it to nothing. Idempotent.
    pub fn clear(&mut self)
        ensures
            final(self).dragging is None,
    {
        self.dragging = None;
    }

    /// Checks whether something is being dragged, regardless of its tag.
    pub fn has_some(&self) -> (r: bool)
        ensures
            r == (self.dragging is Some),
    {
        self.dragging.is_some()
    }

    /// Removes and returns the payload's value if one is present and its tag
    /// matches `expected`. A payload of a different tag is still removed —
    /// a failed match consumes the payload — and nothing is returned. On an
    /// empty session this is a no-op that returns nothing.
    pub fn take(&mut self, expected: u64) -> (r: Option<V>)
        ensures
            final(self).dragging is None,
            r == claimed_value(old(self).dragging, expected),
    {
        match self.dragging.take() {
            Some(p) => {
                if p.tag == expected {
                    Some(p.value)
                } else {
                    None
                }
            },
            None => None,
        }
    }
}

impl<V> Default for DragAndDrop<V> {
    /// An empty session.
    fn default() -> (s: Self)
        ensures
            s.dragging is None,
    {
        DragAndDrop { dragging: None }
    }
}

/// Storing a payload overwrites unconditionally: after storing `a` and then
/// `b`, a claim with `b`'s tag yields exactly `b`'s value, and a claim with
/// `a`'s tag — when it differs from `b`'s — yields nothing: the first payload
/// is gone.
pub proof fn lemma_store_overwrites<V>(slot: Option<Payload<V>>, a: Payload<V>, b: Payload<V>)
    ensures
        claimed_value(stored_payload(stored_payload(slot, a), b), b.tag) == Some(b.value),
        a.tag != b.tag ==> claimed_value(stored_payload(stored_payload(slot, a), b), a.tag)
            is None,
{
}

} // verus!
