//! The drop zone element: a wrapper around an opaque child that claims the
//! shared session's payload when the pointer is released over it, and tracks
//! a hover-while-dragging flag for visual feedback.
//!
//! As with the draggable, the host forwards every pointer event to the child
//! first and then calls [`DropZone::update`]; the returned [`DropUpdate`]
//! carries the capture decision and the application message to publish, if
//! the drop succeeded.

use vstd::prelude::*;

use crate::claimed_value;
use crate::event::Event;
use crate::geometry::{rect_contains, Point, Rect};
use crate::{DragAndDrop, Payload};

verus! {

/// A sizing policy along one axis, decided by the host's layout pass.
#[derive(Clone, Copy, Debug, PartialEq, Eq, Structural)]
pub enum Length {
    /// Fill the available space.
    Fill,
    /// Fill a weighted portion of the available space.
    FillPortion(u16),
    /// Shrink to the content's size.
    Shrink,
    /// A fixed size in pixels.
    Fixed(u64),
}

/// Inner padding between the zone's footprint and its content, in pixels.
#[derive(Clone, Copy, Debug, PartialEq, Eq, Structural)]
pub struct Padding {
    pub top: u64,
    pub right: u64,
    pub bottom: u64,
    pub left: u64,
}

impl Padding {
    /// Uniform padding on all four sides.
    pub fn uniform(amount: u64) -> (p: Padding)
        ensures
            p == (Padding { top: amount, right: amount, bottom: amount, left: amount }),
    {
        Padding { top: amount, right: amount, bottom: amount, left: amount }
    }
}

/// A sizing policy for both axes.
#[derive(Clone, Copy, Debug, PartialEq, Eq, Structural)]
pub struct Size {
    pub width: Length,
    pub height: Length,
}

/// How a successful drop is turned into an application message: a fixed
/// message, or a handler applied to the claimed payload value.
pub enum OnDrop<M, F> {
    /// Publish this message as it is.
    Direct(M),
    /// Publish the handler's result on the claimed value.
    Closure(F),
}

impl<M: Copy, F> OnDrop<M, F> {
    /// Resolves the message for a claimed payload value: the fixed message,
    /// or the handler applied to the value.
    pub fn get<V>(&self, payload: V) -> (m: M) where F: Fn(V) -> M + Copy
        requires
            *self matches OnDrop::Closure(f) ==> call_requires(f, (payload,)),
        ensures
            match *self {
                OnDrop::Direct(m0) => m == m0,
                OnDrop::Closure(f) => call_ensures(f, (payload,), m),
            },
    {
        match self {
            OnDrop::Direct(message) => *message,
            OnDrop::Closure(f) => {
                let g = *f;
                g(payload)
            },
        }
    }
}

/// Per-instance interaction state of a drop zone.
#[derive(Clone, Copy, Debug, PartialEq, Eq, Structural)]
pub struct DropZoneState {
    /// The pointer is over the zone's bounds while the session holds a
    /// payload — hover feedback for an in-flight drag.
    pub dragging_on: bool,
}

impl Default for DropZoneState {
    /// Fresh interaction state: no drag hovering over the zone.
    fn default() -> (s: Self)
        ensures
            !s.dragging_on,
    {
        DropZoneState { dragging_on: false }
    }
}

/// An element that accepts a dropped payload and turns it into an application
/// message.
///
/// `M` is the message type, `F` the drop handler, and `C` the opaque child
/// content, carried for the host and never inspected.
pub struct DropZone<M, F, C> {
    /// The zone's own layout width, independent of the content.
    pub width: Length,
    /// The zone's own layout height, independent of the content.
    pub height: Length,
    /// Inner padding around the content.
    pub padding: Padding,
    /// The visual content of the zone, opaque to this crate.
    pub content: C,
    /// How a successful drop is turned into a message; a zone without one is
    /// legal and simply inert.
    pub on_drop: Option<OnDrop<M, F>>,
    /// The payload tag this zone expects: a claim succeeds only for a payload
    /// carrying this tag.
    pub expected: u64,
}

/// Creates a [`DropZone`] with the given expected payload tag and content:
/// shrink-to-content sizing, no padding, and no drop handler bound.
pub fn drop_zone<M, F, C>(expected: u64, content: C) -> (z: DropZone<M, F, C>)
    ensures
        z.width == Length::Shrink,
        z.height == Length::Shrink,
        z.padding == (Padding { top: 0, right: 0, bottom: 0, left: 0 }),
        z.content == content,
        z.on_drop is None,
        z.expected == expected,
{
    DropZone {
        width: Length::Shrink,
        height: Length::Shrink,
        padding: Padding { top: 0, right: 0, bottom: 0, left: 0 },
        content,
        on_drop: None,
        expected,
    }
}

impl<M, F, C> DropZone<M, F, C> {
    /// Binds a handler producing the message published when something is
    /// dropped in this zone.
    pub fn on_drop<F2>(self, fun: F2) -> (z: DropZone<M, F2, C>)
        ensures
            z.width == self.width,
            z.height == self.height,
            z.padding == self.padding,
            z.content == self.content,
            z.on_drop == Some(OnDrop::<M, F2>::Closure(fun)),
            z.expected == self.expected,
    {
        DropZone {
            width: self.width,
            height: self.height,
            padding: self.padding,
            content: self.content,
            on_drop: Some(OnDrop::Closure(fun)),
            expected: self.expected,
        }
    }

    /// Sets the zone's own layout width.
    pub fn width(self, width: Length) -> (z: DropZone<M, F, C>)
        ensures
            z == (DropZone { width, ..self }),
    {
        DropZone { width, ..self }
    }

    /// Sets the zone's own layout height.
    pub fn height(self, height: Length) -> (z: DropZone<M, F, C>)
        ensures
            z == (DropZone { height, ..self }),
    {
        DropZone { height, ..self }
    }

    /// Sets the inner padding around the content.
    pub fn padding(self, padding: Padding) -> (z: DropZone<M, F, C>)
        ensures
            z == (DropZone { padding, ..self }),
    {
        DropZone { padding, ..self }
    }

    /// The zone's layout footprint: its own explicit sizing policy,
    /// independent of the child content.
    pub fn size(&self) -> (s: Size)
        ensures
            s == (Size { width: self.width, height: self.height }),
    {
        Size { width: self.width, height: self.height }
    }
}

/// The hover flag after one pointer event: cleared on every release — the
/// drag interaction always ends there — and otherwise recomputed as "the
/// pointer is over the bounds and the session holds a payload".
pub open spec fn zone_hover_next<V>(
    slot: Option<Payload<V>>,
    event: Event,
    cursor: Point,
    bounds: Rect,
) -> bool {
    match event {
        Event::PointerUp => false,
        _ => rect_contains(bounds, cursor) && slot is Some,
    }
}

/// Whether the zone attempts to claim the session on this event: a release
/// the child did not capture, with the pointer over the bounds and a drop
/// handler bound. The attempt consumes the slot whatever its tag.
pub open spec fn zone_attempts(
    has_handler: bool,
    event: Event,
    cursor: Point,
    bounds: Rect,
    child_captured: bool,
) -> bool {
    &&& event is PointerUp
    &&& !child_captured
    &&& rect_contains(bounds, cursor)
    &&& has_handler
}

/// The shared slot after one zone update: emptied by a claim attempt — even
/// when the payload's tag does not match, a failed claim discards it — and
/// untouched otherwise.
pub open spec fn zone_slot_next<V>(
    has_handler: bool,
    slot: Option<Payload<V>>,
    event: Event,
    cursor: Point,
    bounds: Rect,
    child_captured: bool,
) -> Option<Payload<V>> {
    if zone_attempts(has_handler, event, cursor, bounds, child_captured) {
        None
    } else {
        slot
    }
}

/// Whether the drop fires: a claim attempt finds a payload whose tag matches
/// the zone's expected tag. Only then is a message published and the event
/// captured.
pub open spec fn zone_fires<V>(
    has_handler: bool,
    expected: u64,
    slot: Option<Payload<V>>,
    event: Event,
    cursor: Point,
    bounds: Rect,
    child_captured: bool,
) -> bool {
    &&& zone_attempts(has_handler, event, cursor, bounds, child_captured)
    &&& claimed_value(slot, expected) is Some
}

/// What one drop zone update asks of the host.
pub struct DropUpdate<M> {
    /// Consume the event: no later element in the same dispatch sees it.
    pub captured: bool,
    /// The application message to publish for a successful drop.
    pub published: Option<M>,
}

impl<M: Copy, F, C> DropZone<M, F, C> {
    /// Runs the zone's own logic for one pointer event, after the child
    /// content had first refusal. On a release, a claim attempt as
    /// [`zone_attempts`] describes consumes the session's payload; when its
    /// tag matches the expected one, the resolved message is published and
    /// the event captured, and a mismatched payload is silently discarded.
    /// On every other event the hover flag is recomputed, even for events the
    /// child captured.
    pub fn update<V>(
        &self,
        state: &mut DropZoneState,
        session: &mut DragAndDrop<V>,
        event: &Event,
        cursor: Point,
        bounds: Rect,
        child_captured: bool,
    ) -> (u: DropUpdate<M>) where F: Fn(V) -> M + Copy
        requires
            self.on_drop matches Some(OnDrop::Closure(f)) ==> forall|v: V| #[trigger] call_requires(
                f,
                (v,),
            ),
        ensures
            final(state).dragging_on == zone_hover_next(
                old(session).dragging,
                *event,
                cursor,
                bounds,
            ),
            final(session).dragging == zone_slot_next(
                self.on_drop is Some,
                old(session).dragging,
                *event,
                cursor,
                bounds,
                child_captured,
            ),
            u.captured == zone_fires(
                self.on_drop is Some,
                self.expected,
                old(session).dragging,
                *event,
                cursor,
                bounds,
                child_captured,
            ),
            (u.published is Some) == zone_fires(
                self.on_drop is Some,
                self.expected,
                old(session).dragging,
                *event,
                cursor,
                bounds,
                child_captured,
            ),
            u.published matches Some(m) ==> (claimed_value(old(session).dragging, self.expected)
                matches Some(v) && match self.on_drop {
                Some(OnDrop::Direct(m0)) => m == m0,
                Some(OnDrop::Closure(f)) => call_ensures(f, (v,), m),
                None => false,
            }),
    {
        let mut captured = false;
        let mut published: Option<M> = None;
        match event {
            Event::PointerUp => {
                if !child_captured && bounds.contains(cursor) {
                    if let Some(on_drop) = &self.on_drop {
                        if let Some(value) = session.take(self.expected) {
                            published = Some(on_drop.get(value));
                            captured = true;
                        }
                    }
                }
                state.dragging_on = false;
            },
            _ => {
                state.dragging_on = bounds.contains(cursor) && session.has_some();
            },
        }
        DropUpdate { captured, published }
    }
}

} // verus!
