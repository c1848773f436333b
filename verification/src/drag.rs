//! The draggable element: a wrapper around an opaque child that can be picked
//! up with the pointer and then visually follows it.
//!
//! The host toolkit forwards every pointer event to the child first and then
//! calls [`Draggable::update`] with the event, the pointer position, the
//! element's laid-out bounds, and whether the child already captured the
//! event. The returned [`DragUpdate`] tells the host what to do: capture the
//! event, request a redraw, and publish the pickup message, if one was
//! produced.

use vstd::prelude::*;

use crate::event::Event;
use crate::geometry::{centered_on, rect_contains, Point, Rect};
use crate::{DragAndDrop, Payload};

verus! {

/// Per-instance interaction state of a draggable. It persists across
/// recompositions of the view; the element itself is rebuilt each pass.
#[derive(Clone, Debug)]
pub struct DraggableState {
    /// The primary button went down over the element and has not been
    /// released yet.
    pub is_pressed: bool,
    /// The element is being dragged: the press was followed by a pointer
    /// move that started the drag.
    pub dragging: bool,
    /// Position and size of the floating representation while dragging.
    pub overlay_bounds: Rect,
    /// The identity key recorded at the last reconciliation.
    pub prev_id: String,
}

impl Default for DraggableState {
    /// Fresh interaction state: not pressed, not dragging, an empty overlay
    /// rectangle, and no recorded identity.
    fn default() -> (s: Self)
        ensures
            !s.is_pressed,
            !s.dragging,
            s.overlay_bounds == (Rect { x: 0, y: 0, width: 0, height: 0 }),
            s.prev_id@ == Seq::<char>::empty(),
    {
        DraggableState {
            is_pressed: false,
            dragging: false,
            overlay_bounds: Rect { x: 0, y: 0, width: 0, height: 0 },
            prev_id: String::new(),
        }
    }
}

/// An element that can be dragged across the screen.
///
/// `V` is the payload value type, `F` the pickup handler, and `C` the opaque
/// child content; the content is carried for the host and never inspected.
pub struct Draggable<V, F, C> {
    /// Identity key: when it differs from the one recorded in the interaction
    /// state, [`Draggable::diff`] resets that state.
    pub id: String,
    /// The visual content of the draggable, opaque to this crate.
    pub content: C,
    /// Handler producing the message published when a drag begins, handed
    /// the bound payload's value, if any.
    pub on_pickup: Option<F>,
    /// The payload published into the shared session when a drag begins.
    pub payload: Option<Payload<V>>,
}

/// Creates a [`Draggable`] with the given identity key and content, with no
/// payload and no pickup handler bound. An element left this way is legal and
/// simply inert towards the session.
pub fn drag<V, F, C>(id: String, content: C) -> (d: Draggable<V, F, C>)
    ensures
        d.id == id,
        d.content == content,
        d.on_pickup is None,
        d.payload is None,
{
    Draggable { id, content, on_pickup: None, payload: None }
}

impl<V, F, C> Draggable<V, F, C> {
    /// Binds a handler for the message published when the element begins
    /// being dragged.
    pub fn on_pickup<F2>(self, fun: F2) -> (d: Draggable<V, F2, C>)
        ensures
            d.id == self.id,
            d.content == self.content,
            d.on_pickup == Some(fun),
            d.payload == self.payload,
    {
        Draggable { id: self.id, content: self.content, on_pickup: Some(fun), payload: self.payload }
    }

    /// Binds the payload published into the session when a drag begins.
    pub fn payload(self, payload: Payload<V>) -> (d: Draggable<V, F, C>)
        ensures
            d.id == self.id,
            d.content == self.content,
            d.on_pickup == self.on_pickup,
            d.payload == Some(payload),
    {
        Draggable { id: self.id, content: self.content, on_pickup: self.on_pickup, payload: Some(payload) }
    }

    /// The value handed to the pickup handler: the bound payload's value,
    /// if any.
    pub open spec fn bound_value(self) -> Option<V> {
        match self.payload {
            Some(p) => Some(p.value),
            None => None,
        }
    }

    /// Reconciles persistent interaction state with this element: when the
    /// identity key differs from the recorded one the state is reset to fresh
    /// defaults and the new key recorded, so a change of the element's
    /// subject cannot leave stale drag state behind; otherwise the state is
    /// kept as it is.
    pub fn diff(&self, state: &mut DraggableState)
        ensures
            old(state).prev_id@ == self.id@ ==> *final(state) == *old(state),
            old(state).prev_id@ != self.id@ ==> {
                &&& !final(state).is_pressed
                &&& !final(state).dragging
                &&& final(state).overlay_bounds == (Rect { x: 0, y: 0, width: 0, height: 0 })
                &&& final(state).prev_id@ == self.id@
            },
    {
        if !(self.id == state.prev_id) {
            state.is_pressed = false;
            state.dragging = false;
            state.overlay_bounds = Rect { x: 0, y: 0, width: 0, height: 0 };
            state.prev_id = self.id.clone();
        }
    }
}

/// The interaction state after one pointer event. An event the child already
/// captured changes nothing. A press over the bounds records the element's
/// size in the overlay rectangle and arms the element. Every move recenters
/// the overlay on the pointer, and a move while armed — with the pointer over
/// the bounds, or anywhere once dragging — makes the element dragging. A
/// release always clears both flags, wherever the pointer is.
pub open spec fn drag_next(
    s: DraggableState,
    event: Event,
    cursor: Point,
    bounds: Rect,
    child_captured: bool,
) -> DraggableState {
    if child_captured {
        s
    } else {
        match event {
            Event::PointerDown => if rect_contains(bounds, cursor) {
                DraggableState {
                    is_pressed: true,
                    overlay_bounds: Rect {
                        width: bounds.width,
                        height: bounds.height,
                        ..s.overlay_bounds
                    },
                    ..s
                }
            } else {
                s
            },
            Event::PointerMove => {
                let moved = DraggableState {
                    overlay_bounds: centered_on(s.overlay_bounds, cursor),
                    ..s
                };
                if s.is_pressed && (rect_contains(bounds, cursor) || s.dragging) {
                    DraggableState { dragging: true, ..moved }
                } else {
                    moved
                }
            },
            Event::PointerUp => DraggableState { is_pressed: false, dragging: false, ..s },
            Event::Other => s,
        }
    }
}

/// Whether this event is the instant the drag begins: a pointer move, not
/// captured by the child, while pressed and not yet dragging, with the
/// pointer over the bounds.
pub open spec fn drag_begins(
    s: DraggableState,
    event: Event,
    cursor: Point,
    bounds: Rect,
    child_captured: bool,
) -> bool {
    &&& !child_captured
    &&& event is PointerMove
    &&& s.is_pressed
    &&& rect_contains(bounds, cursor) || s.dragging
    &&& !s.dragging
}

/// Whether the draggable captures this event: a press over its bounds, or a
/// move while pressed with the pointer over the bounds or a drag in progress.
pub open spec fn drag_captures(
    s: DraggableState,
    event: Event,
    cursor: Point,
    bounds: Rect,
    child_captured: bool,
) -> bool {
    &&& !child_captured
    &&& match event {
        Event::PointerDown => rect_contains(bounds, cursor),
        Event::PointerMove => s.is_pressed && (rect_contains(bounds, cursor) || s.dragging),
        Event::PointerUp => false,
        Event::Other => false,
    }
}

/// Whether the draggable asks the host for a redraw: on an active move and
/// on every release.
pub open spec fn drag_redraws(
    s: DraggableState,
    event: Event,
    cursor: Point,
    bounds: Rect,
    child_captured: bool,
) -> bool {
    &&& !child_captured
    &&& match event {
        Event::PointerDown => false,
        Event::PointerMove => s.is_pressed && (rect_contains(bounds, cursor) || s.dragging),
        Event::PointerUp => true,
        Event::Other => false,
    }
}

/// The shared slot after one draggable update: at the instant the drag
/// begins, a bound payload is stored, overwriting whatever was there; at any
/// other time — a release included — the slot is left untouched.
pub open spec fn drag_slot_next<V>(
    payload: Option<Payload<V>>,
    s: DraggableState,
    slot: Option<Payload<V>>,
    event: Event,
    cursor: Point,
    bounds: Rect,
    child_captured: bool,
) -> Option<Payload<V>> {
    if drag_begins(s, event, cursor, bounds, child_captured) && payload is Some {
        payload
    } else {
        slot
    }
}

/// What one draggable update asks of the host.
pub struct DragUpdate<M> {
    /// Consume the event: no later element in the same dispatch sees it.
    pub captured: bool,
    /// Request a redraw of the view.
    pub redraw: bool,
    /// The pickup message to publish, produced at the instant the drag
    /// begins when a pickup handler is bound.
    pub published: Option<M>,
}

impl<V: Copy, F, C> Draggable<V, F, C> {
    /// Runs the draggable's own logic for one pointer event, after the child
    /// content had first refusal: `child_captured` says whether the child
    /// consumed the event, and a consumed event changes nothing here. The
    /// state moves as [`drag_next`] describes; at the instant the drag begins
    /// a bound payload is stored into `session` and a bound pickup handler is
    /// applied to the payload's value — or to nothing, when the element
    /// carries none — to produce the published message.
    pub fn update<M>(
        &self,
        state: &mut DraggableState,
        session: &mut DragAndDrop<V>,
        event: &Event,
        cursor: Point,
        bounds: Rect,
        child_captured: bool,
    ) -> (u: DragUpdate<M>) where F: Fn(Option<V>) -> M + Copy
        requires
            self.on_pickup matches Some(f) ==> call_requires(f, (self.bound_value(),)),
        ensures
            *final(state) == drag_next(*old(state), *event, cursor, bounds, child_captured),
            final(session).dragging == drag_slot_next(
                self.payload,
                *old(state),
                old(session).dragging,
                *event,
                cursor,
                bounds,
                child_captured,
            ),
            u.captured == drag_captures(*old(state), *event, cursor, bounds, child_captured),
            u.redraw == drag_redraws(*old(state), *event, cursor, bounds, child_captured),
            (u.published is Some) == (drag_begins(*old(state), *event, cursor, bounds, child_captured)
                && self.on_pickup is Some),
            u.published matches Some(m) ==> (self.on_pickup matches Some(f) && call_ensures(
                f,
                (self.bound_value(),),
                m,
            )),
    {
        if child_captured {
            return DragUpdate { captured: false, redraw: false, published: None };
        }
        match event {
            Event::PointerDown => {
                if bounds.contains(cursor) {
                    state.overlay_bounds.width = bounds.width;
                    state.overlay_bounds.height = bounds.height;
                    state.is_pressed = true;
                    DragUpdate { captured: true, redraw: false, published: None }
                } else {
                    DragUpdate { captured: false, redraw: false, published: None }
                }
            },
            Event::PointerMove => {
                let was_pressed = state.is_pressed;
                let was_dragging = state.dragging;
                state.overlay_bounds = state.overlay_bounds.center_on(cursor);
                if was_pressed && (bounds.contains(cursor) || was_dragging) {
                    let mut published: Option<M> = None;
                    if !was_dragging {
                        state.dragging = true;
                        if let Some(p) = &self.payload {
                            session.set_to(*p);
                        }
                        if let Some(f) = &self.on_pickup {
                            let g = *f;
                            let value: Option<V> = match &self.payload {
                                Some(p) => Some(p.value),
                                None => None,
                            };
                            published = Some(g(value));
                        }
                    }
                    DragUpdate { captured: true, redraw: true, published }
                } else {
                    DragUpdate { captured: false, redraw: false, published: None }
                }
            },
            Event::PointerUp => {
                state.dragging = false;
                state.is_pressed = false;
                DragUpdate { captured: false, redraw: true, published: None }
            },
            Event::Other => DragUpdate { captured: false, redraw: false, published: None },
        }
    }
}

impl DraggableState {
    /// Where the content is shown: in its normal layout position while not
    /// dragging, or floating at the overlay rectangle — unclipped by ancestor
    /// bounds — while dragging.
    pub fn overlay_placement(&self) -> (r: Option<Rect>)
        ensures
            r == if self.dragging {
                Some(self.overlay_bounds)
            } else {
                None::<Rect>
            },
    {
        if self.dragging {
            Some(self.overlay_bounds)
        } else {
            None
        }
    }

    /// Whether the content is drawn in its normal layout position: exactly
    /// while no drag is in progress.
    pub fn draws_in_place(&self) -> (b: bool)
        ensures
            b == !self.dragging,
    {
        !self.dragging
    }
}

/// The draggable's state invariant — a drag can only be in progress while the
/// press that started it is still held — is preserved by every pointer event.
pub proof fn lemma_dragging_implies_pressed_preserved(
    s: DraggableState,
    event: Event,
    cursor: Point,
    bounds: Rect,
    child_captured: bool,
)
    requires
        s.dragging ==> s.is_pressed,
    ensures
        drag_next(s, event, cursor, bounds, child_captured).dragging ==> drag_next(
            s,
            event,
            cursor,
            bounds,
            child_captured,
        ).is_pressed,
{
}

/// A press inside the bounds followed by two moves — the first still over the
/// bounds, the second anywhere — leaves the element dragging, and the shared
/// slot holding exactly the element's bound payload.
pub proof fn lemma_press_move_move_drags<V>(
    pay: Payload<V>,
    s0: DraggableState,
    slot0: Option<Payload<V>>,
    bounds: Rect,
    down_at: Point,
    move1: Point,
    move2: Point,
)
    requires
        !s0.dragging,
        rect_contains(bounds, down_at),
        rect_contains(bounds, move1),
    ensures
        ({
            let s1 = drag_next(s0, Event::PointerDown, down_at, bounds, false);
            let s2 = drag_next(s1, Event::PointerMove, move1, bounds, false);
            let s3 = drag_next(s2, Event::PointerMove, move2, bounds, false);
            let slot1 = drag_slot_next(
                Some(pay), s0, slot0, Event::PointerDown, down_at, bounds, false);
            let slot2 = drag_slot_next(
                Some(pay), s1, slot1, Event::PointerMove, move1, bounds, false);
            let slot3 = drag_slot_next(
                Some(pay), s2, slot2, Event::PointerMove, move2, bounds, false);
            s3.dragging && slot3 == Some(pay)
        }),
{
}

/// A press outside the bounds changes nothing: the state — the pressed flag
/// included — the shared slot, capture and redraw all stay as they were.
pub proof fn lemma_down_outside_is_inert<V>(
    payload: Option<Payload<V>>,
    s0: DraggableState,
    slot0: Option<Payload<V>>,
    bounds: Rect,
    at: Point,
    child_captured: bool,
)
    requires
        !rect_contains(bounds, at),
    ensures
        drag_next(s0, Event::PointerDown, at, bounds, child_captured) == s0,
        drag_slot_next(payload, s0, slot0, Event::PointerDown, at, bounds, child_captured) == slot0,
        !drag_captures(s0, Event::PointerDown, at, bounds, child_captured),
        !drag_redraws(s0, Event::PointerDown, at, bounds, child_captured),
{
}

/// A release the child did not capture always resets both the pressed and the
/// dragging flag, whatever the prior state and wherever the pointer is; the
/// shared slot is left untouched.
pub proof fn lemma_up_always_resets<V>(
    payload: Option<Payload<V>>,
    s0: DraggableState,
    slot0: Option<Payload<V>>,
    bounds: Rect,
    at: Point,
)
    ensures
        !drag_next(s0, Event::PointerUp, at, bounds, false).is_pressed,
        !drag_next(s0, Event::PointerUp, at, bounds, false).dragging,
        drag_slot_next(payload, s0, slot0, Event::PointerUp, at, bounds, false) == slot0,
{
}

} // verus!
