use iced_drag::drag;
use iced_drag::drag::DraggableState;
use iced_drag::drop_zone;
use iced_drag::dropzone::{DropZoneState, Length, OnDrop, Padding, Size};
use iced_drag::event::Event;
use iced_drag::geometry::{Point, Rect};
use iced_drag::{DragAndDrop, Payload};

#[derive(Clone, Copy, Debug, PartialEq, Eq)]
enum Color {
    Red,
}

#[derive(Clone, Copy, Debug, PartialEq, Eq)]
enum Msg {
    Dropped(Color),
    DroppedInB(Color),
    Cleared,
}

const TAG_COLOR: u64 = 1;
const TAG_OTHER: u64 = 2;

type NoPickup = fn(Option<Color>) -> Msg;
type NoDrop = fn(Color) -> Msg;

const DRAG_BOUNDS: Rect = Rect { x: 0, y: 0, width: 100, height: 50 };
const ZONE_BOUNDS: Rect = Rect { x: 200, y: 0, width: 100, height: 50 };

#[test]
fn drop_on_matching_zone_emits_message_and_empties_session() {
    let d = drag::<Color, NoPickup, &str>("item".to_string(), "content")
        .payload(Payload { tag: TAG_COLOR, value: Color::Red });
    let z = drop_zone::<Msg, NoDrop, &str>(TAG_COLOR, "zone").on_drop(|c| Msg::Dropped(c));
    let mut d_state = DraggableState::default();
    let mut z_state = DropZoneState::default();
    let mut session: DragAndDrop<Color> = DragAndDrop::new();

    // Press at the draggable's center, drag the content away towards the
    // zone, release over the zone.
    d.update(&mut d_state, &mut session, &Event::PointerDown, Point { x: 50, y: 25 }, DRAG_BOUNDS, false);
    let first = Point { x: 75, y: 25 };
    let moved = d.update(&mut d_state, &mut session, &Event::PointerMove, first, DRAG_BOUNDS, false);
    z.update(&mut z_state, &mut session, &Event::PointerMove, first, ZONE_BOUNDS, moved.captured);
    assert!(d_state.dragging);
    assert!(session.has_some());

    let away = Point { x: 150, y: 25 };
    let moved2 = d.update(&mut d_state, &mut session, &Event::PointerMove, away, DRAG_BOUNDS, false);
    z.update(&mut z_state, &mut session, &Event::PointerMove, away, ZONE_BOUNDS, moved2.captured);
    assert!(d_state.dragging);

    let drop_at = Point { x: 250, y: 25 };
    let up_drag = d.update(&mut d_state, &mut session, &Event::PointerUp, drop_at, DRAG_BOUNDS, false);
    assert!(up_drag.published.is_none());
    let up_zone = z.update(&mut z_state, &mut session, &Event::PointerUp, drop_at, ZONE_BOUNDS, up_drag.captured);

    assert_eq!(up_zone.published, Some(Msg::Dropped(Color::Red)));
    assert!(up_zone.captured);
    assert!(!session.has_some());
    assert!(!z_state.dragging_on);
}

#[test]
fn release_outside_any_zone_leaves_payload_stale() {
    let d = drag::<Color, NoPickup, &str>("item".to_string(), "content")
        .payload(Payload { tag: TAG_COLOR, value: Color::Red });
    let z = drop_zone::<Msg, NoDrop, &str>(TAG_COLOR, "zone").on_drop(|c| Msg::Dropped(c));
    let mut d_state = DraggableState::default();
    let mut z_state = DropZoneState::default();
    let mut session: DragAndDrop<Color> = DragAndDrop::new();

    d.update(&mut d_state, &mut session, &Event::PointerDown, Point { x: 50, y: 25 }, DRAG_BOUNDS, false);
    d.update(&mut d_state, &mut session, &Event::PointerMove, Point { x: 75, y: 25 }, DRAG_BOUNDS, false);

    // Release far away from the zone: no message, and the payload stays in
    // the session, silently available to the next zone that looks.
    let drop_at = Point { x: 900, y: 900 };
    let up_drag = d.update(&mut d_state, &mut session, &Event::PointerUp, drop_at, DRAG_BOUNDS, false);
    let up_zone = z.update(&mut z_state, &mut session, &Event::PointerUp, drop_at, ZONE_BOUNDS, up_drag.captured);

    assert_eq!(up_zone.published, None);
    assert!(!up_zone.captured);
    assert!(!d_state.dragging);
    assert!(session.has_some());
}

#[test]
fn first_zone_in_declaration_order_wins_overlap() {
    let a = drop_zone::<Msg, NoDrop, &str>(TAG_COLOR, "a").on_drop(|c| Msg::Dropped(c));
    let b = drop_zone::<Msg, NoDrop, &str>(TAG_COLOR, "b").on_drop(|c| Msg::DroppedInB(c));
    let mut a_state = DropZoneState::default();
    let mut b_state = DropZoneState::default();
    let mut session: DragAndDrop<Color> = DragAndDrop::new();
    session.set_to(Payload { tag: TAG_COLOR, value: Color::Red });

    // Both zones cover the drop point; the host dispatches in declaration
    // order and stops once the event is captured.
    let bounds_a = Rect { x: 0, y: 0, width: 100, height: 100 };
    let bounds_b = Rect { x: 50, y: 0, width: 100, height: 100 };
    let drop_at = Point { x: 75, y: 50 };

    let mut messages: Vec<Msg> = Vec::new();
    let ua = a.update(&mut a_state, &mut session, &Event::PointerUp, drop_at, bounds_a, false);
    if let Some(m) = ua.published {
        messages.push(m);
    }
    if !ua.captured {
        let ub = b.update(&mut b_state, &mut session, &Event::PointerUp, drop_at, bounds_b, ua.captured);
        if let Some(m) = ub.published {
            messages.push(m);
        }
    }

    assert_eq!(messages, vec![Msg::Dropped(Color::Red)]);
    assert!(!session.has_some());
}

#[test]
fn mismatched_payload_is_consumed_without_message() {
    let z = drop_zone::<Msg, NoDrop, &str>(TAG_COLOR, "zone").on_drop(|c| Msg::Dropped(c));
    let mut z_state = DropZoneState::default();
    let mut session: DragAndDrop<Color> = DragAndDrop::new();
    session.set_to(Payload { tag: TAG_OTHER, value: Color::Red });

    let up = z.update(&mut z_state, &mut session, &Event::PointerUp, Point { x: 250, y: 25 }, ZONE_BOUNDS, false);
    assert_eq!(up.published, None);
    assert!(!up.captured);
    // The failed claim still consumed the payload.
    assert!(!session.has_some());
}

#[test]
fn release_on_empty_session_is_a_no_op() {
    let z = drop_zone::<Msg, NoDrop, &str>(TAG_COLOR, "zone").on_drop(|c| Msg::Dropped(c));
    let mut z_state = DropZoneState::default();
    let mut session: DragAndDrop<Color> = DragAndDrop::new();

    let up = z.update(&mut z_state, &mut session, &Event::PointerUp, Point { x: 250, y: 25 }, ZONE_BOUNDS, false);
    assert_eq!(up.published, None);
    assert!(!up.captured);
    assert!(!session.has_some());
}

#[test]
fn zone_without_handler_passes_the_event_through() {
    let z = drop_zone::<Msg, NoDrop, &str>(TAG_COLOR, "zone");
    let mut z_state = DropZoneState::default();
    let mut session: DragAndDrop<Color> = DragAndDrop::new();
    session.set_to(Payload { tag: TAG_COLOR, value: Color::Red });

    let up = z.update(&mut z_state, &mut session, &Event::PointerUp, Point { x: 250, y: 25 }, ZONE_BOUNDS, false);
    assert_eq!(up.published, None);
    assert!(!up.captured);
    // No handler means no claim attempt: the payload is left in place.
    assert!(session.has_some());
}

#[test]
fn child_capture_blocks_the_claim_on_release() {
    let z = drop_zone::<Msg, NoDrop, &str>(TAG_COLOR, "zone").on_drop(|c| Msg::Dropped(c));
    let mut z_state = DropZoneState::default();
    let mut session: DragAndDrop<Color> = DragAndDrop::new();
    session.set_to(Payload { tag: TAG_COLOR, value: Color::Red });

    let up = z.update(&mut z_state, &mut session, &Event::PointerUp, Point { x: 250, y: 25 }, ZONE_BOUNDS, true);
    assert_eq!(up.published, None);
    assert!(!up.captured);
    assert!(session.has_some());
    // The hover flag is still cleared: the drag interaction ends on release.
    assert!(!z_state.dragging_on);
}

#[test]
fn hover_flag_follows_pointer_and_session() {
    let z = drop_zone::<Msg, NoDrop, &str>(TAG_COLOR, "zone").on_drop(|c| Msg::Dropped(c));
    let mut z_state = DropZoneState::default();
    let mut session: DragAndDrop<Color> = DragAndDrop::new();

    // Pointer over the zone but nothing in flight: no hover feedback.
    z.update(&mut z_state, &mut session, &Event::PointerMove, Point { x: 250, y: 25 }, ZONE_BOUNDS, false);
    assert!(!z_state.dragging_on);

    session.set_to(Payload { tag: TAG_COLOR, value: Color::Red });
    z.update(&mut z_state, &mut session, &Event::PointerMove, Point { x: 250, y: 25 }, ZONE_BOUNDS, false);
    assert!(z_state.dragging_on);

    // Pointer leaves the bounds: the feedback goes away.
    z.update(&mut z_state, &mut session, &Event::PointerMove, Point { x: 0, y: 25 }, ZONE_BOUNDS, false);
    assert!(!z_state.dragging_on);
}

#[test]
fn direct_on_drop_publishes_the_fixed_message() {
    let on_drop: OnDrop<Msg, NoDrop> = OnDrop::Direct(Msg::Cleared);
    assert_eq!(on_drop.get(Color::Red), Msg::Cleared);

    let z = drop_zone::<Msg, NoDrop, &str>(TAG_COLOR, "zone");
    let z = iced_drag::dropzone::DropZone { on_drop: Some(OnDrop::Direct(Msg::Cleared)), ..z };
    let mut z_state = DropZoneState::default();
    let mut session: DragAndDrop<Color> = DragAndDrop::new();
    session.set_to(Payload { tag: TAG_COLOR, value: Color::Red });

    let up = z.update(&mut z_state, &mut session, &Event::PointerUp, Point { x: 250, y: 25 }, ZONE_BOUNDS, false);
    assert_eq!(up.published, Some(Msg::Cleared));
    assert!(up.captured);
}

#[test]
fn sizing_is_explicit_and_independent_of_content() {
    let z = drop_zone::<Msg, NoDrop, &str>(TAG_COLOR, "zone");
    assert_eq!(z.size(), Size { width: Length::Shrink, height: Length::Shrink });

    let z = z
        .width(Length::Fixed(120))
        .height(Length::Fill)
        .padding(Padding::uniform(8));
    assert_eq!(z.size(), Size { width: Length::Fixed(120), height: Length::Fill });
    assert_eq!(z.padding, Padding { top: 8, right: 8, bottom: 8, left: 8 });
}
