//! Tests for mouse events, the event-type table, coordinates, and the
//! cursor-location sampler.

use auto::event::{EventData, EventType};
use auto::mouse::{self, Button, Coord, EventKind, Location};

fn loc(x: f64, y: f64) -> Location {
    Location { x: Coord { bits: x.to_bits() }, y: Coord { bits: y.to_bits() } }
}

#[test]
fn mouse_event_type_mapping() {
    // Distinct buttons select distinct press types.
    assert_ne!(
        mouse::event_type(Button::Left, EventKind::Down),
        mouse::event_type(Button::Right, EventKind::Down)
    );
    // A plain move selects the shared type for either button.
    assert_eq!(
        mouse::event_type(Button::Left, EventKind::Moved),
        mouse::event_type(Button::Right, EventKind::Moved)
    );
    // The full table.
    assert_eq!(mouse::event_type(Button::Left, EventKind::Down), EventType::LeftMouseDown);
    assert_eq!(mouse::event_type(Button::Left, EventKind::Up), EventType::LeftMouseUp);
    assert_eq!(mouse::event_type(Button::Left, EventKind::Moved), EventType::MouseMoved);
    assert_eq!(mouse::event_type(Button::Left, EventKind::Dragged), EventType::LeftMouseDragged);
    assert_eq!(mouse::event_type(Button::Right, EventKind::Down), EventType::RightMouseDown);
    assert_eq!(mouse::event_type(Button::Right, EventKind::Up), EventType::RightMouseUp);
    assert_eq!(mouse::event_type(Button::Right, EventKind::Moved), EventType::MouseMoved);
    assert_eq!(mouse::event_type(Button::Right, EventKind::Dragged), EventType::RightMouseDragged);
}

#[test]
fn mouse_new_keeps_parameters() {
    let p = loc(10.0, 20.0);
    let e = mouse::Event::new(Button::Left, EventKind::Down, p);
    assert_eq!(e.core.flags, 0);
    assert_eq!(
        e.core.data,
        EventData::Mouse { event_type: EventType::LeftMouseDown, button: Button::Left, location: p }
    );
    assert_eq!(e.location(), p);
}

#[test]
fn mouse_location_round_trip() {
    let mut e = mouse::Event::new(Button::Left, EventKind::Moved, loc(0.0, 0.0));
    let p = loc(123.0, 45.0);
    e.set_location(p);
    let q = e.location();
    assert_eq!(q, p);
    assert_eq!(f64::from_bits(q.x.bits), 123.0);
    assert_eq!(f64::from_bits(q.y.bits), 45.0);
}

#[test]
fn set_location_keeps_the_rest() {
    let mut e = mouse::Event::new(Button::Right, EventKind::Dragged, loc(1.0, 2.0));
    e.set_flags(auto::event::FLAG_CONTROL);
    e.set_location(loc(3.0, 4.0));
    assert_eq!(e.flags(), auto::event::FLAG_CONTROL);
    match e.core.data {
        EventData::Mouse { event_type, button, location } => {
            assert_eq!(event_type, EventType::RightMouseDragged);
            assert_eq!(button, Button::Right);
            assert_eq!(location, loc(3.0, 4.0));
        }
        _ => panic!("a mouse event must keep mouse data"),
    }
}

#[test]
fn button_codes() {
    assert_eq!(Button::Left.code(), 0);
    assert_eq!(Button::Right.code(), 1);
}

#[test]
fn coord_finiteness() {
    assert!(!Coord { bits: f64::NAN.to_bits() }.is_finite());
    assert!(!Coord { bits: f64::INFINITY.to_bits() }.is_finite());
    assert!(!Coord { bits: f64::NEG_INFINITY.to_bits() }.is_finite());
    assert!(Coord { bits: 0.0f64.to_bits() }.is_finite());
    assert!(Coord { bits: (-5.5f64).to_bits() }.is_finite());
    assert!(Coord { bits: f64::MAX.to_bits() }.is_finite());
    assert!(Coord { bits: f64::MIN_POSITIVE.to_bits() }.is_finite());
}

#[test]
fn warp_guard() {
    let good = loc(40.0, 10.0);
    assert_eq!(mouse::warp_request(good), Some(good));
    assert_eq!(mouse::warp_request(loc(f64::NAN, 10.0)), None);
    assert_eq!(mouse::warp_request(loc(40.0, f64::INFINITY)), None);
}

#[test]
fn location_iter_restartable() {
    // Two freshly created iterators reflect independent live queries:
    // each advance yields exactly the fresh answer it was given.
    let mut first = mouse::location_iter();
    let mut second = mouse::location_iter();
    let a = loc(1.0, 2.0);
    let b = loc(3.0, 4.0);
    assert_eq!(first.next(a), a);
    assert_eq!(second.next(b), b);
    // No advance caches anything for a later one.
    assert_eq!(first.next(b), b);
    assert_eq!(first.next(a), a);
}
