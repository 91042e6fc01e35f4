//! Mouse automation utilities: typed mouse events, the button-to-event-type
//! table, and the live cursor-location sampler.

use crate::event::{EventData, EventDataModel, EventLocation, EventModel, EventType, PostRequest};
use vstd::prelude::*;

verus! {

/// One coordinate of a screen location, held as the bit pattern of the
/// IEEE 754 double-precision number the host APIs exchange.
///
/// Holding the bits keeps the coordinate exact in specifications while
/// still letting the crate decide, from the exponent field alone, whether
/// the number is finite.
#[derive(Copy, Clone, Debug, Hash, PartialEq, Eq, Structural)]
pub struct Coord {
    /// The bit pattern of the coordinate.
    pub bits: u64,
}

impl Coord {
    /// Whether the bit pattern encodes a finite number. A pattern encodes
    /// an infinity or a NaN exactly when its eleven exponent bits are all
    /// ones.
    pub open spec fn finite(self) -> bool {
        (self.bits >> 52) & 0x7FF != 0x7FF
    }

    /// Returns whether the coordinate is a finite number.
    pub fn is_finite(&self) -> (r: bool)
        ensures
            r == self.finite(),
    {
        (self.bits >> 52) & 0x7FF != 0x7FF
    }
}

/// A location on the screen: an x-y pair of coordinates. Values near 0
/// for x and y are located at the bottom, left-hand side of the screen.
#[derive(Copy, Clone, Debug, Hash, PartialEq, Eq, Structural)]
pub struct Location {
    /// The horizontal coordinate.
    pub x: Coord,
    /// The vertical coordinate.
    pub y: Coord,
}

impl Location {
    /// Whether both coordinates are finite numbers.
    pub open spec fn finite(self) -> bool {
        self.x.finite() && self.y.finite()
    }

    /// Returns whether both coordinates are finite numbers.
    pub fn is_finite(&self) -> (r: bool)
        ensures
            r == self.finite(),
    {
        self.x.is_finite() && self.y.is_finite()
    }
}

/// A button on the mouse.
#[derive(Copy, Clone, Debug, Hash, PartialEq, Eq, Structural)]
pub enum Button {
    /// Left button where the index finger would press.
    Left,
    /// Right button where the middle finger might press.
    Right,
}

impl Button {
    /// The numeric button code the host call takes.
    pub open spec fn code_spec(self) -> u32 {
        match self {
            Button::Left => 0,
            Button::Right => 1,
        }
    }

    /// Returns the numeric button code.
    pub fn code(self) -> (r: u32)
        ensures
            r == self.code_spec(),
    {
        match self {
            Button::Left => 0,
            Button::Right => 1,
        }
    }
}

/// The kind of operation being performed by the mouse event.
#[derive(Copy, Clone, Debug, Hash, PartialEq, Eq, Structural)]
pub enum EventKind {
    /// Mouse pressed down.
    Down,
    /// Mouse released.
    Up,
    /// Mouse moved from one location to another.
    Moved,
    /// Mouse dragged across one location to another.
    Dragged,
}

/// The native event type selected for a button and an interaction kind.
///
/// `Moved` is shared by both buttons: a plain move does not encode which
/// button, if any, is implicated. That is inherited from the native event
/// model, not a defect of this table.
pub open spec fn event_type_spec(button: Button, kind: EventKind) -> EventType {
    match (button, kind) {
        (Button::Left, EventKind::Down) => EventType::LeftMouseDown,
        (Button::Left, EventKind::Up) => EventType::LeftMouseUp,
        (Button::Left, EventKind::Moved) => EventType::MouseMoved,
        (Button::Left, EventKind::Dragged) => EventType::LeftMouseDragged,
        (Button::Right, EventKind::Down) => EventType::RightMouseDown,
        (Button::Right, EventKind::Up) => EventType::RightMouseUp,
        (Button::Right, EventKind::Moved) => EventType::MouseMoved,
        (Button::Right, EventKind::Dragged) => EventType::RightMouseDragged,
    }
}

/// Maps a button and an interaction kind to the native event type.
pub fn event_type(button: Button, kind: EventKind) -> (r: EventType)
    ensures
        r == event_type_spec(button, kind),
{
    match (button, kind) {
        (Button::Left, EventKind::Down) => EventType::LeftMouseDown,
        (Button::Left, EventKind::Up) => EventType::LeftMouseUp,
        (Button::Left, EventKind::Moved) => EventType::MouseMoved,
        (Button::Left, EventKind::Dragged) => EventType::LeftMouseDragged,
        (Button::Right, EventKind::Down) => EventType::RightMouseDown,
        (Button::Right, EventKind::Up) => EventType::RightMouseUp,
        (Button::Right, EventKind::Moved) => EventType::MouseMoved,
        (Button::Right, EventKind::Dragged) => EventType::RightMouseDragged,
    }
}

/// The button-to-event-type table, spelled out: presses, releases and
/// drags of distinct buttons select distinct native event types, while a
/// plain move selects the one shared `MouseMoved` type for either button.
pub proof fn lemma_event_type_mapping()
    ensures
        event_type_spec(Button::Left, EventKind::Down) == EventType::LeftMouseDown,
        event_type_spec(Button::Left, EventKind::Up) == EventType::LeftMouseUp,
        event_type_spec(Button::Left, EventKind::Moved) == EventType::MouseMoved,
        event_type_spec(Button::Left, EventKind::Dragged) == EventType::LeftMouseDragged,
        event_type_spec(Button::Right, EventKind::Down) == EventType::RightMouseDown,
        event_type_spec(Button::Right, EventKind::Up) == EventType::RightMouseUp,
        event_type_spec(Button::Right, EventKind::Moved) == EventType::MouseMoved,
        event_type_spec(Button::Right, EventKind::Dragged) == EventType::RightMouseDragged,
        event_type_spec(Button::Left, EventKind::Down) != event_type_spec(
            Button::Right,
            EventKind::Down,
        ),
        event_type_spec(Button::Left, EventKind::Moved) == event_type_spec(
            Button::Right,
            EventKind::Moved,
        ),
{
}

/// The location a mouse event model carries.
pub open spec fn mouse_location_of(m: EventModel) -> Location
    recommends
        m.data is Mouse,
{
    m.data->location
}

/// The mouse event model with its location overwritten and everything
/// else — flags, event type, button — kept.
pub open spec fn mouse_with_location(m: EventModel, location: Location) -> EventModel
    recommends
        m.data is Mouse,
{
    EventModel {
        flags: m.flags,
        data: EventDataModel::Mouse {
            event_type: m.data->event_type,
            button: m.data->button,
            location,
        },
    }
}

/// A mouse event that can be posted into the host event stream.
#[derive(Clone, Debug, PartialEq, Eq)]
pub struct Event {
    /// The event core the mouse event wraps.
    pub core: crate::event::Event,
}

impl Event {
    /// A well-formed mouse event wraps a core built from mouse parameters.
    pub open spec fn wf(self) -> bool {
        self.core@.data is Mouse
    }

    /// Creates a new mouse event for `button` of `kind` at `location`.
    pub fn new(button: Button, kind: EventKind, location: Location) -> (r: Event)
        ensures
            r.wf(),
            r.core@.flags == 0,
            r.core@.data == (EventDataModel::Mouse {
                event_type: event_type_spec(button, kind),
                button,
                location,
            }),
    {
        Event {
            core: crate::event::Event {
                flags: 0,
                data: EventData::Mouse { event_type: event_type(button, kind), button, location },
            },
        }
    }

    /// Returns the location of the mouse event.
    pub fn location(&self) -> (r: Location)
        requires
            self.wf(),
        ensures
            r == mouse_location_of(self.core@),
    {
        match &self.core.data {
            EventData::Mouse { location, .. } => *location,
            _ => unreached(),
        }
    }

    /// Sets the location of the mouse event, keeping its flags, event type
    /// and button.
    pub fn set_location(&mut self, location: Location)
        requires
            old(self).wf(),
        ensures
            final(self).wf(),
            final(self).core@ == mouse_with_location(old(self).core@, location),
    {
        let (event_type, button) = match &self.core.data {
            EventData::Mouse { event_type, button, .. } => (*event_type, *button),
            _ => unreached(),
        };
        self.core.data = EventData::Mouse { event_type, button, location };
    }

    /// Returns the flags of the underlying event core.
    pub fn flags(&self) -> (r: u64)
        ensures
            r == self.core@.flags,
    {
        self.core.flags()
    }

    /// Overwrites the flags of the underlying event core.
    pub fn set_flags(&mut self, flags: u64)
        ensures
            final(self).core@ == old(self).core@.with_flags(flags),
            old(self).wf() ==> final(self).wf(),
    {
        self.core.set_flags(flags);
    }

    /// Switches on the bits of `flags` in the underlying event core.
    pub fn enable_flags(&mut self, flags: u64)
        ensures
            final(self).core@ == old(self).core@.with_enabled(flags),
            old(self).wf() ==> final(self).wf(),
    {
        self.core.enable_flags(flags);
    }

    /// Builds the native submission that posts this event at `location`.
    pub fn post_request(&self, location: EventLocation) -> (r: PostRequest)
        ensures
            r == self.core@.post_request(location),
    {
        self.core.post_request(location)
    }
}

/// Location round trip: writing a location onto a mouse event and reading
/// it back yields exactly the written location, and the write touches
/// neither the flags nor the event type nor the button.
pub proof fn lemma_location_round_trip(m: EventModel, location: Location)
    requires
        m.data is Mouse,
    ensures
        mouse_location_of(mouse_with_location(m, location)) == location,
        mouse_with_location(m, location).flags == m.flags,
        mouse_with_location(m, location).data->event_type == m.data->event_type,
        mouse_with_location(m, location).data->button == m.data->button,
{
}

/// A restartable source of live cursor locations.
///
/// Each advance reflects one fresh location query answered by the host;
/// the iterator keeps no state of its own, so no two advances — and no two
/// iterators — share a cache.
#[derive(Copy, Clone, Debug)]
pub struct LocationIter {}

/// Returns an iterator over current mouse locations. The sequence is
/// unbounded: it never ends on its own, and the caller bounds consumption.
pub fn location_iter() -> (r: LocationIter) {
    LocationIter {  }
}

impl LocationIter {
    /// The location an advance yields for the host's answer `sampled`: the
    /// answer itself, untouched by any earlier advance.
    pub open spec fn next_spec(self, sampled: Location) -> Location {
        sampled
    }

    /// Advances the iterator. The caller's shell queries the live cursor
    /// location afresh and passes the answer in; the advance yields it
    /// unchanged and leaves the iterator as it was.
    pub fn next(&mut self, sampled: Location) -> (r: Location)
        ensures
            r == old(self).next_spec(sampled),
            *final(self) == *old(self),
    {
        sampled
    }
}

/// Sequence restartability: what an advance yields is exactly the live
/// answer it was given, whatever iterator it is made on — two fresh
/// iterators yield equal locations only when the live queries answered
/// equally, and a location mutated between queries flows through.
pub proof fn lemma_location_iter_restartable(
    a: LocationIter,
    b: LocationIter,
    s1: Location,
    s2: Location,
)
    ensures
        a.next_spec(s1) == b.next_spec(s1),
        a.next_spec(s1) == s1,
        s1 != s2 ==> a.next_spec(s1) != b.next_spec(s2),
{
}

/// The native cursor-warp call a warp to `location` asks for, or `None`
/// when the location is not finite: a non-finite coordinate never reaches
/// the host.
pub fn warp_request(location: Location) -> (r: Option<Location>)
    ensures
        r is Some <==> location.finite(),
        r matches Some(l) ==> l == location,
{
    if location.is_finite() {
        Some(location)
    } else {
        None
    }
}

} // verus!
