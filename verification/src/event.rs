//! The common postable event core.
//!
//! Keyboard, mouse and scroll wheel events all wrap one [`Event`] core. The
//! core carries the event's flags and the parameters it was built from; a
//! post produces a [`PostRequest`] naming the injection point, and the
//! unverified shell submits the backing native object there.

use crate::mouse::{Button, Location};
use crate::wheel::ScrollUnit;
use vstd::prelude::*;

verus! {

/// Flag bit: the Caps Lock key is down.
pub const FLAG_ALPHA_SHIFT: u64 = 0x10000;

/// Flag bit: the Shift key is down.
pub const FLAG_SHIFT: u64 = 0x20000;

/// Flag bit: the Control key is down.
pub const FLAG_CONTROL: u64 = 0x40000;

/// Flag bit: the Alt or Option key is down.
pub const FLAG_ALTERNATE: u64 = 0x80000;

/// Flag bit: the Command key is down.
pub const FLAG_COMMAND: u64 = 0x100000;

/// Flag bit: the Help modifier key is down.
///
/// This key is not present on most keyboards, and is different than the
/// Help key found in the same row as Home and Page Up.
pub const FLAG_HELP: u64 = 0x400000;

/// Flag bit: the Fn (Function) key is down.
///
/// This key is found primarily on laptop keyboards.
pub const FLAG_SECONDARY_FN: u64 = 0x800000;

/// Flag bit: identifies key events from the numeric keypad area on
/// extended keyboards.
pub const FLAG_NUMERIC_PAD: u64 = 0x200000;

/// Flag bit: mouse and pen movements are not being coalesced.
pub const FLAG_NON_COALESCED: u64 = 0x100;

/// An event location: the point of the host's event pipeline at which a
/// posted event is injected.
#[derive(Copy, Clone, Debug, Hash, PartialEq, Eq, Structural)]
pub enum EventLocation {
    /// The event is placed at the point where HID system events enter the
    /// window server.
    Hid,
    /// The event is placed at the point where HID system and remote
    /// control events enter a login session.
    Session,
    /// The event is placed at the point where session events have been
    /// annotated to flow to an application.
    AnnotatedSession,
}

impl EventLocation {
    /// The tap-location code the host call takes for this injection point.
    pub open spec fn code_spec(self) -> u32 {
        match self {
            EventLocation::Hid => 0,
            EventLocation::Session => 1,
            EventLocation::AnnotatedSession => 2,
        }
    }

    /// Returns the tap-location code for this injection point.
    pub fn code(self) -> (r: u32)
        ensures
            r == self.code_spec(),
    {
        match self {
            EventLocation::Hid => 0,
            EventLocation::Session => 1,
            EventLocation::AnnotatedSession => 2,
        }
    }
}

/// The native event type selector an event is created with.
#[derive(Copy, Clone, Debug, Hash, PartialEq, Eq, Structural)]
pub enum EventType {
    /// The null event.
    Null,
    // Mouse events.
    LeftMouseDown,
    LeftMouseUp,
    RightMouseDown,
    RightMouseUp,
    MouseMoved,
    LeftMouseDragged,
    RightMouseDragged,
    // Keyboard events.
    KeyDown,
    KeyUp,
    FlagsChanged,
    // Specialized control devices.
    ScrollWheel,
    TabletPointer,
    TabletProximity,
    OtherMouseDown,
    OtherMouseUp,
    OtherMouseDragged,
    // Out-of-band event types that notify an event tap of unusual
    // conditions disabling it.
    TapDisabledByTimeout,
    TapDisabledByUserInput,
}

impl EventType {
    /// The numeric code the host call takes for this event type.
    pub open spec fn code_spec(self) -> u32 {
        match self {
            EventType::Null => 0,
            EventType::LeftMouseDown => 1,
            EventType::LeftMouseUp => 2,
            EventType::RightMouseDown => 3,
            EventType::RightMouseUp => 4,
            EventType::MouseMoved => 5,
            EventType::LeftMouseDragged => 6,
            EventType::RightMouseDragged => 7,
            EventType::KeyDown => 8,
            EventType::KeyUp => 9,
            EventType::FlagsChanged => 10,
            EventType::ScrollWheel => 11,
            EventType::TabletPointer => 12,
            EventType::TabletProximity => 13,
            EventType::OtherMouseDown => 14,
            EventType::OtherMouseUp => 15,
            EventType::OtherMouseDragged => 16,
            EventType::TapDisabledByTimeout => 17,
            EventType::TapDisabledByUserInput => 18,
        }
    }

    /// Returns the numeric code for this event type.
    pub fn code(self) -> (r: u32)
        ensures
            r == self.code_spec(),
    {
        match self {
            EventType::Null => 0,
            EventType::LeftMouseDown => 1,
            EventType::LeftMouseUp => 2,
            EventType::RightMouseDown => 3,
            EventType::RightMouseUp => 4,
            EventType::MouseMoved => 5,
            EventType::LeftMouseDragged => 6,
            EventType::RightMouseDragged => 7,
            EventType::KeyDown => 8,
            EventType::KeyUp => 9,
            EventType::FlagsChanged => 10,
            EventType::ScrollWheel => 11,
            EventType::TabletPointer => 12,
            EventType::TabletProximity => 13,
            EventType::OtherMouseDown => 14,
            EventType::OtherMouseUp => 15,
            EventType::OtherMouseDragged => 16,
            EventType::TapDisabledByTimeout => 17,
            EventType::TapDisabledByUserInput => 18,
        }
    }
}

/// The parameters an event core was built from.
#[derive(Clone, Debug, PartialEq, Eq)]
pub enum EventData {
    /// A keyboard event: a virtual key either pressed or released.
    Keyboard {
        /// The virtual key code.
        key: u16,
        /// Whether the key goes down (`true`) or up (`false`).
        down: bool,
    },
    /// A mouse event of one of the eight native mouse event types.
    Mouse {
        /// The native event type selected for the button and kind.
        event_type: EventType,
        /// The button the event speaks about.
        button: Button,
        /// The screen location of the event.
        location: Location,
    },
    /// A scroll wheel event with one delta per scrolled axis.
    Wheel {
        /// The unit the deltas are measured in.
        unit: ScrollUnit,
        /// The per-axis deltas; a valid event holds one to three of them.
        deltas: Vec<i32>,
    },
}

/// The mathematical value of [`EventData`].
pub enum EventDataModel {
    /// A keyboard event.
    Keyboard {
        /// The virtual key code.
        key: u16,
        /// Whether the key goes down.
        down: bool,
    },
    /// A mouse event.
    Mouse {
        /// The native event type.
        event_type: EventType,
        /// The button.
        button: Button,
        /// The screen location.
        location: Location,
    },
    /// A scroll wheel event.
    Wheel {
        /// The unit of the deltas.
        unit: ScrollUnit,
        /// The per-axis deltas.
        deltas: Seq<i32>,
    },
}

impl View for EventData {
    type V = EventDataModel;

    open spec fn view(&self) -> EventDataModel {
        match self {
            EventData::Keyboard { key, down } => EventDataModel::Keyboard {
                key: *key,
                down: *down,
            },
            EventData::Mouse { event_type, button, location } => EventDataModel::Mouse {
                event_type: *event_type,
                button: *button,
                location: *location,
            },
            EventData::Wheel { unit, deltas } => EventDataModel::Wheel {
                unit: *unit,
                deltas: deltas@,
            },
        }
    }
}

/// The mathematical value of an event core: its flags and the parameters
/// it was built from.
pub struct EventModel {
    /// The event's flags, a bit-set of modifier and state indicators.
    pub flags: u64,
    /// The parameters the event was built from.
    pub data: EventDataModel,
}

impl EventModel {
    /// The model after the flags are overwritten with `flags`.
    pub open spec fn with_flags(self, flags: u64) -> EventModel {
        EventModel { flags, data: self.data }
    }

    /// The model after the bits of `flags` are switched on.
    pub open spec fn with_enabled(self, flags: u64) -> EventModel {
        self.with_flags(self.flags | flags)
    }

    /// The native submission a post of this event at `location` asks for.
    pub open spec fn post_request(self, location: EventLocation) -> PostRequest {
        PostRequest { tap_code: location.code_spec(), flags: self.flags }
    }

    /// The model after this event is posted: posting submits a request to
    /// the host and leaves the event itself untouched.
    pub open spec fn after_post(self, location: EventLocation) -> EventModel {
        self
    }

    /// A well-formed event: a scroll wheel event holds one to three
    /// deltas; other events carry no further obligation.
    pub open spec fn wf(self) -> bool {
        self.data matches EventDataModel::Wheel { deltas, .. } ==> 1 <= deltas.len() <= 3
    }
}

/// An event that can be posted into the host event stream.
///
/// The core owns the event's model; the unverified shell keeps the backing
/// native object beside it and syncs the flags onto that object when a
/// [`PostRequest`] is carried out.
#[derive(Clone, Debug, PartialEq, Eq)]
pub struct Event {
    /// The event's flags, a bit-set of modifier and state indicators.
    pub flags: u64,
    /// The parameters the event was built from.
    pub data: EventData,
}

impl View for Event {
    type V = EventModel;

    open spec fn view(&self) -> EventModel {
        EventModel { flags: self.flags, data: self.data@ }
    }
}

/// The one native call a post asks the shell to make: sync `flags` onto
/// the event's native object and submit it at the tap location `tap_code`.
#[derive(Copy, Clone, Debug, PartialEq, Eq, Structural)]
pub struct PostRequest {
    /// The tap-location code of the injection point.
    pub tap_code: u32,
    /// The flags the event carries into the stream.
    pub flags: u64,
}

impl Event {
    /// Returns the flags of the event.
    pub fn flags(&self) -> (r: u64)
        ensures
            r == self@.flags,
    {
        self.flags
    }

    /// Overwrites the flags of the event.
    pub fn set_flags(&mut self, flags: u64)
        ensures
            final(self)@ == old(self)@.with_flags(flags),
    {
        self.flags = flags;
    }

    /// Switches on the bits of `flags` in the flags of the event.
    pub fn enable_flags(&mut self, flags: u64)
        ensures
            final(self)@ == old(self)@.with_enabled(flags),
    {
        let prev = self.flags();
        self.set_flags(prev | flags);
    }

    /// Builds the native submission that posts this event at `location`.
    ///
    /// Posting borrows the event immutably: it neither consumes nor alters
    /// it, so the same event may be posted any number of times.
    pub fn post_request(&self, location: EventLocation) -> (r: PostRequest)
        ensures
            r == self@.post_request(location),
    {
        PostRequest { tap_code: location.code(), flags: self.flags }
    }

    /// Produces an independent event with the same model, as the native
    /// copy primitive does; the copy shares no native reference with the
    /// source, so either may be dropped without touching the other.
    pub fn duplicate(&self) -> (r: Event)
        ensures
            r@ == self@,
    {
        let data = match &self.data {
            EventData::Keyboard { key, down } => EventData::Keyboard { key: *key, down: *down },
            EventData::Mouse { event_type, button, location } => EventData::Mouse {
                event_type: *event_type,
                button: *button,
                location: *location,
            },
            EventData::Wheel { unit, deltas } => {
                let mut copy: Vec<i32> = Vec::new();
                let mut i: usize = 0;
                while i < deltas.len()
                    invariant
                        i <= deltas.len(),
                        copy@ == deltas@.subrange(0, i as int),
                    decreases deltas.len() - i,
                {
                    copy.push(deltas[i]);
                    i = i + 1;
                }
                proof {
                    assert(copy@ == deltas@);
                }
                EventData::Wheel { unit: *unit, deltas: copy }
            },
        };
        Event { flags: self.flags, data }
    }
}

/// Round-trip flags: overwriting an event's flags with a bit-set `flags`
/// makes a flag read yield exactly `flags`, and touches nothing else of
/// the event.
pub proof fn lemma_flags_round_trip(m: EventModel, flags: u64)
    ensures
        m.with_flags(flags).flags == flags,
        m.with_flags(flags).data == m.data,
{
}

/// Enabling flags is a bitwise or: every bit of `flags` is on afterwards,
/// every bit already on stays on, and the data is untouched.
pub proof fn lemma_enable_flags(m: EventModel, flags: u64)
    ensures
        m.with_enabled(flags).flags == (m.flags | flags),
        m.with_enabled(flags).data == m.data,
{
}

/// Idempotent posting: a post leaves the event exactly as it stood, so a
/// second post of the same event builds the same request and sees the
/// same flags as the first.
pub proof fn lemma_post_idempotent(m: EventModel, location: EventLocation)
    ensures
        m.after_post(location) == m,
        m.after_post(location).post_request(location) == m.post_request(location),
        m.after_post(location).flags == m.flags,
{
}

} // verus!
