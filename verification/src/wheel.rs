//! Scroll wheel automation utilities.

use crate::event::{EventData, EventDataModel, EventLocation, PostRequest};
use vstd::prelude::*;

verus! {

/// The unit of measurement for a scroll wheel event.
///
/// By default, the ratio is about ten pixels per line.
#[derive(Copy, Clone, Debug, Hash, PartialEq, Eq, Structural)]
pub enum ScrollUnit {
    /// Produces an event that most applications interpret as a smooth
    /// scrolling event.
    Pixel,
    /// The offset is by lines.
    Line,
}

impl ScrollUnit {
    /// The numeric unit code the host call takes.
    pub open spec fn code_spec(self) -> u32 {
        match self {
            ScrollUnit::Pixel => 0,
            ScrollUnit::Line => 1,
        }
    }

    /// Returns the numeric unit code.
    pub fn code(self) -> (r: u32)
        ensures
            r == self.code_spec(),
    {
        match self {
            ScrollUnit::Pixel => 0,
            ScrollUnit::Line => 1,
        }
    }
}

/// A vector of scroll wheel values.
///
/// Only the one-, two- and three-delta arrays implement it, so an event
/// built through it holds a valid number of wheels by construction.
pub trait Wheels: crate::Priv {
    /// The per-axis deltas as a sequence.
    spec fn deltas_spec(&self) -> Seq<i32>;

    /// Returns the per-axis deltas; there are between one and three.
    fn deltas(&self) -> (r: Vec<i32>)
        ensures
            r@ == self.deltas_spec(),
            1 <= r@.len() <= 3,
    ;
}

impl crate::Priv for [i32; 1] {

}

impl Wheels for [i32; 1] {
    open spec fn deltas_spec(&self) -> Seq<i32> {
        self@
    }

    fn deltas(&self) -> (r: Vec<i32>) {
        let mut v: Vec<i32> = Vec::new();
        v.push(self[0]);
        proof {
            assert(v@ == self@);
        }
        v
    }
}

impl crate::Priv for [i32; 2] {

}

impl Wheels for [i32; 2] {
    open spec fn deltas_spec(&self) -> Seq<i32> {
        self@
    }

    fn deltas(&self) -> (r: Vec<i32>) {
        let mut v: Vec<i32> = Vec::new();
        v.push(self[0]);
        v.push(self[1]);
        proof {
            assert(v@ == self@);
        }
        v
    }
}

impl crate::Priv for [i32; 3] {

}

impl Wheels for [i32; 3] {
    open spec fn deltas_spec(&self) -> Seq<i32> {
        self@
    }

    fn deltas(&self) -> (r: Vec<i32>) {
        let mut v: Vec<i32> = Vec::new();
        v.push(self[0]);
        v.push(self[1]);
        v.push(self[2]);
        proof {
            assert(v@ == self@);
        }
        v
    }
}

/// A scroll wheel event that can be posted into the host event stream.
#[derive(Clone, Debug, PartialEq, Eq)]
pub struct Event {
    /// The event core the wheel event wraps.
    pub core: crate::event::Event,
}

impl Event {
    /// A well-formed wheel event wraps a core built from a unit and one to
    /// three per-axis deltas.
    pub open spec fn wf(self) -> bool {
        &&& self.core@.data is Wheel
        &&& 1 <= self.core@.data->deltas.len() <= 3
    }

    /// Creates a new scroll wheel event with `unit`-sized offsets in
    /// `wheels`.
    ///
    /// The number of wheels must be between 1 and 3, inclusive. Type
    /// checking statically keeps the input within the valid range.
    pub fn new<W: Wheels>(unit: ScrollUnit, wheels: W) -> (r: Event)
        ensures
            r.wf(),
            r.core@.flags == 0,
            r.core@.data == (EventDataModel::Wheel { unit, deltas: wheels.deltas_spec() }),
    {
        let deltas = wheels.deltas();
        Event { core: crate::event::Event { flags: 0, data: EventData::Wheel { unit, deltas } } }
    }

    /// Creates a new scroll wheel event with `unit`-sized offsets in
    /// `deltas`, validating the count at run time: any count other than
    /// one, two or three yields `None` and no event.
    pub fn from_deltas(unit: ScrollUnit, deltas: Vec<i32>) -> (r: Option<Event>)
        ensures
            r is Some <==> 1 <= deltas@.len() <= 3,
            r matches Some(e) ==> {
                &&& e.wf()
                &&& e.core@.flags == 0
                &&& e.core@.data == (EventDataModel::Wheel { unit, deltas: deltas@ })
            },
    {
        if 1 <= deltas.len() && deltas.len() <= 3 {
            Some(Event { core: crate::event::Event { flags: 0, data: EventData::Wheel { unit, deltas } } })
        } else {
            None
        }
    }

    /// Returns the flags of the underlying event core.
    pub fn flags(&self) -> (r: u64)
        ensures
            r == self.core@.flags,
    {
        self.core.flags()
    }

    /// Overwrites the flags of the underlying event core.
    pub fn set_flags(&mut self, flags: u64)
        ensures
            final(self).core@ == old(self).core@.with_flags(flags),
            old(self).wf() ==> final(self).wf(),
    {
        self.core.set_flags(flags);
    }

    /// Switches on the bits of `flags` in the underlying event core.
    pub fn enable_flags(&mut self, flags: u64)
        ensures
            final(self).core@ == old(self).core@.with_enabled(flags),
            old(self).wf() ==> final(self).wf(),
    {
        self.core.enable_flags(flags);
    }

    /// Builds the native submission that posts this event at `location`.
    pub fn post_request(&self, location: EventLocation) -> (r: PostRequest)
        ensures
            r == self.core@.post_request(location),
    {
        self.core.post_request(location)
    }
}

} // verus!
