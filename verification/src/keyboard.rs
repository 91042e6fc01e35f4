//! Keyboard automation utilities.

use crate::event::{EventData, EventDataModel, EventLocation, PostRequest};
use vstd::prelude::*;

verus! {

/// A keyboard event that can be posted into the host event stream.
#[derive(Clone, Debug, PartialEq, Eq)]
pub struct Event {
    /// The event core the keyboard event wraps.
    pub core: crate::event::Event,
}

impl Event {
    /// A well-formed keyboard event wraps a core built from keyboard
    /// parameters.
    pub open spec fn wf(self) -> bool {
        self.core@.data is Keyboard
    }

    /// Creates a new event for the virtual key `key`, pressed when `down`
    /// is true and released otherwise.
    pub fn new(key: u16, down: bool) -> (r: Event)
        ensures
            r.wf(),
            r.core@.flags == 0,
            r.core@.data == (EventDataModel::Keyboard { key, down }),
    {
        Event { core: crate::event::Event { flags: 0, data: EventData::Keyboard { key, down } } }
    }

    /// Returns the flags of the underlying event core.
    pub fn flags(&self) -> (r: u64)
        ensures
            r == self.core@.flags,
    {
        self.core.flags()
    }

    /// Overwrites the flags of the underlying event core.
    pub fn set_flags(&mut self, flags: u64)
        ensures
            final(self).core@ == old(self).core@.with_flags(flags),
            old(self).wf() ==> final(self).wf(),
    {
        self.core.set_flags(flags);
    }

    /// Switches on the bits of `flags` in the underlying event core.
    pub fn enable_flags(&mut self, flags: u64)
        ensures
            final(self).core@ == old(self).core@.with_enabled(flags),
            old(self).wf() ==> final(self).wf(),
    {
        self.core.enable_flags(flags);
    }

    /// Builds the native submission that posts this event at `location`.
    pub fn post_request(&self, location: EventLocation) -> (r: PostRequest)
        ensures
            r == self.core@.post_request(location),
    {
        self.core.post_request(location)
    }
}

} // verus!
