//! Application-specific utilities.
//!
//! A running application is modeled by the plain values the host reports
//! for its application object. The operations that act on the live process
//! — hiding, activating, terminating — each decide here which native call
//! to make; the unverified shell carries the decided [`AppRequest`] out and
//! reports the host's boolean verdict back to its caller unchanged.

use vstd::prelude::*;

verus! {

/// A process identifier.
pub type Pid = i32;

/// Activation option bit: by default, activation brings only the main and
/// key windows forward; with this option, all of the application's windows
/// are brought forward.
pub const ACTIVATE_ALL_WINDOWS: u64 = 0x1;

/// Activation option bit: activate the application regardless of the
/// currently active one, potentially stealing focus from the user.
///
/// You should **rarely pass this flag** because stealing key focus
/// produces a very bad user experience.
pub const ACTIVATE_IGNORING_OTHER_APPS: u64 = 0x2;

/// An application architecture.
#[derive(Copy, Clone, Debug, Hash, PartialEq, Eq, Structural)]
pub enum Arch {
    /// The 32-bit Intel architecture.
    I386,
    /// The 32-bit PowerPC architecture.
    Ppc,
    /// The 64-bit Intel architecture.
    X86_64,
    /// The 64-bit PowerPC architecture.
    Ppc64,
}

impl Arch {
    /// The numeric architecture code the host reports.
    pub open spec fn code_spec(self) -> u32 {
        match self {
            Arch::I386 => 0x00000007,
            Arch::Ppc => 0x00000012,
            Arch::X86_64 => 0x01000007,
            Arch::Ppc64 => 0x01000012,
        }
    }

    /// Returns the numeric architecture code.
    pub fn code(self) -> (r: u32)
        ensures
            r == self.code_spec(),
    {
        match self {
            Arch::I386 => 0x00000007,
            Arch::Ppc => 0x00000012,
            Arch::X86_64 => 0x01000007,
            Arch::Ppc64 => 0x01000012,
        }
    }

    /// Reads an architecture back from the numeric code the host reports,
    /// or `None` for a code naming no known architecture.
    pub fn from_code(code: u32) -> (r: Option<Arch>)
        ensures
            r matches Some(a) ==> a.code_spec() == code,
            r is Some <==> (code == 0x00000007 || code == 0x00000012 || code == 0x01000007
                || code == 0x01000012),
    {
        if code == 0x00000007 {
            Some(Arch::I386)
        } else if code == 0x00000012 {
            Some(Arch::Ppc)
        } else if code == 0x01000007 {
            Some(Arch::X86_64)
        } else if code == 0x01000012 {
            Some(Arch::Ppc64)
        } else {
            None
        }
    }

    /// The architecture is 64-bit: exactly the architectures whose code
    /// carries the 64-bit capability bit.
    pub fn is_64bit(self) -> (r: bool)
        ensures
            r == (self is X86_64 || self is Ppc64),
    {
        proof {
            assert(0x00000007u32 & 0x01000000u32 == 0) by (bit_vector);
            assert(0x00000012u32 & 0x01000000u32 == 0) by (bit_vector);
            assert(0x01000007u32 & 0x01000000u32 != 0) by (bit_vector);
            assert(0x01000012u32 & 0x01000000u32 != 0) by (bit_vector);
        }
        (self.code() & 0x01000000) != 0
    }

    /// The architecture is 32-bit.
    pub fn is_32bit(self) -> (r: bool)
        ensures
            r == !(self is X86_64 || self is Ppc64),
    {
        !self.is_64bit()
    }
}

/// The native call an application operation asks the shell to make on the
/// live application object.
#[derive(Copy, Clone, Debug, PartialEq, Eq, Structural)]
pub enum AppRequest {
    /// Hide the application.
    Hide,
    /// Unhide the application.
    Unhide,
    /// Ask the application to quit normally.
    Terminate,
    /// Force the application to quit.
    ForceTerminate,
    /// Activate the application with the given option bits.
    Activate {
        /// A bit-set over [`ACTIVATE_ALL_WINDOWS`] and
        /// [`ACTIVATE_IGNORING_OTHER_APPS`].
        options: u64,
    },
}

/// A running application, modeled by the plain values the host reported
/// for its application object.
#[derive(Copy, Clone, Debug, Hash, PartialEq, Eq, Structural)]
pub struct App {
    /// The process identifier as the host reported it, with `-1` standing
    /// for a process whose identifier is unavailable.
    pub raw_pid: Pid,
}

impl App {
    /// Returns the process identifier of the application, or `None` when
    /// the host reported the reserved value `-1` — the process may already
    /// have exited.
    pub fn pid(&self) -> (r: Option<Pid>)
        ensures
            r is Some <==> self.raw_pid != -1,
            r matches Some(p) ==> p == self.raw_pid,
    {
        if self.raw_pid == -1 {
            None
        } else {
            Some(self.raw_pid)
        }
    }

    /// Decides the native call that hides or unhides the application:
    /// hiding sends the hide message, unhiding the unhide message. The
    /// shell returns the host's verdict — the call may fail if the
    /// application already quit or cannot be hidden.
    pub fn set_hidden_request(&self, hide: bool) -> (r: AppRequest)
        ensures
            r == (if hide {
                AppRequest::Hide
            } else {
                AppRequest::Unhide
            }),
    {
        if hide {
            AppRequest::Hide
        } else {
            AppRequest::Unhide
        }
    }

    /// Decides the native call that quits the application, forced or
    /// normal. The shell returns whether the request was accepted, not
    /// whether the process exited.
    pub fn terminate_request(&self, force: bool) -> (r: AppRequest)
        ensures
            r == (if force {
                AppRequest::ForceTerminate
            } else {
                AppRequest::Terminate
            }),
    {
        if force {
            AppRequest::ForceTerminate
        } else {
            AppRequest::Terminate
        }
    }

    /// Decides the native call that activates the application with the
    /// given option bits.
    pub fn activate_request(&self, options: u64) -> (r: AppRequest)
        ensures
            r == (AppRequest::Activate { options }),
    {
        AppRequest::Activate { options }
    }
}

} // verus!
