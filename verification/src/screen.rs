//! Screen information utilities: display identifiers and the pixel color
//! sampler.

use crate::mouse::Location;
use vstd::prelude::*;

verus! {

/// A monitor display: an opaque, copyable identifier assigned by the
/// host. The identifier is a pure lookup key into the host's display
/// directory; no native resource is owned through it.
#[derive(Copy, Clone, Debug, Hash, PartialEq, Eq, Structural)]
pub struct Display(pub u32);

/// The native capture call one pixel sample asks the shell to make:
/// capture a one-by-one pixel image of `display` whose corner sits at
/// `pos`, wrap it in a bitmap, read its single pixel, and release both
/// unconditionally.
#[derive(Copy, Clone, Debug, PartialEq, Eq, Structural)]
pub struct CaptureRequest {
    /// The display to capture from.
    pub display: Display,
    /// The position of the sampled pixel, relative to the display origin.
    pub pos: Location,
}

/// The capture that sampling the color at `pos` on `display` asks for:
/// one request when both coordinates are finite, and none at all — hence
/// no color — otherwise.
pub open spec fn capture_request_spec(display: Display, pos: Location) -> Option<CaptureRequest> {
    if pos.finite() {
        Some(CaptureRequest { display, pos })
    } else {
        None
    }
}

impl Display {
    /// Decides the capture call that sampling the color at `pos` makes.
    ///
    /// `None` means the sample is answered with no color before any native
    /// call: a NaN or infinite coordinate never reaches the host's capture
    /// interface. When a request is returned, the host may still find no
    /// capturable surface at the position, in which case the shell reports
    /// no color for the sample.
    pub fn capture_request(self, pos: Location) -> (r: Option<CaptureRequest>)
        ensures
            r == capture_request_spec(self, pos),
    {
        if pos.is_finite() {
            Some(CaptureRequest { display: self, pos })
        } else {
            None
        }
    }

    /// Returns a sampler over colors at `pos` relative to the origin of
    /// the display.
    pub fn colors(self, pos: Location) -> (r: Colors)
        ensures
            r.display == self,
            r.pos == pos,
    {
        Colors::new(self, pos)
    }
}

/// A restartable sampler of colors on a display.
///
/// The position is a public field on purpose: a caller may overwrite
/// `pos` between advances to sample a moving point, while the shell
/// reuses one bitmap wrapper object for every capture in the sampler's
/// lifetime.
#[derive(Copy, Clone, Debug)]
pub struct Colors {
    /// The display whose origin the position is relative to.
    pub display: Display,
    /// An x-y position pair; the next advance samples at its current
    /// value.
    pub pos: Location,
}

impl Colors {
    /// Creates a new sampler for the display and position.
    pub fn new(display: Display, pos: Location) -> (r: Colors)
        ensures
            r.display == display,
            r.pos == pos,
    {
        Colors { display, pos }
    }

    /// Decides the capture call the next advance makes, at the position
    /// as it stands now; `None` when a coordinate is non-finite, in which
    /// case the advance yields no color and the host is never called.
    pub fn capture_request(&self) -> (r: Option<CaptureRequest>)
        ensures
            r == capture_request_spec(self.display, self.pos),
    {
        self.display.capture_request(self.pos)
    }
}

/// Non-finite coordinate safety: a sample at a position with a NaN or an
/// infinite coordinate makes no capture call at all and yields no color,
/// while a finite position asks for exactly one capture of the one-by-one
/// rectangle at that position.
pub proof fn lemma_capture_guard(display: Display, pos: Location)
    ensures
        !pos.finite() ==> capture_request_spec(display, pos) is None,
        pos.finite() ==> capture_request_spec(display, pos) == Some(
            CaptureRequest { display, pos },
        ),
{
}

} // verus!
