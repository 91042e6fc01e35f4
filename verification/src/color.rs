//! Color utilities.

use vstd::prelude::*;

verus! {

/// The packed pixel word a native screen read hands back for a pixel it
/// cannot sample.
pub const INVALID_COLOR_REF: u32 = 0xFFFF_FFFF;

/// A simple red-green-blue color triplet.
///
/// Each channel is one byte; 0 is the darkest and 255 the brightest
/// intensity the channel can hold.
#[derive(Copy, Clone, Debug, PartialEq, Eq, Structural)]
pub struct Rgb {
    /// The amount of red.
    pub red: u8,
    /// The amount of green.
    pub green: u8,
    /// The amount of blue.
    pub blue: u8,
}

impl Rgb {
    /// Normalizes `self` in place between the channel type's lower and upper
    /// bounds. A byte channel already covers exactly that range, so the
    /// value is left as it stands.
    pub fn normalize(&mut self)
        ensures
            *final(self) == *old(self),
    {
    }

    /// Reads a color out of a packed `0x00BBGGRR` native pixel word, or
    /// `None` for the reserved word that marks a failed screen read.
    pub fn from_color_ref(color: u32) -> (r: Option<Rgb>)
        ensures
            r is Some <==> color != INVALID_COLOR_REF,
            r matches Some(c) ==> c.red == (color & 0xFF) as u8 && c.green == ((color >> 8)
                & 0xFF) as u8 && c.blue == ((color >> 16) & 0xFF) as u8,
    {
        if color == INVALID_COLOR_REF {
            None
        } else {
            Some(
                Rgb {
                    red: (color & 0xFF) as u8,
                    green: ((color >> 8) & 0xFF) as u8,
                    blue: ((color >> 16) & 0xFF) as u8,
                },
            )
        }
    }
}

} // verus!
