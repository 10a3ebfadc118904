//! The color value type: four 8-bit sRGB channels.

use vstd::prelude::*;

verus! {

/// One normalized color: red, green, blue and alpha, each an 8-bit channel.
/// Two colors are equal exactly when all four channels match.
#[derive(Clone, Copy, Debug, Hash, PartialEq, Eq, Structural)]
pub struct Color {
    pub red: u8,
    pub green: u8,
    pub blue: u8,
    pub alpha: u8,
}

impl Color {
    /// A fully opaque color from its three color channels.
    pub fn rgb(red: u8, green: u8, blue: u8) -> (c: Color)
        ensures
            c == (Color { red, green, blue, alpha: 255 }),
    {
        Color { red, green, blue, alpha: 255 }
    }

    /// A color from all four channels.
    pub fn rgba(red: u8, green: u8, blue: u8, alpha: u8) -> (c: Color)
        ensures
            c == (Color { red, green, blue, alpha }),
    {
        Color { red, green, blue, alpha }
    }
}

} // verus!
