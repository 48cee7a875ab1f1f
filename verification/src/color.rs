//! Opaque display colours as red, green and blue samples.

use vstd::prelude::*;

verus! {

/// An opaque colour: one eight-bit sample each of red, green and blue.
#[derive(Clone, Copy, Debug, PartialEq, Eq, Structural)]
pub struct Color {
    pub r: u8,
    pub g: u8,
    pub b: u8,
}

impl Color {
    /// Pure red.
    pub fn red() -> (c: Color)
        ensures
            c == (Color { r: 255, g: 0, b: 0 }),
    {
        Color { r: 255, g: 0, b: 0 }
    }

    /// Half-intensity green.
    pub fn green() -> (c: Color)
        ensures
            c == (Color { r: 0, g: 128, b: 0 }),
    {
        Color { r: 0, g: 128, b: 0 }
    }

    /// Pure blue.
    pub fn blue() -> (c: Color)
        ensures
            c == (Color { r: 0, g: 0, b: 255 }),
    {
        Color { r: 0, g: 0, b: 255 }
    }

    /// Full-intensity green.
    pub fn lime() -> (c: Color)
        ensures
            c == (Color { r: 0, g: 255, b: 0 }),
    {
        Color { r: 0, g: 255, b: 0 }
    }

    /// Half-intensity magenta.
    pub fn purple() -> (c: Color)
        ensures
            c == (Color { r: 128, g: 0, b: 128 }),
    {
        Color { r: 128, g: 0, b: 128 }
    }

    /// A light gray, nine tenths of the way from black to white.
    pub fn light_gray() -> (c: Color)
        ensures
            c == (Color { r: 230, g: 230, b: 230 }),
    {
        Color { r: 230, g: 230, b: 230 }
    }
}

} // verus!
