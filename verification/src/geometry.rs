//! Rectangles and colours in whole pixels and 8-bit channels.

use vstd::prelude::*;

verus! {

/// Largest distance from the origin at which a widget can be placed, in
/// pixels. Layout arithmetic stays within `i64` for positions up to it.
pub const MAX_POSITION: i64 = 0x1000_0000_0000_0000;

/// An axis-aligned rectangle: top-left corner, width and height, in pixels.
#[derive(Clone, Copy, Debug, PartialEq, Eq, Structural)]
pub struct Rect {
    pub x: i64,
    pub y: i64,
    pub w: i64,
    pub h: i64,
}

/// A colour with an alpha channel, each channel from 0 to 255.
#[derive(Clone, Copy, Debug, PartialEq, Eq, Structural)]
pub struct Color {
    pub r: u8,
    pub g: u8,
    pub b: u8,
    pub a: u8,
}

impl Rect {
    pub fn new(x: i64, y: i64, w: i64, h: i64) -> (r: Rect)
        ensures
            r == (Rect { x, y, w, h }),
    {
        Rect { x, y, w, h }
    }
}

impl Color {
    pub fn black() -> (c: Color)
        ensures
            c == (Color { r: 0, g: 0, b: 0, a: 255 }),
    {
        Color { r: 0, g: 0, b: 0, a: 255 }
    }

    pub fn white() -> (c: Color)
        ensures
            c == (Color { r: 255, g: 255, b: 255, a: 255 }),
    {
        Color { r: 255, g: 255, b: 255, a: 255 }
    }

    /// The same colour with its alpha channel replaced.
    pub fn with_alpha(self, a: u8) -> (c: Color)
        ensures
            c == (Color { a, ..self }),
    {
        Color { r: self.r, g: self.g, b: self.b, a }
    }
}

} // verus!
