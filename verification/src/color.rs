//! The color of one LED: three independent 8-bit channel intensities.

use vstd::prelude::*;

verus! {

/// One pixel's color. Channels are red, green, blue, each in [0, 255].
#[derive(Clone, Copy, PartialEq, Eq, Structural, Debug)]
pub struct Color {
    pub r: u8,
    pub g: u8,
    pub b: u8,
}

impl Color {
    /// Build a color from its three channels.
    pub fn new(r: u8, g: u8, b: u8) -> (c: Color)
        ensures
            c == (Color { r, g, b }),
    {
        Color { r, g, b }
    }

    /// The all-zero color (LED off).
    pub open spec fn black_spec() -> Color {
        Color { r: 0, g: 0, b: 0 }
    }

    /// Executable counterpart of [`Color::black_spec`].
    pub fn black() -> (c: Color)
        ensures
            c == Color::black_spec(),
    {
        Color { r: 0, g: 0, b: 0 }
    }

    /// Per-channel integer division, used to dim a color uniformly.
    pub open spec fn div_spec(self, d: u8) -> Color
        recommends
            d > 0,
    {
        Color { r: (self.r / d) as u8, g: (self.g / d) as u8, b: (self.b / d) as u8 }
    }

    /// Divide every channel by `d` (integer division).
    pub fn div(self, d: u8) -> (c: Color)
        requires
            d > 0,
        ensures
            c == self.div_spec(d),
    {
        Color { r: self.r / d, g: self.g / d, b: self.b / d }
    }
}

} // verus!
