//! The color wheel: a byte position mapped to a hue, used by the wheel
//! pattern to cycle smoothly through the spectrum.

use crate::color::Color;
use vstd::prelude::*;

verus! {

/// What [`wheel`] returns at position `p`: invert the position, then
/// split the inverted value into three 85-wide sectors, each blending
/// two channels linearly while the third stays zero.
pub open spec fn wheel_spec(p: int) -> Color
    recommends
        0 <= p < 256,
{
    let v = 255 - p;
    if v < 85 {
        Color { r: (255 - 3 * v) as u8, g: 0, b: (3 * v) as u8 }
    } else if v < 170 {
        Color { r: 0, g: (3 * (v - 85)) as u8, b: (255 - 3 * (v - 85)) as u8 }
    } else {
        Color { r: (3 * (v - 170)) as u8, g: (255 - 3 * (v - 170)) as u8, b: 0 }
    }
}

/// Map a position byte to a color on the wheel.
pub fn wheel(wheel_pos: u8) -> (c: Color)
    ensures
        c == wheel_spec(wheel_pos as int),
{
    let v: u8 = 255 - wheel_pos;
    if v < 85 {
        // No green in this sector - red and blue only.
        Color::new(255 - v * 3, 0, v * 3)
    } else if v < 170 {
        // No red in this sector - green and blue only.
        let w: u8 = v - 85;
        Color::new(0, w * 3, 255 - w * 3)
    } else {
        // No blue in this sector - red and green only.
        let w: u8 = v - 170;
        Color::new(w * 3, 255 - w * 3, 0)
    }
}

/// Distance between two channel values.
pub open spec fn channel_diff(a: u8, b: u8) -> int {
    if a >= b {
        a - b
    } else {
        b - a
    }
}

/// The wheel is total on [0, 256) and every channel fits its byte:
/// each channel of `wheel_spec(p)` lies in [0, 255].
pub proof fn lemma_wheel_channels_bounded(p: int)
    requires
        0 <= p < 256,
    ensures
        0 <= wheel_spec(p).r <= 255,
        0 <= wheel_spec(p).g <= 255,
        0 <= wheel_spec(p).b <= 255,
{
}

/// The wheel is continuous: adjacent positions (wrapping at 255) differ
/// by at most 3 in every channel.
pub proof fn lemma_wheel_continuous(p: int)
    requires
        0 <= p < 256,
    ensures
        channel_diff(wheel_spec(p).r, wheel_spec((p + 1) % 256).r) <= 3,
        channel_diff(wheel_spec(p).g, wheel_spec((p + 1) % 256).g) <= 3,
        channel_diff(wheel_spec(p).b, wheel_spec((p + 1) % 256).b) <= 3,
{
    let q = (p + 1) % 256;
    if p == 255 {
        assert(q == 0);
    } else {
        assert(q == p + 1);
    }
}

} // verus!
