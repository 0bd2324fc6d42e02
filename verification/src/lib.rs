//! Animation engine for a fixed-length addressable LED strip.
//!
//! Four generators (static, pulse, wheel, beacon) each produce a pixel
//! buffer per tick; a mode controller advances through them on button
//! press edges; the engine ties both together into one tick function.

pub mod color;
pub mod engine;
pub mod patterns;
pub mod wheel;

use vstd::prelude::*;

verus! {

/// Number of LEDs on the strip. Every pixel buffer has exactly this length.
pub const NUM_PX: usize = 39;

/// Number of selectable modes: off, static white, static red, pulse,
/// wheel, beacon.
pub const NUM_MODES: u8 = 6;

} // verus!
