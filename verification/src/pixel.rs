//! RGBA pixels and the integer side of colour construction.

use vstd::prelude::*;

verus! {

/// One RGBA sample of the output buffer.
#[derive(Clone, Copy, Debug, PartialEq, Eq, Structural)]
pub struct Pixel {
    pub r: u8,
    pub g: u8,
    pub b: u8,
    pub a: u8,
}

/// The nearest channel value to `v`: `v` itself inside `0..=255`, else the end it lies beyond.
pub open spec fn clamp_channel(v: int) -> u8 {
    if v < 0 {
        0u8
    } else if v > 255 {
        255u8
    } else {
        v as u8
    }
}

/// The pixel of the three-band ramp at value `v`.
///
/// For an aggregate result (`channels <= 1`) the ramp runs through red, green and blue in
/// turn: red rises over `0..=255`, green over `255..=510`, blue over `510..=765`.
/// For a result that belongs to one basin out of several, `v` lights the band of that basin
/// alone; basins beyond the third reuse the bands in the same order.
pub open spec fn spectrum_of(v: int, channel: int, channels: int) -> Pixel {
    if channels <= 1 {
        Pixel { r: clamp_channel(v), g: clamp_channel(v - 255), b: clamp_channel(v - 510), a: 255 }
    } else if channel % 3 == 0 {
        Pixel { r: clamp_channel(v), g: 0, b: 0, a: 255 }
    } else if channel % 3 == 1 {
        Pixel { r: 0, g: clamp_channel(v), b: 0, a: 255 }
    } else {
        Pixel { r: 0, g: 0, b: clamp_channel(v), a: 255 }
    }
}

/// Clamps one channel level into a byte.
fn clamp_level(v: i64) -> (c: u8)
    ensures
        c == clamp_channel(v as int),
{
    if v < 0 {
        0
    } else if v > 255 {
        255
    } else {
        v as u8
    }
}

impl Pixel {
    pub fn new(r: u8, g: u8, b: u8, a: u8) -> (p: Pixel)
        ensures
            p == (Pixel { r, g, b, a }),
    {
        Pixel { r, g, b, a }
    }

    /// An opaque pixel whose channels are the given levels, each clamped to `0..=255`.
    ///
    /// The levels are whole numbers: a caller that works with real-valued levels rounds
    /// them first.
    pub fn clamped(r: i64, g: i64, b: i64) -> (p: Pixel)
        ensures
            p == (Pixel {
                r: clamp_channel(r as int),
                g: clamp_channel(g as int),
                b: clamp_channel(b as int),
                a: 255,
            }),
    {
        Pixel { r: clamp_level(r), g: clamp_level(g), b: clamp_level(b), a: 255 }
    }

    /// An opaque pixel of the given colour.
    pub fn from_color(red: u8, green: u8, blue: u8) -> (p: Pixel)
        ensures
            p == (Pixel { r: red, g: green, b: blue, a: 255 }),
    {
        Pixel { r: red, g: green, b: blue, a: 255 }
    }

    /// The spectrum-sweep pixel for the ramp value `v` of a result in basin `channel` out of
    /// `channels`.
    pub fn spectrum(v: i64, channel: usize, channels: usize) -> (p: Pixel)
        ensures
            p == spectrum_of(v as int, channel as int, channels as int),
    {
        if channels <= 1 {
            // Beyond either end of the ramp every band is already at its limit.
            let w: i64 = if v < 0 {
                0
            } else if v > 765 {
                765
            } else {
                v
            };
            Pixel::clamped(w, w - 255, w - 510)
        } else if channel % 3 == 0 {
            Pixel::clamped(v, 0, 0)
        } else if channel % 3 == 1 {
            Pixel::clamped(0, v, 0)
        } else {
            Pixel::clamped(0, 0, v)
        }
    }

    /// Opaque black: the background of every point without a result.
    pub fn black() -> (p: Pixel)
        ensures
            p == (Pixel { r: 0, g: 0, b: 0, a: 255 }),
    {
        Pixel::new(0, 0, 0, 255)
    }

    /// Transparent black: the content of a buffer that has not been rendered.
    pub fn void() -> (p: Pixel)
        ensures
            p == (Pixel { r: 0, g: 0, b: 0, a: 0 }),
    {
        Pixel::new(0, 0, 0, 0)
    }

    /// Overwrites this pixel with `source`.
    pub fn from(&mut self, source: Pixel)
        ensures
            *final(self) == source,
    {
        self.r = source.r;
        self.g = source.g;
        self.b = source.b;
        self.a = source.a;
    }
}

} // verus!
