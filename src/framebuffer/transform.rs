use vstd::prelude::*;

use crate::colour::Colour;

verus! {

/// Side of the square blue noise tile that the dithering repeats.
pub const DITHER_PITCH: u32 = 128;

/// Drift of the sixteen-level dither for a blue noise level: maps
/// `{0 .. 255}` to `{-8 .. 8}`, as the gap between two successive levels is 17.
pub open spec fn spec_g16_drift(v: u8) -> int {
    if v <= 119 {
        v / 15 - 8
    } else if v == 120 {
        0
    } else {
        (v - 121) / 15
    }
}

/// Drift of the two-level dither for a blue noise level: maps
/// `{0 .. 255}` to `{-128 .. 127}`.
pub open spec fn spec_g2_drift(v: u8) -> int {
    v - 128
}

pub fn g16_drift(v: u8) -> (r: i8)
    ensures
        r == spec_g16_drift(v),
{
    if v <= 119 {
        (v as i8) / 15 - 8
    } else if v == 120 {
        0
    } else {
        ((v - 121) / 15) as i8
    }
}

pub fn g2_drift(v: u8) -> (r: i8)
    ensures
        r == spec_g2_drift(v),
{
    if v <= 127 {
        -128 + (v as i8)
    } else {
        (v - 128) as i8
    }
}

/// Position of the drift for pixel `(x, y)` in a tile stored row by row.
pub open spec fn dither_addr(x: u32, y: u32) -> int {
    (x % DITHER_PITCH) + (y % DITHER_PITCH) * DITHER_PITCH
}

pub open spec fn clamp_level(c: int) -> int {
    if c < 0 {
        0
    } else if c > 255 {
        255
    } else {
        c
    }
}

/// The multiple of 17 nearest to `c`, ties going down.
pub open spec fn nearest_g16(c: int) -> int {
    let d = c % 17;
    if d < 9 {
        c - d
    } else {
        c + (17 - d)
    }
}

/// Ordered dithering to the sixteen grey levels `{17 * i | i in 0 .. 15}`.
/// `drifts` is the blue noise tile, `DITHER_PITCH` samples per row.
pub fn transform_dither_g16(x: u32, y: u32, color: Colour, drifts: &[i8]) -> (r: Colour)
    requires
        drifts@.len() >= DITHER_PITCH * DITHER_PITCH,
    ensures
        r == Colour::Grey(
            nearest_g16(clamp_level(color.spec_grey() + drifts@[dither_addr(x, y)])) as u8,
        ),
{
    let grey = color.grey();
    let addr = (x % DITHER_PITCH) + (y % DITHER_PITCH) * DITHER_PITCH;
    let mut c: i16 = grey as i16 + drifts[addr as usize] as i16;
    if c < 0 {
        c = 0;
    } else if c > 255 {
        c = 255;
    }
    let d = c % 17;
    Colour::Grey(
        if d < 9 {
            (c - d) as u8
        } else {
            (c + (17 - d)) as u8
        },
    )
}

/// Ordered dithering to black and white.
/// `drifts` is the blue noise tile, `DITHER_PITCH` samples per row.
pub fn transform_dither_g2(x: u32, y: u32, color: Colour, drifts: &[i8]) -> (r: Colour)
    requires
        drifts@.len() >= DITHER_PITCH * DITHER_PITCH,
    ensures
        r == Colour::Grey(
            if clamp_level(color.spec_grey() + drifts@[dither_addr(x, y)]) < 128 {
                0
            } else {
                255
            },
        ),
{
    let grey = color.grey();
    let addr = (x % DITHER_PITCH) + (y % DITHER_PITCH) * DITHER_PITCH;
    let mut c: i16 = grey as i16 + drifts[addr as usize] as i16;
    if c < 0 {
        c = 0;
    } else if c > 255 {
        c = 255;
    }
    Colour::Grey(
        if c < 128 {
            0
        } else {
            255
        },
    )
}

/// Leaves the colour as it is.
pub fn transform_identity(_x: u32, _y: u32, color: Colour) -> (r: Colour)
    ensures
        r == color,
{
    color
}

} // verus!
