//! Colours and the HSV-to-RGB colour mapper.
//!
//! Hue, saturation and value are fixed-point fractions in `[0, FP_ONE]`,
//! standing for the real interval `[0, 1]`. Channels of the resulting
//! colour are 8-bit integers.

use crate::fixed::{mul_frac, DEG_FULL, FP_ONE};
use vstd::arithmetic::div_mod::lemma_div_is_ordered;
use vstd::prelude::*;

verus! {

/// An 8-bit RGB colour.
#[derive(Clone, Copy, Debug, PartialEq, Eq, Structural)]
pub struct Rgb {
    pub r: u8,
    pub g: u8,
    pub b: u8,
}

/// The colouring strategy for the vertices of the fractal polygon.
#[derive(Clone, Copy, Debug, PartialEq, Eq, Structural)]
pub enum ColourType {
    White,
    Coloured,
}

/// A fixed-point fraction in `[0, 1]` scaled to an 8-bit channel value.
pub open spec fn channel_spec(x: int) -> int {
    x * 255 / (FP_ONE as int)
}

/// The three channel values, as integers in `[0, 255]`, of the colour
/// with the given fixed-point hue, saturation and value; the standard
/// sector decomposition of HSV space, with the sector taken modulo six.
pub open spec fn hsv_channels_spec(h: int, s: int, v: int) -> (int, int, int) {
    if s == 0 {
        (channel_spec(v), channel_spec(v), channel_spec(v))
    } else {
        let fp = FP_ONE as int;
        let sector = h * 6 / fp % 6;
        let f = h * 6 % fp;
        let p = v * (fp - s) / fp;
        let q = v * (fp - s * f / fp) / fp;
        let t = v * (fp - s * (fp - f) / fp) / fp;
        let rgb = if sector == 0 {
            (v, t, p)
        } else if sector == 1 {
            (q, v, p)
        } else if sector == 2 {
            (p, v, t)
        } else if sector == 3 {
            (p, q, v)
        } else if sector == 4 {
            (t, p, v)
        } else {
            (v, p, q)
        };
        (channel_spec(rgb.0), channel_spec(rgb.1), channel_spec(rgb.2))
    }
}

/// A fixed-point fraction in `[0, 1]` scaled to an 8-bit channel value.
fn channel(x: u64) -> (r: u8)
    requires
        x <= FP_ONE,
    ensures
        r == channel_spec(x as int),
{
    proof {
        lemma_div_is_ordered(x as int * 255, FP_ONE as int * 255, FP_ONE as int);
    }
    ((x * 255) / (FP_ONE as u64)) as u8
}

/// Converts a colour from HSV to RGB colour space. `h`, `s` and `v` are
/// fixed-point fractions in `[0, FP_ONE]`, standing for `[0.0, 1.0]`.
pub fn hsv_to_rgb(h: i64, s: i64, v: i64) -> (r: Rgb)
    requires
        0 <= h <= FP_ONE,
        0 <= s <= FP_ONE,
        0 <= v <= FP_ONE,
    ensures
        r.r == hsv_channels_spec(h as int, s as int, v as int).0,
        r.g == hsv_channels_spec(h as int, s as int, v as int).1,
        r.b == hsv_channels_spec(h as int, s as int, v as int).2,
{
    let hu = h as u64;
    let su = s as u64;
    let vu = v as u64;
    if su == 0 {
        let val = channel(vu);
        return Rgb { r: val, g: val, b: val };
    }

    let hue_sector: u64 = hu * 6;
    let sector: u64 = hue_sector / (FP_ONE as u64) % 6;
    let f: u64 = hue_sector % (FP_ONE as u64);

    let p = mul_frac(vu, (FP_ONE as u64) - su);
    let q = mul_frac(vu, (FP_ONE as u64) - mul_frac(su, f));
    let t = mul_frac(vu, (FP_ONE as u64) - mul_frac(su, (FP_ONE as u64) - f));

    let (cr, cg, cb): (u64, u64, u64) = if sector == 0 {
        (vu, t, p)
    } else if sector == 1 {
        (q, vu, p)
    } else if sector == 2 {
        (p, vu, t)
    } else if sector == 3 {
        (p, q, vu)
    } else if sector == 4 {
        (t, p, vu)
    } else {
        (vu, p, q)
    };
    Rgb { r: channel(cr), g: channel(cg), b: channel(cb) }
}

/// The colour that a given strategy assigns to a vertex whose angular
/// coordinate, reduced to one turn, is `angle` fixed-point degrees:
/// opaque white, or the fully saturated hue at `angle / 360` of the
/// colour wheel.
pub open spec fn colour_spec(colour_type: ColourType, angle: int) -> (int, int, int) {
    match colour_type {
        ColourType::White => (255, 255, 255),
        ColourType::Coloured => hsv_channels_spec(angle / 360, FP_ONE as int, FP_ONE as int),
    }
}

impl ColourType {
    /// Calculates the RGB colour of a point based on the colour type and
    /// its angular coordinate in fixed-point degrees, reduced to one turn.
    pub fn get_colour(&self, angle: i64) -> (r: Rgb)
        requires
            0 <= angle < DEG_FULL,
        ensures
            r.r == colour_spec(*self, angle as int).0,
            r.g == colour_spec(*self, angle as int).1,
            r.b == colour_spec(*self, angle as int).2,
    {
        match self {
            ColourType::White => Rgb { r: 255, g: 255, b: 255 },
            ColourType::Coloured => hsv_to_rgb(angle / 360, FP_ONE, FP_ONE),
        }
    }
}

} // verus!
