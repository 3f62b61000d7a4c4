//! Quantization of colors for the image output: the exact gamma-two mapping
//! from a fixed-point channel to a byte.

use vstd::prelude::*;

use crate::fixed::{
    fx_sqrt, is_sqrt_floor, lemma_sqrt_floor, lemma_sqrt_monotone, lemma_sqrt_unique, spec_sqrt,
    sqrt_floor, tdiv, FX_ONE,
};
use crate::marcher::Color;

verus! {

/// A channel value `v` maps to `0` below zero, `255` above one, and
/// otherwise to `sqrt(v) * 255.999` rounded down: a gamma-two approximation.
pub open spec fn spec_cast_pixel(v: i64) -> u8 {
    if v < 0 {
        0
    } else if v > FX_ONE {
        255
    } else {
        tdiv(spec_sqrt(v) * 255999, 65536000) as u8
    }
}

pub fn cast_pixel(v: i64) -> (r: u8)
    ensures
        r == spec_cast_pixel(v),
{
    if v < 0 {
        0
    } else if v > FX_ONE {
        255
    } else {
        let s = fx_sqrt(v);
        proof {
            lemma_sqrt_floor(v * FX_ONE);
            lemma_sqrt_monotone(v * FX_ONE, 4294967296);
            assert(65536 * 65536 == 4294967296);
            assert(is_sqrt_floor(4294967296, 65536));
            lemma_sqrt_floor(4294967296);
            lemma_sqrt_unique(4294967296, sqrt_floor(4294967296), 65536);
            assert(s <= 65536);
            vstd::arithmetic::div_mod::lemma_div_is_ordered(
                s * 255999,
                16777150464,
                65536000,
            );
            assert(16777150464int / 65536000int == 255);
            vstd::arithmetic::div_mod::lemma_div_pos_is_pos(s * 255999, 65536000);
        }
        (((s as i128) * 255999) / 65536000) as u8
    }
}

/// The three quantized channels of a color, in storage order.
pub fn color_triple(c: &Color) -> (r: (u8, u8, u8))
    ensures
        r.0 == spec_cast_pixel(c.x),
        r.1 == spec_cast_pixel(c.y),
        r.2 == spec_cast_pixel(c.z),
{
    (cast_pixel(c.x()), cast_pixel(c.y()), cast_pixel(c.z()))
}

} // verus!
