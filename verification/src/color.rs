//! Colors and the linear color interpolator.
//!
//! A channel carries 16 fractional bits: `FX_ONE` is full intensity.  The
//! blend is computed exactly in integers, so the endpoint laws hold with
//! equality rather than up to a floating tolerance.

use crate::fixed::FX_ONE;
use vstd::prelude::*;

verus! {

/// An RGBA color; each channel carries 16 fractional bits, `FX_ONE` being
/// full intensity.  Channels are unsigned and never negative.
#[derive(Clone, Copy, PartialEq, Eq, Structural, Debug)]
pub struct Color {
    pub r: u32,
    pub g: u32,
    pub b: u32,
    pub a: u32,
}

/// Linear interpolation of one channel: `a` at parameter 0, `b` at
/// parameter `FX_ONE`.
pub open spec fn lerp_channel_spec(a: int, b: int, t: int) -> int {
    (a * (FX_ONE - t) + b * t) / (FX_ONE as int)
}

/// The blend of two colors at parameter `t`: each color channel is
/// interpolated independently, and the result is fully opaque whatever
/// the inputs' alphas.
pub open spec fn lerp_color_spec(a: Color, b: Color, t: int) -> Color {
    Color {
        r: lerp_channel_spec(a.r as int, b.r as int, t) as u32,
        g: lerp_channel_spec(a.g as int, b.g as int, t) as u32,
        b: lerp_channel_spec(a.b as int, b.b as int, t) as u32,
        a: FX_ONE as u32,
    }
}

/// One channel of the blend.
fn lerp_channel(a: u32, b: u32, t: u32) -> (v: u32)
    requires
        t <= FX_ONE,
    ensures
        v == lerp_channel_spec(a as int, b as int, t as int),
{
    proof {
        let ai = a as int;
        let bi = b as int;
        let ti = t as int;
        assert(0 <= ai * (65536 - ti) + bi * ti <= 4294967295 * 65536) by (nonlinear_arith)
            requires
                0 <= ai <= 4294967295,
                0 <= bi <= 4294967295,
                0 <= ti <= 65536,
        ;
        vstd::arithmetic::div_mod::lemma_div_pos_is_pos(ai * (65536 - ti) + bi * ti, 65536);
        vstd::arithmetic::div_mod::lemma_div_is_ordered(
            ai * (65536 - ti) + bi * ti,
            4294967295int * 65536,
            65536,
        );
        vstd::arithmetic::div_mod::lemma_div_by_multiple(4294967295, 65536);
    }
    let num: u64 = (a as u64) * ((FX_ONE as u64) - (t as u64)) + (b as u64) * (t as u64);
    (num / (FX_ONE as u64)) as u32
}

/// Blends two colors channel by channel.  The result's alpha is always
/// `FX_ONE` — fully opaque — whatever alphas the inputs carry.  The
/// parameter is expected in `[0, FX_ONE]`; callers keep it in range.
pub fn lerp_color(a: Color, b: Color, t: u32) -> (c: Color)
    requires
        t <= FX_ONE,
    ensures
        c == lerp_color_spec(a, b, t as int),
        c.a == FX_ONE,
{
    Color {
        r: lerp_channel(a.r, b.r, t),
        g: lerp_channel(a.g, b.g, t),
        b: lerp_channel(a.b, b.b, t),
        a: FX_ONE as u32,
    }
}

/// The blend is fully opaque at every parameter, whatever the inputs'
/// alpha channels hold.
pub proof fn lemma_lerp_opaque(a: Color, b: Color, t: int)
    ensures
        lerp_color_spec(a, b, t).a == FX_ONE,
{
}

/// At the endpoints the blend returns the corresponding input's color
/// channels exactly; only the alpha is still forced to full opacity.
pub proof fn lemma_lerp_endpoints(a: Color, b: Color)
    ensures
        lerp_color_spec(a, b, 0).r == a.r,
        lerp_color_spec(a, b, 0).g == a.g,
        lerp_color_spec(a, b, 0).b == a.b,
        lerp_color_spec(a, b, FX_ONE as int).r == b.r,
        lerp_color_spec(a, b, FX_ONE as int).g == b.g,
        lerp_color_spec(a, b, FX_ONE as int).b == b.b,
{
    vstd::arithmetic::div_mod::lemma_div_by_multiple(a.r as int, 65536);
    vstd::arithmetic::div_mod::lemma_div_by_multiple(a.g as int, 65536);
    vstd::arithmetic::div_mod::lemma_div_by_multiple(a.b as int, 65536);
    vstd::arithmetic::div_mod::lemma_div_by_multiple(b.r as int, 65536);
    vstd::arithmetic::div_mod::lemma_div_by_multiple(b.g as int, 65536);
    vstd::arithmetic::div_mod::lemma_div_by_multiple(b.b as int, 65536);
}

/// Solid black.
pub open spec fn black_spec() -> Color {
    Color { r: 0, g: 0, b: 0, a: FX_ONE as u32 }
}

/// The stroke red of the outline overlay.
pub open spec fn stroke_red_spec() -> Color {
    Color { r: 58982, g: 10486, b: 14418, a: FX_ONE as u32 }
}

/// The halved sky blue of the backdrop.
pub open spec fn sky_blue_spec() -> Color {
    Color { r: 17334, g: 26477, b: 30212, a: FX_ONE as u32 }
}

/// The halved grass green of the ground.
pub open spec fn grass_green_spec() -> Color {
    Color { r: 0, g: 32768, b: 0, a: FX_ONE as u32 }
}

/// The dark green of the stem fill.
pub open spec fn stem_green_spec() -> Color {
    Color { r: 0, g: 19661, b: 0, a: FX_ONE as u32 }
}

/// Solid black, as a value.
pub fn black() -> (c: Color)
    ensures
        c == black_spec(),
{
    Color { r: 0, g: 0, b: 0, a: FX_ONE as u32 }
}

/// The stroke red of the outline overlay, as a value.
pub fn stroke_red() -> (c: Color)
    ensures
        c == stroke_red_spec(),
{
    Color { r: 58982, g: 10486, b: 14418, a: FX_ONE as u32 }
}

/// The halved sky blue of the backdrop, as a value.
pub fn sky_blue() -> (c: Color)
    ensures
        c == sky_blue_spec(),
{
    Color { r: 17334, g: 26477, b: 30212, a: FX_ONE as u32 }
}

/// The halved grass green of the ground, as a value.
pub fn grass_green() -> (c: Color)
    ensures
        c == grass_green_spec(),
{
    Color { r: 0, g: 32768, b: 0, a: FX_ONE as u32 }
}

/// The dark green of the stem fill, as a value.
pub fn stem_green() -> (c: Color)
    ensures
        c == stem_green_spec(),
{
    Color { r: 0, g: 19661, b: 0, a: FX_ONE as u32 }
}

} // verus!
