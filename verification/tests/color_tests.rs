//! The color interpolator and the fixed-point trigonometry it leans on.

use rose_curve::color::{lerp_color, Color};
use rose_curve::fixed::{cos_fx, sin_fx, FX_ONE, HALF_TURN, QUARTER_TURN};

#[test]
fn sine_is_exact_at_the_cardinal_angles() {
    assert_eq!(sin_fx(0), 0);
    assert_eq!(sin_fx(QUARTER_TURN), FX_ONE);
    assert_eq!(sin_fx(HALF_TURN), 0);
    assert_eq!(sin_fx(HALF_TURN + QUARTER_TURN), -FX_ONE);
}

#[test]
fn sine_of_an_eighth_turn_matches_the_parabola() {
    // 4 * 65536 * 32768 * 98304 / 131072^2 == 49152
    assert_eq!(sin_fx(32768), 49152);
}

#[test]
fn cosine_is_the_sine_a_quarter_turn_ahead() {
    assert_eq!(cos_fx(0), FX_ONE);
    assert_eq!(cos_fx(QUARTER_TURN), 0);
    assert_eq!(cos_fx(HALF_TURN), -FX_ONE);
}

#[test]
fn sine_stays_within_one_unit() {
    let mut a: u64 = 0;
    while a < 262144 {
        let s = sin_fx(a);
        assert!(-FX_ONE <= s && s <= FX_ONE);
        a += 97;
    }
}

#[test]
fn lerp_alpha_is_always_opaque() {
    let a = Color { r: 100, g: 200, b: 300, a: 123 };
    let b = Color { r: 65536, g: 0, b: 40000, a: 9999 };
    for t in [0u32, 1, 1000, 32768, 65535, 65536] {
        assert_eq!(lerp_color(a, b, t).a, FX_ONE as u32);
    }
}

#[test]
fn lerp_returns_the_endpoints_exactly() {
    let a = Color { r: 11, g: 22, b: 33, a: 0 };
    let b = Color { r: 44, g: 55, b: 66, a: 70000 };
    let at_zero = lerp_color(a, b, 0);
    assert_eq!((at_zero.r, at_zero.g, at_zero.b), (a.r, a.g, a.b));
    let at_one = lerp_color(a, b, FX_ONE as u32);
    assert_eq!((at_one.r, at_one.g, at_one.b), (b.r, b.g, b.b));
}

#[test]
fn lerp_midpoint_is_exact() {
    let a = Color { r: 0, g: 65536, b: 100, a: 65536 };
    let b = Color { r: 65536, g: 0, b: 300, a: 65536 };
    let mid = lerp_color(a, b, 32768);
    assert_eq!(mid.r, 32768);
    assert_eq!(mid.g, 32768);
    assert_eq!(mid.b, 200);
}
