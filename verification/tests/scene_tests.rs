//! The per-frame gradient, the assembled frame and the static background.

use rose_curve::background::{build_background, region_speckles, SpeckleRegion, SpeckleRng};
use rose_curve::color::Color;
use rose_curve::curve::SceneConstants;
use rose_curve::fixed::{FX_ONE, FX_SQ};
use rose_curve::scene::{frame_geometry, gradient_at};

#[test]
fn gradient_is_anchored_at_time_zero() {
    let (inner, outer) = gradient_at(0);
    // The phase of the inner green channel is zero, where the sine vanishes.
    assert_eq!(inner.r, FX_ONE as u32);
    assert_eq!(inner.g, 26214);
    assert_eq!(outer.r, 58982);
    assert_eq!(inner.a, FX_ONE as u32);
    assert_eq!(outer.a, FX_ONE as u32);
}

#[test]
fn gradient_channels_stay_inside_their_swing() {
    for t in [0u64, 700, 12345, 999999] {
        let (inner, outer) = gradient_at(t);
        assert!(26214 - 13107 <= inner.g && inner.g <= 26214 + 13107);
        assert!(19661 - 13107 <= inner.b && inner.b <= 19661 + 13107);
        assert!(19661 - 13107 <= outer.g && outer.g <= 19661 + 13107);
        assert!(19661 - 13107 <= outer.b && outer.b <= 19661 + 13107);
    }
}

#[test]
fn gradient_is_deterministic() {
    assert_eq!(gradient_at(31415), gradient_at(31415));
}

#[test]
fn frame_holds_the_whole_pipeline() {
    let c = SceneConstants::new(800, 600);
    let f = frame_geometry(&c, 1234);
    assert_eq!(f.points.len(), 3601);
    assert_eq!(f.triangles.len(), 3600);
    assert_eq!(f.outline.len(), 7200);
    let (inner, outer) = gradient_at(1234);
    assert_eq!(f.inner, inner);
    assert_eq!(f.outer, outer);
}

#[test]
fn speckle_counts_are_fixed_at_fifty_per_region() {
    let b = build_background(800, 600, 7);
    assert_eq!(b.sky_speckles.len(), 50);
    assert_eq!(b.ground_speckles.len(), 50);
}

#[test]
fn background_is_pinned_by_seed_and_size() {
    // Rebuilding the decoration gives the same values, so nothing can
    // change from frame to frame.
    let b1 = build_background(800, 600, 42);
    let b2 = build_background(800, 600, 42);
    assert_eq!(b1.sky_speckles, b2.sky_speckles);
    assert_eq!(b1.ground_speckles, b2.ground_speckles);
    assert_eq!(b1.clouds, b2.clouds);
    assert_eq!(b1.sky, b2.sky);
    assert_eq!(b1.ground, b2.ground);
    assert_eq!(b1.stem, b2.stem);
}

#[test]
fn background_layout_follows_the_screen() {
    let b = build_background(800, 600, 3);
    assert_eq!((b.sky.x, b.sky.y), (0, 0));
    assert_eq!(b.sky.w, 800 * FX_SQ);
    assert_eq!(b.sky.h, 480 * FX_SQ);
    assert_eq!(b.ground.y, 480 * FX_SQ);
    assert_eq!(b.ground.h, 120 * FX_SQ);
    assert_eq!(b.clouds.len(), 9);
    assert_eq!(b.stem.len(), 2);
    assert_eq!(b.stem[0].width, 10);
    assert_eq!(b.stem[1].width, 6);
    assert_eq!(b.stem[0].x0, 400 * FX_SQ);
    assert_eq!(b.stem[0].y0, 600 * FX_SQ);
    assert_eq!(b.stem[0].y1, 310 * FX_SQ);
}

#[test]
fn speckles_stay_inside_their_region() {
    let region = SpeckleRegion {
        w: 800 * FX_SQ,
        y_lo: 0,
        y_hi: 480 * FX_SQ,
        r_lo: 5 * FX_SQ,
        r_hi: 15 * FX_SQ,
        base: Color { r: 17334, g: 26477, b: 30212, a: FX_ONE as u32 },
    };
    let mut rng = SpeckleRng::new(99);
    let sp = region_speckles(&region, &mut rng);
    assert_eq!(sp.len(), 50);
    for s in &sp {
        assert!(0 <= s.x && s.x < region.w);
        assert!(region.y_lo <= s.y && s.y < region.y_hi);
        assert!(region.r_lo <= s.radius && s.radius < region.r_hi);
        assert!(s.color.r <= FX_ONE as u32);
        assert!(s.color.g <= FX_ONE as u32);
        assert!(s.color.b <= FX_ONE as u32);
        assert_eq!(s.color.a, FX_ONE as u32);
    }
}

#[test]
fn speckle_tints_are_clamped_to_the_displayable_range() {
    // A pure white base can only be tinted downwards or clamped at full
    // intensity; a pure black base only upwards or clamped at zero.
    let white_region = SpeckleRegion {
        w: 10 * FX_SQ,
        y_lo: 0,
        y_hi: 10 * FX_SQ,
        r_lo: FX_SQ,
        r_hi: 2 * FX_SQ,
        base: Color { r: 65536, g: 0, b: 65536, a: 65536 },
    };
    let mut rng = SpeckleRng::new(5);
    let sp = region_speckles(&white_region, &mut rng);
    let mut saw_clamped_high = false;
    let mut saw_clamped_low = false;
    for s in &sp {
        assert!(s.color.r <= 65536);
        assert!(s.color.b <= 65536);
        assert_eq!(s.color.r, s.color.b);
        if s.color.r == 65536 {
            saw_clamped_high = true;
        }
        if s.color.g == 0 {
            saw_clamped_low = true;
        }
    }
    assert!(saw_clamped_high);
    assert!(saw_clamped_low);
}
