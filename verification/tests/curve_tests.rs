//! The curve sampler, the mesher and the outline pass.

use rose_curve::curve::{sample_curve, SceneConstants};
use rose_curve::fixed::{sin_fx, FX_ONE, FX_SQ, TURN};
use rose_curve::mesh::mesh;
use rose_curve::outline::outline;

fn scene() -> SceneConstants {
    SceneConstants::new(800, 600)
}

#[test]
fn scene_constants_match_the_screen() {
    let c = scene();
    assert_eq!(c.a, 150);
    assert_eq!(c.k, 4);
    assert_eq!(c.steps, 3600);
    assert_eq!(c.cx, 400 * FX_SQ);
    assert_eq!(c.cy, 300 * FX_SQ);
}

#[test]
fn sample_length_is_steps_plus_one() {
    let c = scene();
    for t in [0u64, 1, 500, 123456] {
        assert_eq!(sample_curve(&c, t).len(), 3601);
    }
    let small = SceneConstants { a: 10, k: 3, steps: 8, cx: FX_SQ, cy: FX_SQ };
    assert_eq!(sample_curve(&small, 77).len(), 9);
}

#[test]
fn sampling_is_deterministic() {
    let c = scene();
    let s1 = sample_curve(&c, 987654);
    let s2 = sample_curve(&c, 987654);
    assert_eq!(s1, s2);
}

#[test]
fn radius_follows_the_petal_formula_whatever_the_rotation() {
    let c = scene();
    let at_rest = sample_curve(&c, 0);
    let swaying = sample_curve(&c, 5000);
    for i in (0..3601).step_by(37) {
        let theta0 = i as u64 * TURN / 3600;
        let expected = (150 * sin_fx(c.k * theta0 % TURN)).abs();
        assert_eq!(at_rest[i].radius, expected);
        assert_eq!(swaying[i].radius, expected);
    }
}

#[test]
fn first_point_of_the_resting_rose_sits_at_the_centre() {
    // theta0 == 0 gives r == 0, so the point is exactly the centre.
    let c = scene();
    let pts = sample_curve(&c, 0);
    assert_eq!(pts[0].x, c.cx);
    assert_eq!(pts[0].y, c.cy);
    assert_eq!(pts[0].radius, 0);
}

#[test]
fn radius_vanishes_an_eighth_turn_in() {
    // At i == steps / 8 the petal angle is exactly half a turn, where the
    // sine has its second zero.
    let c = scene();
    let pts = sample_curve(&c, 0);
    let i = 3600 / 8;
    assert_eq!(i as u64 * TURN / 3600, TURN / 8);
    assert_eq!(pts[i].radius, 0);
}

#[test]
fn mesher_emits_one_triangle_per_pair() {
    let c = scene();
    let inner = rose_curve::color::Color { r: 65536, g: 0, b: 0, a: 65536 };
    let outer = rose_curve::color::Color { r: 0, g: 65536, b: 0, a: 65536 };
    let pts = sample_curve(&c, 250);
    let tris = mesh(&pts, inner, outer, c.a, c.cx, c.cy);
    assert_eq!(tris.len(), 3600);
    for (j, tri) in tris.iter().enumerate() {
        assert_eq!((tri.x0, tri.y0), (c.cx, c.cy));
        assert_eq!((tri.x1, tri.y1), (pts[j].x, pts[j].y));
        assert_eq!((tri.x2, tri.y2), (pts[j + 1].x, pts[j + 1].y));
    }
}

#[test]
fn gradient_parameter_stays_in_range() {
    let c = scene();
    let pts = sample_curve(&c, 333);
    for j in 0..3600 {
        let t_mid = (pts[j].radius + pts[j + 1].radius) / (2 * c.a);
        assert!(0 <= t_mid && t_mid <= FX_ONE);
    }
}

#[test]
fn outline_strokes_every_pair_underlay_first() {
    let c = scene();
    let pts = sample_curve(&c, 42);
    let segs = outline(&pts);
    assert_eq!(segs.len(), 2 * 3600);
    for j in 0..3600 {
        let under = &segs[2 * j];
        let over = &segs[2 * j + 1];
        assert_eq!((under.x0, under.y0, under.x1, under.y1), (pts[j].x, pts[j].y, pts[j + 1].x, pts[j + 1].y));
        assert_eq!((over.x0, over.y0, over.x1, over.y1), (pts[j].x, pts[j].y, pts[j + 1].x, pts[j + 1].y));
        assert_eq!(under.width, 4);
        assert_eq!(over.width, 2);
        assert_eq!((under.color.r, under.color.g, under.color.b), (0, 0, 0));
        assert_eq!(over.color.r, 58982);
    }
}
