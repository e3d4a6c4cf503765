//! The mesher: one filled triangle per consecutive pair of sample points,
//! fan-anchored at the curve's centre, each carrying a flat colour read
//! off the gradient at the pair's mean radius-to-amplitude ratio.

use crate::color::{lerp_color, lerp_color_spec, Color};
use crate::curve::{curve_point_spec, lemma_radius_bounded, CurvePoint, SceneConstants};
use crate::fixed::FX_ONE;
use vstd::prelude::*;

verus! {

/// One filled triangle of the fan: the curve's centre and two consecutive
/// sample points, with its flat colour.
#[derive(Clone, Copy, PartialEq, Eq, Structural, Debug)]
pub struct Triangle {
    /// The fan anchor (the curve's centre), in pixels with 32 fractional bits.
    pub x0: i64,
    pub y0: i64,
    /// The earlier sample point of the pair.
    pub x1: i64,
    pub y1: i64,
    /// The later sample point of the pair.
    pub x2: i64,
    pub y2: i64,
    /// The triangle's flat colour.
    pub color: Color,
}

/// The gradient parameter of a pair of radii: the mean of their
/// radius-to-amplitude ratios, in `FX_ONE` units.
pub open spec fn t_mid_spec(r0: int, r1: int, a: int) -> int
    recommends
        a > 0,
{
    (r0 + r1) / (2 * a)
}

/// The gradient parameter always lies in `[0, FX_ONE]` when the amplitude
/// is positive and both radii are bounded by it, as every sampled radius
/// is.  (A zero amplitude would collapse every point onto the centre; the
/// scene constants keep the amplitude at least one pixel, and the mesher
/// requires the same.)
pub proof fn lemma_gradient_param_in_range(r0: int, r1: int, a: int)
    requires
        a > 0,
        0 <= r0 <= a * FX_ONE,
        0 <= r1 <= a * FX_ONE,
    ensures
        0 <= t_mid_spec(r0, r1, a) <= FX_ONE,
{
    assert(r0 + r1 <= 2 * a * 65536);
    vstd::arithmetic::div_mod::lemma_div_pos_is_pos(r0 + r1, 2 * a);
    vstd::arithmetic::div_mod::lemma_div_is_ordered(r0 + r1, 2 * a * 65536, 2 * a);
    assert((2 * a * 65536) / (2 * a) == 65536) by (nonlinear_arith)
        requires
            a >= 1,
    ;
}

/// Every triangle the mesher emits for a sampled frame has its gradient
/// parameter in `[0, FX_ONE]`: the sampled radii never exceed the
/// amplitude, whatever the elapsed time.
pub proof fn lemma_sampled_gradient_param_in_range(c: SceneConstants, t: int, j: int)
    requires
        c.wf(),
    ensures
        0 <= t_mid_spec(
            curve_point_spec(c, j, t).radius as int,
            curve_point_spec(c, j + 1, t).radius as int,
            c.a as int,
        ) <= FX_ONE,
{
    lemma_radius_bounded(c, j, t);
    lemma_radius_bounded(c, j + 1, t);
    lemma_gradient_param_in_range(
        curve_point_spec(c, j, t).radius as int,
        curve_point_spec(c, j + 1, t).radius as int,
        c.a as int,
    );
}

/// The triangle the mesher emits for pair `j` of the sample.
pub open spec fn triangle_spec(
    pts: Seq<CurvePoint>,
    inner: Color,
    outer: Color,
    a: int,
    cx: i64,
    cy: i64,
    j: int,
) -> Triangle
    recommends
        0 <= j < pts.len() - 1,
        a > 0,
{
    Triangle {
        x0: cx,
        y0: cy,
        x1: pts[j].x,
        y1: pts[j].y,
        x2: pts[j + 1].x,
        y2: pts[j + 1].y,
        color: lerp_color_spec(
            inner,
            outer,
            t_mid_spec(pts[j].radius as int, pts[j + 1].radius as int, a),
        ),
    }
}

/// Triangulates a sample into its fan: exactly one triangle per
/// consecutive pair of points — `steps` triangles from a `steps + 1`-point
/// sample — in submission order along the point sequence, each coloured by
/// the gradient at the pair's mean radius-to-amplitude ratio.
pub fn mesh(
    pts: &Vec<CurvePoint>,
    inner: Color,
    outer: Color,
    a: i64,
    cx: i64,
    cy: i64,
) -> (tris: Vec<Triangle>)
    requires
        pts@.len() >= 1,
        1 <= a <= 100000,
        forall|i: int| 0 <= i < pts@.len() ==> 0 <= #[trigger] pts@[i].radius <= a * FX_ONE,
    ensures
        tris@.len() == pts@.len() - 1,
        forall|j: int|
            0 <= j < tris@.len() ==> #[trigger] tris@[j] == triangle_spec(
                pts@,
                inner,
                outer,
                a as int,
                cx,
                cy,
                j,
            ),
{
    let mut tris: Vec<Triangle> = Vec::new();
    let n: usize = pts.len();
    let mut j: usize = 0;
    while j < n - 1
        invariant
            n == pts@.len(),
            n >= 1,
            1 <= a <= 100000,
            forall|i: int| 0 <= i < pts@.len() ==> 0 <= #[trigger] pts@[i].radius <= a * FX_ONE,
            j <= n - 1,
            tris@.len() == j,
            forall|i: int|
                0 <= i < j ==> #[trigger] tris@[i] == triangle_spec(
                    pts@,
                    inner,
                    outer,
                    a as int,
                    cx,
                    cy,
                    i,
                ),
        decreases n - 1 - j,
    {
        let p0 = pts[j];
        let p1 = pts[j + 1];
        proof {
            lemma_gradient_param_in_range(p0.radius as int, p1.radius as int, a as int);
        }
        let t_mid: u64 = ((p0.radius + p1.radius) as u64) / ((2 * a) as u64);
        let color = lerp_color(inner, outer, t_mid as u32);
        tris.push(
            Triangle { x0: cx, y0: cy, x1: p0.x, y1: p0.y, x2: p1.x, y2: p1.y, color },
        );
        j = j + 1;
    }
    tris
}

} // verus!
