//! The per-frame computation: the colour gradient recomputed from the
//! elapsed time, and the frame geometry — gradient, sample, triangle fan
//! and outline — assembled in the order the renderer draws them.

use crate::color::Color;
use crate::curve::{
    sample_curve, sample_spec, CurvePoint, SceneConstants, MAX_TIME_MS,
};
use crate::fixed::{sin_fx, sin_fx_spec, ANGLE_PER_RADIAN, FX_ONE, TURN};
use crate::mesh::{mesh, triangle_spec, Triangle};
use crate::outline::{outline, outline_segment_spec, Segment};
use vstd::prelude::*;

verus! {

/// Base of the gradient's mid-level channels (two fifths of a unit).
pub const GRAD_BASE_MID: u32 = 26214;

/// Base of the gradient's low channels (three tenths of a unit).
pub const GRAD_BASE_LOW: u32 = 19661;

/// Swing of every animated gradient channel (one fifth of a unit).
pub const GRAD_AMP: u32 = 13107;

/// Red channel of the outer gradient colour (nine tenths of a unit).
pub const OUTER_RED: u32 = 58982;

/// A gradient channel's wave: base plus an amplitude-scaled sine, in
/// `FX_ONE` units.
pub open spec fn wave_channel_spec(base: int, amp: int, s: int) -> int {
    (base * FX_ONE + amp * s) / (FX_ONE as int)
}

/// Phase of a gradient channel at `t` milliseconds: one radian per second
/// plus a whole-radian offset, in angle units reduced to one turn.
pub open spec fn grad_phase_spec(t: int, offset: int) -> int {
    ((t * ANGLE_PER_RADIAN) / 1000 + offset * ANGLE_PER_RADIAN) % (TURN as int)
}

/// The inner (centre) colour of the frame's gradient: full red, with the
/// green and blue channels swaying on phases offset by zero and one radian.
pub open spec fn inner_color_spec(t: int) -> Color {
    Color {
        r: FX_ONE as u32,
        g: wave_channel_spec(
            GRAD_BASE_MID as int,
            GRAD_AMP as int,
            sin_fx_spec(grad_phase_spec(t, 0)),
        ) as u32,
        b: wave_channel_spec(
            GRAD_BASE_LOW as int,
            GRAD_AMP as int,
            sin_fx_spec(grad_phase_spec(t, 1)),
        ) as u32,
        a: FX_ONE as u32,
    }
}

/// The outer (edge) colour of the frame's gradient: nine-tenths red, with
/// the green and blue channels swaying on phases offset by two and three
/// radians.
pub open spec fn outer_color_spec(t: int) -> Color {
    Color {
        r: OUTER_RED,
        g: wave_channel_spec(
            GRAD_BASE_LOW as int,
            GRAD_AMP as int,
            sin_fx_spec(grad_phase_spec(t, 2)),
        ) as u32,
        b: wave_channel_spec(
            GRAD_BASE_LOW as int,
            GRAD_AMP as int,
            sin_fx_spec(grad_phase_spec(t, 3)),
        ) as u32,
        a: FX_ONE as u32,
    }
}

/// One animated gradient channel: `base + amp * sin(phase)`, computed
/// exactly in fixed point.
fn wave_channel(base: u32, amp: u32, phase: u64) -> (v: u32)
    requires
        amp <= base,
        base + amp <= 131072,
        phase < TURN,
    ensures
        v == wave_channel_spec(base as int, amp as int, sin_fx_spec(phase as int)),
{
    let s: i64 = sin_fx(phase);
    proof {
        assert(-(amp as int) * 65536 <= (amp as int) * (s as int) <= (amp as int) * 65536)
            by (nonlinear_arith)
            requires
                0 <= (amp as int) <= 131072,
                -65536 <= (s as int) <= 65536,
        ;
    }
    let num: i64 = (base as i64) * FX_ONE + (amp as i64) * s;
    ((num as u64) / (FX_ONE as u64)) as u32
}

/// The phase of a gradient channel: `t` radians per second plus a fixed
/// whole-radian offset, reduced to one turn.
fn grad_phase(t: u64, offset: u64) -> (p: u64)
    requires
        t <= MAX_TIME_MS,
        offset <= 3,
    ensures
        p == grad_phase_spec(t as int, offset as int),
        p < TURN,
{
    (t * ANGLE_PER_RADIAN / 1000 + offset * ANGLE_PER_RADIAN) % TURN
}

/// Recomputes the frame's colour gradient from the elapsed time: smooth
/// periodic waves per channel, phase-shifted by one radian each, scaled
/// into their visual range.
pub fn gradient_at(t_ms: u64) -> (g: (Color, Color))
    requires
        t_ms <= MAX_TIME_MS,
    ensures
        g.0 == inner_color_spec(t_ms as int),
        g.1 == outer_color_spec(t_ms as int),
{
    let inner = Color {
        r: FX_ONE as u32,
        g: wave_channel(GRAD_BASE_MID, GRAD_AMP, grad_phase(t_ms, 0)),
        b: wave_channel(GRAD_BASE_LOW, GRAD_AMP, grad_phase(t_ms, 1)),
        a: FX_ONE as u32,
    };
    let outer = Color {
        r: OUTER_RED,
        g: wave_channel(GRAD_BASE_LOW, GRAD_AMP, grad_phase(t_ms, 2)),
        b: wave_channel(GRAD_BASE_LOW, GRAD_AMP, grad_phase(t_ms, 3)),
        a: FX_ONE as u32,
    };
    (inner, outer)
}

/// Everything the renderer needs for one frame, in drawing order: the
/// gradient colours, the fresh sample, the triangle fan, then the outline
/// segments.  The sample and everything derived from it are owned by the
/// frame that created them and rebuilt from scratch the next frame.
pub struct FrameGeometry {
    pub inner: Color,
    pub outer: Color,
    pub points: Vec<CurvePoint>,
    pub triangles: Vec<Triangle>,
    pub outline: Vec<Segment>,
}

/// Computes one frame of the animation: the gradient for time `t_ms`, the
/// sampled curve, its `steps` fan triangles and its `2 * steps` outline
/// segments, ready to be drawn in that order.
pub fn frame_geometry(c: &SceneConstants, t_ms: u64) -> (f: FrameGeometry)
    requires
        c.wf(),
        t_ms <= MAX_TIME_MS,
    ensures
        f.inner == inner_color_spec(t_ms as int),
        f.outer == outer_color_spec(t_ms as int),
        f.points@ == sample_spec(*c, t_ms as int),
        f.triangles@.len() == c.steps,
        forall|j: int|
            0 <= j < f.triangles@.len() ==> #[trigger] f.triangles@[j] == triangle_spec(
                sample_spec(*c, t_ms as int),
                inner_color_spec(t_ms as int),
                outer_color_spec(t_ms as int),
                c.a as int,
                c.cx,
                c.cy,
                j,
            ),
        f.outline@.len() == 2 * c.steps,
        forall|s: int|
            0 <= s < f.outline@.len() ==> #[trigger] f.outline@[s] == outline_segment_spec(
                sample_spec(*c, t_ms as int),
                s,
            ),
{
    let (inner, outer) = gradient_at(t_ms);
    let points = sample_curve(c, t_ms);
    let triangles = mesh(&points, inner, outer, c.a, c.cx, c.cy);
    let segments = outline(&points);
    FrameGeometry { inner, outer, points, triangles, outline: segments }
}

} // verus!
