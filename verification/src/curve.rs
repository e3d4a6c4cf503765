//! The curve sampler: the rose curve `r = a * sin(k * theta)` sampled at
//! `steps + 1` evenly spaced base angles, swayed as a whole by a slow,
//! bounded angular wobble.
//!
//! The sample is a pure function of the scene constants and the elapsed
//! time: `sample_spec` names the exact sequence, and the sampler returns
//! it — determinism is a theorem, not a convention.

use crate::fixed::{
    cos_fx, cos_fx_spec, lemma_sin_bounds, sin_fx, sin_fx_spec, FX_ONE, FX_SQ, TURN,
};
use vstd::prelude::*;

verus! {

/// Amplitude of the angular wobble: one tenth of a radian, in angle units.
pub const WOBBLE_AMPLITUDE: i64 = 4172;

/// Phase rate of the wobble: half a radian per second, in angle units per
/// second of elapsed time.
pub const WOBBLE_RATE: u64 = 20860;

/// Latest supported animation time, in milliseconds; keeps every phase
/// product comfortably inside the machine's integer range.
pub const MAX_TIME_MS: u64 = 1000000000000;

/// The fixed parameters of the scene, computed once from the screen size.
#[derive(Clone, Copy, PartialEq, Eq, Structural, Debug)]
pub struct SceneConstants {
    /// Curve amplitude, in pixels.
    pub a: i64,
    /// Petal frequency of the rose.
    pub k: u64,
    /// Angular subdivisions of one full turn.
    pub steps: u64,
    /// Curve centre, horizontal, in pixels with 32 fractional bits.
    pub cx: i64,
    /// Curve centre, vertical, in pixels with 32 fractional bits.
    pub cy: i64,
}

impl SceneConstants {
    /// Ranges under which every per-frame computation stays inside the
    /// machine's integer range.
    pub open spec fn wf(self) -> bool {
        &&& 1 <= self.a <= 100000
        &&& 1 <= self.k <= 1000000
        &&& 1 <= self.steps <= 1000000
        &&& 0 <= self.cx <= 1000000000000000
        &&& 0 <= self.cy <= 1000000000000000
    }

    /// The scene constants for a screen of the given pixel size: amplitude
    /// 150, four-petal frequency, 3600 subdivisions, centred on the screen.
    pub fn new(w: u64, h: u64) -> (c: SceneConstants)
        requires
            1 <= w <= 100000,
            1 <= h <= 100000,
        ensures
            c.a == 150,
            c.k == 4,
            c.steps == 3600,
            c.cx == w * FX_SQ / 2,
            c.cy == h * FX_SQ / 2,
            c.wf(),
    {
        SceneConstants {
            a: 150,
            k: 4,
            steps: 3600,
            cx: ((w * (FX_SQ as u64)) / 2) as i64,
            cy: ((h * (FX_SQ as u64)) / 2) as i64,
        }
    }
}

/// Base angle of sample `i`: the fraction `i / steps` of a full turn, in
/// angle units, rounded down.
pub open spec fn theta0_spec(c: SceneConstants, i: int) -> int {
    (i * TURN) / (c.steps as int)
}

/// Angle the petal function is taken at: `k` times the base angle,
/// reduced to one turn.
pub open spec fn petal_angle_spec(c: SceneConstants, i: int) -> int {
    (c.k * theta0_spec(c, i)) % (TURN as int)
}

/// Signed polar radius of sample `i`: `a * sin(k * theta0)`, in pixels
/// with 16 fractional bits.  Independent of the elapsed time.
pub open spec fn signed_radius_spec(c: SceneConstants, i: int) -> int {
    c.a * sin_fx_spec(petal_angle_spec(c, i))
}

/// Wobble phase at `t` milliseconds: half a radian per second, reduced to
/// one turn.
pub open spec fn wobble_phase_spec(t: int) -> int {
    ((t * WOBBLE_RATE) / 1000) % (TURN as int)
}

/// The frame's angular wobble, in angle units scaled by `FX_ONE`: a slow,
/// bounded sway applied uniformly to every sample point of the frame.
pub open spec fn wobble_fine_spec(t: int) -> int {
    WOBBLE_AMPLITUDE * sin_fx_spec(wobble_phase_spec(t))
}

/// Final angle of sample `i` at time `t`: the base angle plus the wobble,
/// rounded down to whole angle units and reduced to one turn.  (A full
/// turn is added before the division so the dividend is never negative;
/// the reduction removes it again.)
pub open spec fn theta_spec(c: SceneConstants, i: int, t: int) -> int {
    ((theta0_spec(c, i) * FX_ONE + TURN * FX_ONE + wobble_fine_spec(t)) / (FX_ONE as int)) % (
    TURN as int)
}

/// One sampled point of the curve.
#[derive(Clone, Copy, PartialEq, Eq, Structural, Debug)]
pub struct CurvePoint {
    /// Position, horizontal, in pixels with 32 fractional bits.
    pub x: i64,
    /// Position, vertical, in pixels with 32 fractional bits.
    pub y: i64,
    /// Absolute polar radius, in pixels with 16 fractional bits.  It only
    /// parametrises the colour gradient, never the geometry.
    pub radius: i64,
}

/// The point the sampler places at index `i` for time `t`.
pub open spec fn curve_point_spec(c: SceneConstants, i: int, t: int) -> CurvePoint {
    let r = signed_radius_spec(c, i);
    let th = theta_spec(c, i, t);
    CurvePoint {
        x: (c.cx + r * cos_fx_spec(th)) as i64,
        y: (c.cy + r * sin_fx_spec(th)) as i64,
        radius: (if r < 0 {
            -r
        } else {
            r
        }) as i64,
    }
}

/// The full sample for time `t`: `steps + 1` points in angular order; the
/// first and last base angles span exactly one turn, closing the curve.
pub open spec fn sample_spec(c: SceneConstants, t: int) -> Seq<CurvePoint> {
    Seq::new((c.steps + 1) as nat, |i: int| curve_point_spec(c, i, t))
}

/// Sampling is deterministic: any two samples taken with the same scene
/// constants and the same elapsed time are the same sequence, point for
/// point.
pub proof fn lemma_sampler_deterministic(
    c: SceneConstants,
    t: int,
    s1: Seq<CurvePoint>,
    s2: Seq<CurvePoint>,
)
    requires
        s1 == sample_spec(c, t),
        s2 == sample_spec(c, t),
    ensures
        s1 == s2,
{
}

/// The stored radius of sample `i` is determined by the base angle alone:
/// the frame's rotation never touches it, so any two times give the same
/// radius at the same index.
pub proof fn lemma_radius_independent_of_time(c: SceneConstants, i: int, t1: int, t2: int)
    ensures
        curve_point_spec(c, i, t1).radius == curve_point_spec(c, i, t2).radius,
{
}

/// Every sampled radius is bounded by the amplitude: the petal sine never
/// exceeds one unit of either sign, so `|a * sin(..)|` never exceeds `a`.
pub proof fn lemma_radius_bounded(c: SceneConstants, i: int, t: int)
    requires
        c.wf(),
    ensures
        0 <= curve_point_spec(c, i, t).radius <= c.a * FX_ONE,
{
    vstd::arithmetic::div_mod::lemma_mod_division_less_than_divisor(
        c.k * theta0_spec(c, i),
        TURN as int,
    );
    lemma_sin_bounds(petal_angle_spec(c, i));
    let s = sin_fx_spec(petal_angle_spec(c, i));
    assert(-(c.a as int) * 65536 <= (c.a as int) * s <= (c.a as int) * 65536) by (nonlinear_arith)
        requires
            1 <= (c.a as int) <= 100000,
            -65536 <= s <= 65536,
    ;
}

/// Samples the rose curve for time `t_ms`.  The result is exactly
/// `sample_spec`: `steps + 1` points, each placed at `a * sin(k * theta0)`
/// from the centre along the wobbled angle, with its absolute radius
/// stored for the colour gradient and never larger than `a` units.
pub fn sample_curve(c: &SceneConstants, t_ms: u64) -> (pts: Vec<CurvePoint>)
    requires
        c.wf(),
        t_ms <= MAX_TIME_MS,
    ensures
        pts@ == sample_spec(*c, t_ms as int),
        pts@.len() == c.steps + 1,
        forall|i: int|
            0 <= i < pts@.len() ==> 0 <= #[trigger] pts@[i].radius <= c.a * FX_ONE,
{
    let ghost ti: int = t_ms as int;
    let phase: u64 = (t_ms * WOBBLE_RATE / 1000) % TURN;
    let wob: i64 = sin_fx(phase);
    let fine: i64 = WOBBLE_AMPLITUDE * wob;
    let mut pts: Vec<CurvePoint> = Vec::new();
    let mut i: u64 = 0;
    while i <= c.steps
        invariant
            c.wf(),
            t_ms <= MAX_TIME_MS,
            i <= c.steps + 1,
            wob == sin_fx_spec(wobble_phase_spec(ti)),
            -FX_ONE <= wob <= FX_ONE,
            fine == wobble_fine_spec(ti),
            -273678336 <= fine <= 273678336,
            pts@.len() == i,
            forall|j: int| 0 <= j < i ==> #[trigger] pts@[j] == curve_point_spec(*c, j, ti),
            forall|j: int| 0 <= j < i ==> 0 <= #[trigger] pts@[j].radius <= c.a * FX_ONE,
        decreases c.steps + 1 - i,
    {
        let theta0: u64 = i * TURN / c.steps;
        proof {
            vstd::arithmetic::div_mod::lemma_div_nonincreasing((i * TURN) as int, c.steps as int);
            assert((c.k as int) * (theta0 as int) <= 262144000000000000) by (nonlinear_arith)
                requires
                    0 <= (c.k as int) <= 1000000,
                    0 <= (theta0 as int) <= 262144000000,
            ;
        }
        let petal: u64 = (c.k * theta0) % TURN;
        let s: i64 = sin_fx(petal);
        proof {
            assert(-6553600000 <= (c.a as int) * (s as int) <= 6553600000) by (nonlinear_arith)
                requires
                    1 <= (c.a as int) <= 100000,
                    -65536 <= (s as int) <= 65536,
            ;
            assert(-(c.a as int) * 65536 <= (c.a as int) * (s as int) <= (c.a as int) * 65536)
                by (nonlinear_arith)
                requires
                    1 <= (c.a as int) <= 100000,
                    -65536 <= (s as int) <= 65536,
            ;
        }
        let r: i64 = c.a * s;
        let radius: i64 = if r < 0 {
            -r
        } else {
            r
        };
        let theta_fine: i64 = (theta0 as i64) * FX_ONE + (TURN as i64) * FX_ONE + fine;
        let theta: u64 = ((theta_fine as u64) / (FX_ONE as u64)) % TURN;
        let cs: i64 = cos_fx(theta);
        let sn: i64 = sin_fx(theta);
        proof {
            assert(-429496729600000 <= (r as int) * (cs as int) <= 429496729600000)
                by (nonlinear_arith)
                requires
                    -6553600000 <= (r as int) <= 6553600000,
                    -65536 <= (cs as int) <= 65536,
            ;
            assert(-429496729600000 <= (r as int) * (sn as int) <= 429496729600000)
                by (nonlinear_arith)
                requires
                    -6553600000 <= (r as int) <= 6553600000,
                    -65536 <= (sn as int) <= 65536,
            ;
        }
        let x: i64 = c.cx + r * cs;
        let y: i64 = c.cy + r * sn;
        pts.push(CurvePoint { x, y, radius });
        proof {
            assert(pts@[i as int] == curve_point_spec(*c, i as int, ti));
        }
        i = i + 1;
    }
    proof {
        assert(pts@ =~= sample_spec(*c, ti));
    }
    pts
}

} // verus!
