//! Fixed-point scales, angle units and integer trigonometry.
//!
//! Angles are measured in units of 1/262144 of a turn, so a full turn is a
//! power of two and the eighth-turn base angles of the sampler are exact.
//! The sine is the classic parabolic approximation: a parabola through the
//! zeroes at 0 and half a turn that peaks at exactly one unit a quarter
//! turn in, negated on the second half of the turn.  It is exact at the
//! points the scene's laws speak of (the zeroes and the peaks) and stays
//! within one unit everywhere.

use vstd::prelude::*;

verus! {

/// One unit of the scalar fixed-point scale: 16 fractional bits.
pub const FX_ONE: i64 = 65536;

/// One pixel of the position scale: 32 fractional bits.
pub const FX_SQ: i64 = 65536 * 65536;

/// A full turn, in angle units.
pub const TURN: u64 = 262144;

/// Half a turn, in angle units.
pub const HALF_TURN: u64 = 131072;

/// A quarter turn, in angle units.
pub const QUARTER_TURN: u64 = 65536;

/// Angle units in one radian: TURN divided by 2*pi, rounded to nearest.
pub const ANGLE_PER_RADIAN: u64 = 41721;

/// The rising half-wave of the fixed-point sine: a parabola through
/// (0, 0) and (HALF_TURN, 0) peaking at (QUARTER_TURN, FX_ONE).
pub open spec fn sin_half_spec(x: int) -> int {
    (4 * FX_ONE * x * (HALF_TURN - x)) / (HALF_TURN * HALF_TURN)
}

/// Fixed-point sine of an angle in [0, TURN): the parabolic half-wave,
/// negated on the second half of the turn.
pub open spec fn sin_fx_spec(x: int) -> int
    recommends
        0 <= x < TURN,
{
    if x < HALF_TURN {
        sin_half_spec(x)
    } else {
        -sin_half_spec(x - HALF_TURN)
    }
}

/// Fixed-point cosine: the sine a quarter turn ahead.
pub open spec fn cos_fx_spec(x: int) -> int
    recommends
        0 <= x < TURN,
{
    sin_fx_spec((x + QUARTER_TURN) % (TURN as int))
}

/// The parabolic half-wave stays within [0, FX_ONE] on its domain.
proof fn lemma_sin_half_bounds(x: int)
    requires
        0 <= x <= HALF_TURN,
    ensures
        0 <= sin_half_spec(x) <= FX_ONE,
{
    let num = 4 * FX_ONE * x * (HALF_TURN - x);
    let den = HALF_TURN * HALF_TURN;
    assert(0 <= 4 * 65536 * x * (131072 - x) <= 65536 * 17179869184) by (nonlinear_arith)
        requires
            0 <= x <= 131072,
    ;
    vstd::arithmetic::div_mod::lemma_div_pos_is_pos(num, den as int);
    vstd::arithmetic::div_mod::lemma_div_is_ordered(num, 65536 * (den as int), den as int);
    vstd::arithmetic::div_mod::lemma_div_by_multiple(65536, den as int);
}

/// The fixed-point sine stays within one unit of either sign.
pub proof fn lemma_sin_bounds(x: int)
    requires
        0 <= x < TURN,
    ensures
        -FX_ONE <= sin_fx_spec(x) <= FX_ONE,
{
    if x < HALF_TURN {
        lemma_sin_half_bounds(x);
    } else {
        lemma_sin_half_bounds(x - HALF_TURN);
    }
}

/// The rising half-wave of the sine, on angles up to half a turn.
fn sin_half(x: u64) -> (v: i64)
    requires
        x <= HALF_TURN,
    ensures
        v == sin_half_spec(x as int),
        0 <= v <= FX_ONE,
{
    proof {
        lemma_sin_half_bounds(x as int);
        assert(0 <= 4 * 65536 * (x as int) * (131072 - (x as int)) <= 65536 * 17179869184)
            by (nonlinear_arith)
            requires
                0 <= (x as int) <= 131072,
        ;
    }
    let num: u64 = 4 * 65536 * x * (HALF_TURN - x);
    let den: u64 = HALF_TURN * HALF_TURN;
    (num / den) as i64
}

/// Fixed-point sine of an angle in [0, TURN).
pub fn sin_fx(x: u64) -> (s: i64)
    requires
        x < TURN,
    ensures
        s == sin_fx_spec(x as int),
        -FX_ONE <= s <= FX_ONE,
{
    if x < HALF_TURN {
        sin_half(x)
    } else {
        -sin_half(x - HALF_TURN)
    }
}

/// Fixed-point cosine of an angle in [0, TURN).
pub fn cos_fx(x: u64) -> (c: i64)
    requires
        x < TURN,
    ensures
        c == cos_fx_spec(x as int),
        -FX_ONE <= c <= FX_ONE,
{
    sin_fx((x + QUARTER_TURN) % TURN)
}

} // verus!
