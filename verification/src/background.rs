//! The static background decoration: sky and ground rectangles, fifty
//! random speckles per region, three clouds and the rose's stem.
//!
//! Everything here is generated once at startup and redrawn unchanged
//! every frame.  The speckles take their randomness from an injected
//! linear-congruential generator seeded by the caller, so the whole
//! decoration is a pure function of the seed and the screen size: the
//! counts and parameters are fixed at creation and never regenerated.

use crate::color::{
    black, black_spec, grass_green, grass_green_spec, sky_blue, sky_blue_spec, stem_green,
    stem_green_spec, Color,
};
use crate::fixed::{FX_ONE, FX_SQ};
use crate::outline::Segment;
use vstd::prelude::*;

verus! {

/// Multiplier of the linear-congruential generator.
pub const LCG_MUL: u64 = 6364136223846793005;

/// Increment of the linear-congruential generator.
pub const LCG_INC: u64 = 1442695040888963407;

/// Number of speckles in each region, fixed for the process lifetime.
pub const SPECKLE_COUNT: usize = 50;

/// Half-width of the random tint variation (five hundredths of a unit).
pub const TINT_SPREAD: i64 = 3277;

/// The generator state that follows `s`.
pub open spec fn lcg_next_spec(s: u64) -> u64 {
    vstd::wrapping::u64_specs::wrapping_add(
        vstd::wrapping::u64_specs::wrapping_mul(s, LCG_MUL),
        LCG_INC,
    )
}

/// The generator state `n` steps after `s`.
pub open spec fn lcg_stream_spec(s: u64, n: nat) -> u64
    decreases n,
{
    if n == 0 {
        s
    } else {
        lcg_next_spec(lcg_stream_spec(s, (n - 1) as nat))
    }
}

/// A seeded linear-congruential pseudo-random generator.  The scene takes
/// its randomness injected through this type, so background generation is
/// reproducible from the seed.
#[derive(Clone, Copy, PartialEq, Eq, Structural, Debug)]
pub struct SpeckleRng {
    pub state: u64,
}

impl SpeckleRng {
    /// A generator starting from the given seed.
    pub fn new(seed: u64) -> (rng: SpeckleRng)
        ensures
            rng.state == seed,
    {
        SpeckleRng { state: seed }
    }

    /// Advances the generator one step and returns the new state.
    pub fn next(&mut self) -> (r: u64)
        ensures
            final(self).state == lcg_next_spec(old(self).state),
            r == final(self).state,
    {
        self.state = self.state.wrapping_mul(LCG_MUL).wrapping_add(LCG_INC);
        self.state
    }
}

/// One background speckle: a small filled circle, coordinates and radius
/// in pixels with 32 fractional bits.
#[derive(Clone, Copy, PartialEq, Eq, Structural, Debug)]
pub struct Speckle {
    pub x: i64,
    pub y: i64,
    pub radius: i64,
    pub color: Color,
}

/// A speckle region: positions span `[0, w) x [y_lo, y_hi)`, radii span
/// `[r_lo, r_hi)`, and every speckle is the base colour tinted by a small
/// random variation.  All lengths in pixels with 32 fractional bits.
#[derive(Clone, Copy, PartialEq, Eq, Structural, Debug)]
pub struct SpeckleRegion {
    pub w: i64,
    pub y_lo: i64,
    pub y_hi: i64,
    pub r_lo: i64,
    pub r_hi: i64,
    pub base: Color,
}

impl SpeckleRegion {
    /// Non-empty spans inside the machine range.
    pub open spec fn wf(self) -> bool {
        &&& 1 <= self.w <= 1000000000000000
        &&& 0 <= self.y_lo < self.y_hi <= 1000000000000000
        &&& 0 <= self.r_lo < self.r_hi <= 1000000000000000
    }
}

/// A colour channel clamped to the displayable range `[0, FX_ONE]`.
pub open spec fn clamp_channel_spec(v: int) -> int {
    if v < 0 {
        0
    } else if v > FX_ONE {
        FX_ONE as int
    } else {
        v
    }
}

/// The base colour tinted by a variation: every colour channel is shifted
/// by `var` and clamped to the displayable range; the alpha is opaque.
pub open spec fn tint_spec(base: Color, var: int) -> Color {
    Color {
        r: clamp_channel_spec(base.r + var) as u32,
        g: clamp_channel_spec(base.g + var) as u32,
        b: clamp_channel_spec(base.b + var) as u32,
        a: FX_ONE as u32,
    }
}

/// One colour channel shifted and clamped.
fn clamp_channel(base: u32, var: i64) -> (v: u32)
    requires
        -TINT_SPREAD <= var <= TINT_SPREAD,
    ensures
        v == clamp_channel_spec(base + var),
{
    let shifted: i64 = (base as i64) + var;
    if shifted < 0 {
        0
    } else if shifted > FX_ONE {
        FX_ONE as u32
    } else {
        shifted as u32
    }
}

/// The base colour tinted by a bounded variation.
fn tint(base: Color, var: i64) -> (c: Color)
    requires
        -TINT_SPREAD <= var <= TINT_SPREAD,
    ensures
        c == tint_spec(base, var as int),
{
    Color {
        r: clamp_channel(base.r, var),
        g: clamp_channel(base.g, var),
        b: clamp_channel(base.b, var),
        a: FX_ONE as u32,
    }
}

/// The speckle that position `j` of a region receives, as a function of
/// the generator's starting state: four consecutive draws give the
/// horizontal position, the vertical position, the radius and the tint.
pub open spec fn speckle_spec(region: SpeckleRegion, s0: u64, j: int) -> Speckle
    recommends
        region.wf(),
        0 <= j,
{
    let dx = lcg_stream_spec(s0, (4 * j + 1) as nat) as int;
    let dy = lcg_stream_spec(s0, (4 * j + 2) as nat) as int;
    let dr = lcg_stream_spec(s0, (4 * j + 3) as nat) as int;
    let dv = lcg_stream_spec(s0, (4 * j + 4) as nat) as int;
    Speckle {
        x: (dx % (region.w as int)) as i64,
        y: (region.y_lo + dy % (region.y_hi - region.y_lo)) as i64,
        radius: (region.r_lo + dr % (region.r_hi - region.r_lo)) as i64,
        color: tint_spec(region.base, dv % (2 * TINT_SPREAD as int) - TINT_SPREAD),
    }
}

/// Generates the region's fixed set of `SPECKLE_COUNT` speckles from the
/// injected generator.  The count never varies; each speckle lies inside
/// the region and is pinned, value for value, by the seed.
pub fn region_speckles(region: &SpeckleRegion, rng: &mut SpeckleRng) -> (sp: Vec<Speckle>)
    requires
        region.wf(),
    ensures
        sp@.len() == SPECKLE_COUNT,
        forall|j: int|
            0 <= j < SPECKLE_COUNT ==> #[trigger] sp@[j] == speckle_spec(
                *region,
                old(rng).state,
                j,
            ),
        final(rng).state == lcg_stream_spec(old(rng).state, (4 * SPECKLE_COUNT) as nat),
{
    let ghost s0: u64 = rng.state;
    let mut sp: Vec<Speckle> = Vec::new();
    let mut j: usize = 0;
    while j < SPECKLE_COUNT
        invariant
            region.wf(),
            j <= SPECKLE_COUNT,
            sp@.len() == j,
            rng.state == lcg_stream_spec(s0, (4 * j) as nat),
            forall|i: int| 0 <= i < j ==> #[trigger] sp@[i] == speckle_spec(*region, s0, i),
        decreases SPECKLE_COUNT - j,
    {
        let dx: u64 = rng.next();
        let dy: u64 = rng.next();
        let dr: u64 = rng.next();
        let dv: u64 = rng.next();
        proof {
            assert(lcg_stream_spec(s0, (4 * j + 1) as nat) == lcg_next_spec(
                lcg_stream_spec(s0, (4 * j) as nat),
            ));
            assert(lcg_stream_spec(s0, (4 * j + 2) as nat) == lcg_next_spec(
                lcg_stream_spec(s0, (4 * j + 1) as nat),
            ));
            assert(lcg_stream_spec(s0, (4 * j + 3) as nat) == lcg_next_spec(
                lcg_stream_spec(s0, (4 * j + 2) as nat),
            ));
            assert(lcg_stream_spec(s0, (4 * j + 4) as nat) == lcg_next_spec(
                lcg_stream_spec(s0, (4 * j + 3) as nat),
            ));
        }
        let x: i64 = (dx % (region.w as u64)) as i64;
        let span_y: u64 = (region.y_hi - region.y_lo) as u64;
        let y: i64 = region.y_lo + (dy % span_y) as i64;
        let span_r: u64 = (region.r_hi - region.r_lo) as u64;
        let radius: i64 = region.r_lo + (dr % span_r) as i64;
        let var: i64 = (dv % (2 * TINT_SPREAD) as u64) as i64 - TINT_SPREAD;
        let color = tint(region.base, var);
        sp.push(Speckle { x, y, radius, color });
        proof {
            assert(sp@[j as int] == speckle_spec(*region, s0, j as int));
        }
        j = j + 1;
    }
    sp
}

/// An axis-aligned filled rectangle, origin and size in pixels with 32
/// fractional bits.
#[derive(Clone, Copy, PartialEq, Eq, Structural, Debug)]
pub struct RectFx {
    pub x: i64,
    pub y: i64,
    pub w: i64,
    pub h: i64,
    pub color: Color,
}

/// One circle of a cloud, drawn as a white filled disc under a black
/// outline of two pixels; coordinates in pixels with 32 fractional bits.
#[derive(Clone, Copy, PartialEq, Eq, Structural, Debug)]
pub struct CloudCircle {
    pub x: i64,
    pub y: i64,
    pub radius: i64,
}

/// Stroke width of each cloud circle's black outline, in pixels.
pub const CLOUD_OUTLINE_WIDTH: i64 = 2;

/// Height of the sky band: four fifths of the screen, in pixels with 32
/// fractional bits.  The ground starts where the sky ends.
pub open spec fn sky_height_spec(h: int) -> int {
    (4 * h * FX_SQ) / 5
}

/// The sky backdrop rectangle.
pub open spec fn sky_rect_spec(w: int, h: int) -> RectFx {
    RectFx {
        x: 0,
        y: 0,
        w: (w * FX_SQ) as i64,
        h: sky_height_spec(h) as i64,
        color: sky_blue_spec(),
    }
}

/// The ground rectangle: from the grass line to the bottom of the screen.
pub open spec fn ground_rect_spec(w: int, h: int) -> RectFx {
    RectFx {
        x: 0,
        y: sky_height_spec(h) as i64,
        w: (w * FX_SQ) as i64,
        h: (h * FX_SQ - sky_height_spec(h)) as i64,
        color: grass_green_spec(),
    }
}

/// The sky's speckle region: anywhere above the grass line, radii from
/// five to fifteen pixels, tinted sky blue.
pub open spec fn sky_region_spec(w: int, h: int) -> SpeckleRegion {
    SpeckleRegion {
        w: (w * FX_SQ) as i64,
        y_lo: 0,
        y_hi: sky_height_spec(h) as i64,
        r_lo: (5 * FX_SQ) as i64,
        r_hi: (15 * FX_SQ) as i64,
        base: sky_blue_spec(),
    }
}

/// The ground's speckle region: anywhere below the grass line, radii from
/// five to twenty pixels, tinted grass green.
pub open spec fn ground_region_spec(w: int, h: int) -> SpeckleRegion {
    SpeckleRegion {
        w: (w * FX_SQ) as i64,
        y_lo: sky_height_spec(h) as i64,
        y_hi: (h * FX_SQ) as i64,
        r_lo: (5 * FX_SQ) as i64,
        r_hi: (20 * FX_SQ) as i64,
        base: grass_green_spec(),
    }
}

/// Radius of circle `idx` of a cloud, in pixels before scaling.
pub open spec fn cloud_radius_px_spec(idx: int) -> int {
    if idx == 1 {
        25
    } else {
        20
    }
}

/// Horizontal offset of circle `idx` of a cloud, in pixels before scaling.
pub open spec fn cloud_dx_px_spec(idx: int) -> int {
    if idx == 0 {
        -25
    } else if idx == 1 {
        0
    } else {
        25
    }
}

/// Vertical offset of circle `idx` of a cloud, in pixels before scaling.
pub open spec fn cloud_dy_px_spec(idx: int) -> int {
    if idx == 1 {
        -10
    } else {
        0
    }
}

/// Circle `idx` of a cloud centred at `(x, y)` (pixels with 32 fractional
/// bits) with a scale in `FX_ONE` units.
pub open spec fn cloud_circle_spec(x: int, y: int, scale: int, idx: int) -> CloudCircle {
    CloudCircle {
        x: (x + cloud_dx_px_spec(idx) * scale * FX_ONE) as i64,
        y: (y + cloud_dy_px_spec(idx) * scale * FX_ONE) as i64,
        radius: (cloud_radius_px_spec(idx) * scale * FX_ONE) as i64,
    }
}

/// The three circles of one decorative cloud.
pub fn cloud_circles(x: i64, y: i64, scale: i64) -> (circles: Vec<CloudCircle>)
    requires
        0 <= x <= 1000000000000000,
        0 <= y <= 1000000000000000,
        1 <= scale <= 131072,
    ensures
        circles@.len() == 3,
        forall|idx: int|
            0 <= idx < 3 ==> #[trigger] circles@[idx] == cloud_circle_spec(
                x as int,
                y as int,
                scale as int,
                idx,
            ),
{
    let mut circles: Vec<CloudCircle> = Vec::new();
    circles.push(
        CloudCircle { x: x - 25 * scale * FX_ONE, y, radius: 20 * scale * FX_ONE },
    );
    circles.push(
        CloudCircle { x, y: y - 10 * scale * FX_ONE, radius: 25 * scale * FX_ONE },
    );
    circles.push(
        CloudCircle { x: x + 25 * scale * FX_ONE, y, radius: 20 * scale * FX_ONE },
    );
    circles
}

/// Horizontal centre of cloud `c` on a screen `w` pixels wide.
pub open spec fn cloud_center_x_spec(w: int, c: int) -> int {
    if c == 0 {
        (w * FX_SQ) / 5
    } else if c == 1 {
        (w * FX_SQ) / 2
    } else {
        (4 * w * FX_SQ) / 5
    }
}

/// Vertical centre of cloud `c` on a screen `h` pixels tall.
pub open spec fn cloud_center_y_spec(h: int, c: int) -> int {
    if c == 0 {
        (h * FX_SQ) / 5
    } else if c == 1 {
        (3 * h * FX_SQ) / 20
    } else {
        (h * FX_SQ) / 4
    }
}

/// Scale of cloud `c`, in `FX_ONE` units.
pub open spec fn cloud_scale_spec(c: int) -> int {
    if c == 0 {
        65536
    } else if c == 1 {
        78643
    } else {
        58982
    }
}

/// Circle `idx` of the sky's nine cloud circles (three clouds of three).
pub open spec fn cloud_spec(w: int, h: int, idx: int) -> CloudCircle
    recommends
        0 <= idx < 9,
{
    cloud_circle_spec(
        cloud_center_x_spec(w, idx / 3),
        cloud_center_y_spec(h, idx / 3),
        cloud_scale_spec(idx / 3),
        idx % 3,
    )
}

/// The two overlapping stem segments: a wide black underlay from the
/// bottom of the screen to just above the curve's centre, then the
/// narrower dark-green fill over it.
pub open spec fn stem_underlay_spec(w: int, h: int) -> Segment {
    Segment {
        x0: ((w * FX_SQ) / 2) as i64,
        y0: (h * FX_SQ) as i64,
        x1: ((w * FX_SQ) / 2) as i64,
        y1: ((h * FX_SQ) / 2 + 10 * FX_SQ) as i64,
        width: 10,
        color: black_spec(),
    }
}

/// The stem's dark-green fill segment.
pub open spec fn stem_fill_spec(w: int, h: int) -> Segment {
    Segment {
        x0: ((w * FX_SQ) / 2) as i64,
        y0: (h * FX_SQ) as i64,
        x1: ((w * FX_SQ) / 2) as i64,
        y1: ((h * FX_SQ) / 2 + 10 * FX_SQ) as i64,
        width: 6,
        color: stem_green_spec(),
    }
}

/// The whole static decoration, in drawing order: the sky rectangle and
/// its speckles, the clouds, the ground rectangle and its speckles, then
/// the stem's underlay and fill.
pub struct Background {
    pub sky: RectFx,
    pub sky_speckles: Vec<Speckle>,
    pub clouds: Vec<CloudCircle>,
    pub ground: RectFx,
    pub ground_speckles: Vec<Speckle>,
    pub stem: Vec<Segment>,
}

/// Builds the static background once at startup for a screen of the given
/// pixel size, drawing all randomness from the given seed.  Every part is
/// pinned by the seed and the size, so the decoration never changes from
/// frame to frame.
pub fn build_background(w: u64, h: u64, seed: u64) -> (b: Background)
    requires
        1 <= w <= 100000,
        1 <= h <= 100000,
    ensures
        b.sky == sky_rect_spec(w as int, h as int),
        b.sky_speckles@.len() == SPECKLE_COUNT,
        forall|j: int|
            0 <= j < SPECKLE_COUNT ==> #[trigger] b.sky_speckles@[j] == speckle_spec(
                sky_region_spec(w as int, h as int),
                seed,
                j,
            ),
        b.clouds@.len() == 9,
        forall|idx: int|
            0 <= idx < 9 ==> #[trigger] b.clouds@[idx] == cloud_spec(w as int, h as int, idx),
        b.ground == ground_rect_spec(w as int, h as int),
        b.ground_speckles@.len() == SPECKLE_COUNT,
        forall|j: int|
            0 <= j < SPECKLE_COUNT ==> #[trigger] b.ground_speckles@[j] == speckle_spec(
                ground_region_spec(w as int, h as int),
                lcg_stream_spec(seed, (4 * SPECKLE_COUNT) as nat),
                j,
            ),
        b.stem@.len() == 2,
        b.stem@[0] == stem_underlay_spec(w as int, h as int),
        b.stem@[1] == stem_fill_spec(w as int, h as int),
{
    let w_fx: u64 = w * (FX_SQ as u64);
    let h_fx: u64 = h * (FX_SQ as u64);
    let sky_h: u64 = 4 * h_fx / 5;
    proof {
        vstd::arithmetic::div_mod::lemma_div_is_ordered(17179869184, 4 * (h_fx as int), 5);
        vstd::arithmetic::div_mod::lemma_div_is_ordered(
            4 * (h_fx as int),
            5 * (h_fx as int) - 5,
            5,
        );
        vstd::arithmetic::div_mod::lemma_div_by_multiple((h_fx as int) - 1, 5);
    }
    let sky = RectFx { x: 0, y: 0, w: w_fx as i64, h: sky_h as i64, color: sky_blue() };
    let ground = RectFx {
        x: 0,
        y: sky_h as i64,
        w: w_fx as i64,
        h: (h_fx - sky_h) as i64,
        color: grass_green(),
    };
    let sky_region = SpeckleRegion {
        w: w_fx as i64,
        y_lo: 0,
        y_hi: sky_h as i64,
        r_lo: 5 * FX_SQ,
        r_hi: 15 * FX_SQ,
        base: sky_blue(),
    };
    let ground_region = SpeckleRegion {
        w: w_fx as i64,
        y_lo: sky_h as i64,
        y_hi: h_fx as i64,
        r_lo: 5 * FX_SQ,
        r_hi: 20 * FX_SQ,
        base: grass_green(),
    };
    let mut rng = SpeckleRng::new(seed);
    let sky_speckles = region_speckles(&sky_region, &mut rng);
    let ground_speckles = region_speckles(&ground_region, &mut rng);
    let mut clouds = cloud_circles((w_fx / 5) as i64, (h_fx / 5) as i64, 65536);
    let mut cloud_mid = cloud_circles((w_fx / 2) as i64, (3 * h_fx / 20) as i64, 78643);
    let mut cloud_right = cloud_circles((4 * w_fx / 5) as i64, (h_fx / 4) as i64, 58982);
    clouds.append(&mut cloud_mid);
    clouds.append(&mut cloud_right);
    proof {
        assert forall|idx: int| 0 <= idx < 9 implies #[trigger] clouds@[idx] == cloud_spec(
            w as int,
            h as int,
            idx,
        ) by {
            if idx < 3 {
                assert(idx / 3 == 0 && idx % 3 == idx);
            } else if idx < 6 {
                assert(idx / 3 == 1 && idx % 3 == idx - 3);
            } else {
                assert(idx / 3 == 2 && idx % 3 == idx - 6);
            }
        }
    }
    let mut stem: Vec<Segment> = Vec::new();
    let stem_x: i64 = (w_fx / 2) as i64;
    let stem_top: i64 = (h_fx / 2) as i64 + 10 * FX_SQ;
    stem.push(
        Segment { x0: stem_x, y0: h_fx as i64, x1: stem_x, y1: stem_top, width: 10, color: black() },
    );
    stem.push(
        Segment {
            x0: stem_x,
            y0: h_fx as i64,
            x1: stem_x,
            y1: stem_top,
            width: 6,
            color: stem_green(),
        },
    );
    Background { sky, sky_speckles, clouds, ground, ground_speckles, stem }
}

} // verus!
