//! The outline renderer: a two-pass stroke along the sampled ring.  Each
//! consecutive pair of points yields two overlapping segments — a wide
//! black underlay first, then a narrower red overlay — so that under
//! painter's-algorithm compositing the stroke reads as a bordered line.

use crate::color::{black, black_spec, stroke_red, stroke_red_spec, Color};
use crate::curve::CurvePoint;
use vstd::prelude::*;

verus! {

/// Stroke width of the dark underlay pass, in pixels.
pub const UNDERLAY_WIDTH: i64 = 4;

/// Stroke width of the coloured overlay pass, in pixels.
pub const OVERLAY_WIDTH: i64 = 2;

/// One stroked line segment, endpoints in pixels with 32 fractional bits
/// and the stroke width in whole pixels.
#[derive(Clone, Copy, PartialEq, Eq, Structural, Debug)]
pub struct Segment {
    pub x0: i64,
    pub y0: i64,
    pub x1: i64,
    pub y1: i64,
    /// Stroke width, in whole pixels.
    pub width: i64,
    pub color: Color,
}

/// The wide black underlay for pair `j` of the sample.
pub open spec fn underlay_spec(pts: Seq<CurvePoint>, j: int) -> Segment
    recommends
        0 <= j < pts.len() - 1,
{
    Segment {
        x0: pts[j].x,
        y0: pts[j].y,
        x1: pts[j + 1].x,
        y1: pts[j + 1].y,
        width: UNDERLAY_WIDTH,
        color: black_spec(),
    }
}

/// The narrow red overlay for pair `j` of the sample.
pub open spec fn overlay_spec(pts: Seq<CurvePoint>, j: int) -> Segment
    recommends
        0 <= j < pts.len() - 1,
{
    Segment {
        x0: pts[j].x,
        y0: pts[j].y,
        x1: pts[j + 1].x,
        y1: pts[j + 1].y,
        width: OVERLAY_WIDTH,
        color: stroke_red_spec(),
    }
}

/// The segment the outline pass emits at position `s` of its output: the
/// underlay of pair `s / 2` at even positions, its overlay at the odd
/// position right after — the order the painter's algorithm needs.
pub open spec fn outline_segment_spec(pts: Seq<CurvePoint>, s: int) -> Segment
    recommends
        0 <= s < 2 * (pts.len() - 1),
{
    if s % 2 == 0 {
        underlay_spec(pts, s / 2)
    } else {
        overlay_spec(pts, s / 2)
    }
}

/// Strokes the sampled ring: two segments per consecutive pair of points,
/// the wide black underlay always issued before the narrower red overlay
/// of the same pair.
pub fn outline(pts: &Vec<CurvePoint>) -> (segs: Vec<Segment>)
    requires
        pts@.len() >= 1,
    ensures
        segs@.len() == 2 * (pts@.len() - 1),
        forall|s: int|
            0 <= s < segs@.len() ==> #[trigger] segs@[s] == outline_segment_spec(pts@, s),
{
    let mut segs: Vec<Segment> = Vec::new();
    let n: usize = pts.len();
    let mut j: usize = 0;
    while j < n - 1
        invariant
            n == pts@.len(),
            n >= 1,
            j <= n - 1,
            segs@.len() == 2 * j,
            forall|s: int|
                0 <= s < segs@.len() ==> #[trigger] segs@[s] == outline_segment_spec(pts@, s),
        decreases n - 1 - j,
    {
        let p0 = pts[j];
        let p1 = pts[j + 1];
        segs.push(
            Segment {
                x0: p0.x,
                y0: p0.y,
                x1: p1.x,
                y1: p1.y,
                width: UNDERLAY_WIDTH,
                color: black(),
            },
        );
        segs.push(
            Segment {
                x0: p0.x,
                y0: p0.y,
                x1: p1.x,
                y1: p1.y,
                width: OVERLAY_WIDTH,
                color: stroke_red(),
            },
        );
        proof {
            assert(segs@[2 * j as int] == outline_segment_spec(pts@, 2 * j as int));
            assert(segs@[2 * j as int + 1] == outline_segment_spec(pts@, 2 * j as int + 1));
        }
        j = j + 1;
    }
    segs
}

} // verus!
