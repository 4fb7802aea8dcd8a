//! Geometry primitives: fixed-point 2D vectors, the probe test that decides
//! whether a sample point counts as "on" a wall, and the determinant-form
//! intersection test for two segments' infinite lines.
//!
//! All coordinates are in fixed-point units of `1/SCALE` of a pixel, so the
//! tests below are exact integer comparisons: the parallel test is exact
//! equality of the determinant with zero, and the distance threshold is
//! compared on squared distances with no rounding.

use vstd::prelude::*;

verus! {

/// Fixed-point scale: this many coordinate units make one pixel.
pub const SCALE: i64 = 1000;

/// Bound on the magnitude of every coordinate the engine accepts. It keeps
/// every intermediate product of the geometric tests (up to a squared cross
/// product, degree four in the coordinates) within `i128`.
pub const COORD_BOUND: i64 = 1_000_000_000;

/// A 2D position or direction in fixed-point pixel coordinates.
#[derive(Clone, Copy, PartialEq, Eq, Structural, Debug)]
pub struct Vec2 {
    pub x: i64,
    pub y: i64,
}

/// Both components of `v` are within the engine's coordinate bound.
pub open spec fn in_coord_bound(v: Vec2) -> bool {
    &&& -COORD_BOUND <= v.x <= COORD_BOUND
    &&& -COORD_BOUND <= v.y <= COORD_BOUND
}

/// Whether the point `(px, py)` lies strictly within one pixel (`SCALE`
/// fixed-point units) of the segment `a`-`b`. This is the occlusion probe:
/// a sample point this close to a wall counts as crossing it. The test
/// compares squared distances, so it is exact. A degenerate segment with
/// `a == b` degenerates to a distance test against that single point.
pub open spec fn near_spec(px: int, py: int, a: Vec2, b: Vec2) -> bool {
    let apx = px - a.x;
    let apy = py - a.y;
    let abx = b.x - a.x;
    let aby = b.y - a.y;
    let dot = apx * abx + apy * aby;
    let len2 = abx * abx + aby * aby;
    if dot <= 0 {
        apx * apx + apy * apy < SCALE * SCALE
    } else if dot >= len2 {
        let bpx = px - b.x;
        let bpy = py - b.y;
        bpx * bpx + bpy * bpy < SCALE * SCALE
    } else {
        let cross = abx * apy - aby * apx;
        cross * cross < SCALE * SCALE * len2
    }
}

proof fn lemma_mul_bound(x: int, y: int, bx: int, by: int)
    requires
        -bx <= x <= bx,
        -by <= y <= by,
    ensures
        -(bx * by) <= x * y <= bx * by,
{
    assert(-(bx * by) <= x * y <= bx * by) by (nonlinear_arith)
        requires
            -bx <= x <= bx,
            -by <= y <= by,
    ;
}

/// Decide the occlusion probe for the point `(px, py)` against the segment
/// `a`-`b`, exactly as [`near_spec`] states it.
pub fn near_segment(px: i64, py: i64, a: Vec2, b: Vec2) -> (hit: bool)
    requires
        -COORD_BOUND <= px <= COORD_BOUND,
        -COORD_BOUND <= py <= COORD_BOUND,
        in_coord_bound(a),
        in_coord_bound(b),
    ensures
        hit == near_spec(px as int, py as int, a, b),
{
    let apx: i128 = (px as i128) - (a.x as i128);
    let apy: i128 = (py as i128) - (a.y as i128);
    let abx: i128 = (b.x as i128) - (a.x as i128);
    let aby: i128 = (b.y as i128) - (a.y as i128);
    proof {
        lemma_mul_bound(apx as int, abx as int, 2_000_000_000, 2_000_000_000);
        lemma_mul_bound(apy as int, aby as int, 2_000_000_000, 2_000_000_000);
        lemma_mul_bound(abx as int, abx as int, 2_000_000_000, 2_000_000_000);
        lemma_mul_bound(aby as int, aby as int, 2_000_000_000, 2_000_000_000);
        lemma_mul_bound(apx as int, apx as int, 2_000_000_000, 2_000_000_000);
        lemma_mul_bound(apy as int, apy as int, 2_000_000_000, 2_000_000_000);
        lemma_mul_bound(SCALE as int, SCALE as int, 1000, 1000);
    }
    let dot: i128 = apx * abx + apy * aby;
    let len2: i128 = abx * abx + aby * aby;
    let threshold2: i128 = (SCALE as i128) * (SCALE as i128);
    if dot <= 0 {
        apx * apx + apy * apy < threshold2
    } else if dot >= len2 {
        let bpx: i128 = (px as i128) - (b.x as i128);
        let bpy: i128 = (py as i128) - (b.y as i128);
        proof {
            lemma_mul_bound(bpx as int, bpx as int, 2_000_000_000, 2_000_000_000);
            lemma_mul_bound(bpy as int, bpy as int, 2_000_000_000, 2_000_000_000);
        }
        bpx * bpx + bpy * bpy < threshold2
    } else {
        proof {
            lemma_mul_bound(abx as int, apy as int, 2_000_000_000, 2_000_000_000);
            lemma_mul_bound(aby as int, apx as int, 2_000_000_000, 2_000_000_000);
        }
        let cross: i128 = abx * apy - aby * apx;
        proof {
            lemma_mul_bound(
                cross as int,
                cross as int,
                8_000_000_000_000_000_000,
                8_000_000_000_000_000_000,
            );
            lemma_mul_bound(1_000_000, len2 as int, 1_000_000, 8_000_000_000_000_000_000);
        }
        cross * cross < threshold2 * len2
    }
}

/// Coefficient `a` of the infinite line through `s`-`e`, written as
/// `a*x + b*y == c`.
pub open spec fn line_a(s: Vec2, e: Vec2) -> int {
    e.y - s.y
}

/// Coefficient `b` of the infinite line through `s`-`e`.
pub open spec fn line_b(s: Vec2, e: Vec2) -> int {
    s.x - e.x
}

/// Coefficient `c` of the infinite line through `s`-`e`.
pub open spec fn line_c(s: Vec2, e: Vec2) -> int {
    line_a(s, e) * s.x + line_b(s, e) * s.y
}

/// The determinant of the 2x2 system formed by two segments' lines. It is
/// zero exactly when the lines are parallel or anti-parallel, collinear
/// overlap included.
pub open spec fn delta_spec(s1: Vec2, e1: Vec2, s2: Vec2, e2: Vec2) -> int {
    line_a(s1, e1) * line_b(s2, e2) - line_a(s2, e2) * line_b(s1, e1)
}

/// An exact rational point `(num_x / den, num_y / den)` with `den != 0`.
#[derive(Clone, Copy, PartialEq, Eq, Structural, Debug)]
pub struct RatPoint {
    pub num_x: i128,
    pub num_y: i128,
    pub den: i128,
}

/// The rational point `p` satisfies the line equation of `s`-`e`, with the
/// denominator cleared: `a*(num_x/den) + b*(num_y/den) == c` scaled by `den`.
pub open spec fn on_line(s: Vec2, e: Vec2, p: RatPoint) -> bool {
    line_a(s, e) * p.num_x + line_b(s, e) * p.num_y == line_c(s, e) * p.den
}

proof fn lemma_cramer(a1: int, b1: int, c1: int, a2: int, b2: int, c2: int)
    ensures
        a1 * (b2 * c1 - b1 * c2) + b1 * (a1 * c2 - a2 * c1) == c1 * (a1 * b2 - a2 * b1),
        a2 * (b2 * c1 - b1 * c2) + b2 * (a1 * c2 - a2 * c1) == c2 * (a1 * b2 - a2 * b1),
{
    assert(a1 * (b2 * c1 - b1 * c2) + b1 * (a1 * c2 - a2 * c1) == c1 * (a1 * b2 - a2 * b1))
        by (nonlinear_arith);
    assert(a2 * (b2 * c1 - b1 * c2) + b2 * (a1 * c2 - a2 * c1) == c2 * (a1 * b2 - a2 * b1))
        by (nonlinear_arith);
}

/// Intersect the infinite lines through two segments, in determinant form.
///
/// Returns `None` exactly when the determinant is zero (parallel lines,
/// collinear overlap included — a deliberate simplification: such overlap is
/// not treated as a hit). Otherwise returns the exact rational intersection
/// point of the two infinite lines, not clipped to the segments' extents;
/// the point satisfies both segments' line equations exactly.
pub fn intersect_lines(s1: Vec2, e1: Vec2, s2: Vec2, e2: Vec2) -> (r: Option<RatPoint>)
    requires
        in_coord_bound(s1),
        in_coord_bound(e1),
        in_coord_bound(s2),
        in_coord_bound(e2),
    ensures
        r.is_some() == (delta_spec(s1, e1, s2, e2) != 0),
        r.is_some() ==> r.unwrap().den == delta_spec(s1, e1, s2, e2),
        r.is_some() ==> on_line(s1, e1, r.unwrap()),
        r.is_some() ==> on_line(s2, e2, r.unwrap()),
{
    let a1: i128 = (e1.y as i128) - (s1.y as i128);
    let b1: i128 = (s1.x as i128) - (e1.x as i128);
    let a2: i128 = (e2.y as i128) - (s2.y as i128);
    let b2: i128 = (s2.x as i128) - (e2.x as i128);
    proof {
        lemma_mul_bound(a1 as int, s1.x as int, 2_000_000_000, 1_000_000_000);
        lemma_mul_bound(b1 as int, s1.y as int, 2_000_000_000, 1_000_000_000);
        lemma_mul_bound(a2 as int, s2.x as int, 2_000_000_000, 1_000_000_000);
        lemma_mul_bound(b2 as int, s2.y as int, 2_000_000_000, 1_000_000_000);
    }
    let c1: i128 = a1 * (s1.x as i128) + b1 * (s1.y as i128);
    let c2: i128 = a2 * (s2.x as i128) + b2 * (s2.y as i128);
    proof {
        lemma_mul_bound(a1 as int, b2 as int, 2_000_000_000, 2_000_000_000);
        lemma_mul_bound(a2 as int, b1 as int, 2_000_000_000, 2_000_000_000);
    }
    let delta: i128 = a1 * b2 - a2 * b1;
    if delta == 0 {
        None
    } else {
        proof {
            lemma_mul_bound(b2 as int, c1 as int, 2_000_000_000, 4_000_000_000_000_000_000);
            lemma_mul_bound(b1 as int, c2 as int, 2_000_000_000, 4_000_000_000_000_000_000);
            lemma_mul_bound(a1 as int, c2 as int, 2_000_000_000, 4_000_000_000_000_000_000);
            lemma_mul_bound(a2 as int, c1 as int, 2_000_000_000, 4_000_000_000_000_000_000);
        }
        let nx: i128 = b2 * c1 - b1 * c2;
        let ny: i128 = a1 * c2 - a2 * c1;
        proof {
            lemma_cramer(a1 as int, b1 as int, c1 as int, a2 as int, b2 as int, c2 as int);
        }
        Some(RatPoint { num_x: nx, num_y: ny, den: delta })
    }
}

} // verus!
