//! Fixed-point plane geometry. One world unit is `UNIT` sub-units; every
//! coordinate and length in the crate is counted in sub-units.

use vstd::prelude::*;

verus! {

/// Sub-units per world unit.
pub const UNIT: i32 = 1000;

/// A point of the plane.
#[derive(Clone, Copy, Debug, PartialEq, Eq, Structural)]
pub struct Position {
    pub x: i32,
    pub y: i32,
}

/// Half the width and half the height of an axis-aligned box.
#[derive(Clone, Copy, Debug, PartialEq, Eq, Structural)]
pub struct HalfExtent {
    pub x: u32,
    pub y: u32,
}

/// The square of the planar distance between two points.
pub open spec fn distance_squared(a: Position, b: Position) -> int {
    (a.x - b.x) * (a.x - b.x) + (a.y - b.y) * (a.y - b.y)
}

/// Whether `b` lies within `radius` of `a` (the rim included).
pub open spec fn within(a: Position, b: Position, radius: u32) -> bool {
    distance_squared(a, b) <= radius * radius
}

/// `v` brought into the range of a coordinate.
pub open spec fn clamp_coordinate(v: int) -> i32 {
    if v < i32::MIN {
        i32::MIN
    } else if v > i32::MAX {
        i32::MAX
    } else {
        v as i32
    }
}

/// Whether two boxes, each given by centre and half extent, overlap on both
/// axes. Boxes that merely touch do not overlap.
pub open spec fn overlaps(p: Position, ph: HalfExtent, s: Position, sh: HalfExtent) -> bool {
    &&& p.x + ph.x > s.x - sh.x
    &&& p.x - ph.x < s.x + sh.x
    &&& p.y + ph.y > s.y - sh.y
    &&& p.y - ph.y < s.y + sh.y
}

proof fn lemma_square_bound(d: int)
    by (nonlinear_arith)
    requires
        -0x1_0000_0000 < d < 0x1_0000_0000,
    ensures
        0 <= d * d < 0x1_0000_0000_0000_0000,
{
}

/// Computes the squared distance between two points.
pub fn squared_distance(a: Position, b: Position) -> (r: u128)
    ensures
        r == distance_squared(a, b),
{
    let dx: i128 = a.x as i128 - b.x as i128;
    let dy: i128 = a.y as i128 - b.y as i128;
    proof {
        lemma_square_bound(dx as int);
        lemma_square_bound(dy as int);
    }
    (dx * dx + dy * dy) as u128
}

/// Decides whether `b` lies within `radius` of `a`.
pub fn is_within(a: Position, b: Position, radius: u32) -> (r: bool)
    ensures
        r == within(a, b, radius),
{
    proof {
        lemma_square_bound(radius as int);
    }
    let reach: u128 = (radius as u128) * (radius as u128);
    squared_distance(a, b) <= reach
}

/// Brings a coordinate computed in 64 bits back into range.
pub fn clamped(v: i64) -> (r: i32)
    ensures
        r == clamp_coordinate(v as int),
{
    if v < i32::MIN as i64 {
        i32::MIN
    } else if v > i32::MAX as i64 {
        i32::MAX
    } else {
        v as i32
    }
}

/// Decides whether two boxes overlap on both axes.
pub fn boxes_overlap(p: Position, ph: HalfExtent, s: Position, sh: HalfExtent) -> (r: bool)
    ensures
        r == overlaps(p, ph, s, sh),
{
    let px: i64 = p.x as i64;
    let py: i64 = p.y as i64;
    let sx: i64 = s.x as i64;
    let sy: i64 = s.y as i64;
    px + ph.x as i64 > sx - sh.x as i64 && px - (ph.x as i64) < sx + sh.x as i64 && py
        + ph.y as i64 > sy - sh.y as i64 && py - (ph.y as i64) < sy + sh.y as i64
}

} // verus!
