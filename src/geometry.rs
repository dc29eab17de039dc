//! Points of the world plane and distance tests between them.
use vstd::prelude::*;

verus! {

/// Micro-units in one world unit.
pub const UNIT: i64 = 1_000_000;

/// No coordinate leaves `[-WORLD_EDGE, WORLD_EDGE]` (four billion world units).
pub const WORLD_EDGE: i64 = 4_000_000_000_000_000;

/// A point of the world plane, in micro-units.
#[derive(Clone, Copy, Debug, PartialEq, Eq, Structural)]
pub struct Point {
    pub x: i64,
    pub y: i64,
}

/// The value of `v` held to `[-WORLD_EDGE, WORLD_EDGE]`.
pub open spec fn clamp_coord(v: int) -> int {
    if v < -WORLD_EDGE {
        -WORLD_EDGE as int
    } else if v > WORLD_EDGE {
        WORLD_EDGE as int
    } else {
        v
    }
}

/// Squared euclidean distance between two points.
pub open spec fn dist_sq(a: Point, b: Point) -> int {
    (a.x - b.x) * (a.x - b.x) + (a.y - b.y) * (a.y - b.y)
}

/// `a` lies strictly closer to `b` than `radius`.
pub open spec fn is_within(a: Point, b: Point, radius: int) -> bool {
    dist_sq(a, b) < radius * radius
}

impl Point {
    /// Both coordinates lie inside the world's edge.
    pub open spec fn wf(self) -> bool {
        -WORLD_EDGE <= self.x <= WORLD_EDGE && -WORLD_EDGE <= self.y <= WORLD_EDGE
    }

    /// The point `(x, y)`, in micro-units.
    pub fn new(x: i64, y: i64) -> (r: Point)
        ensures
            r.x == x,
            r.y == y,
    {
        Point { x, y }
    }

    /// The point `(x, y)` given in whole world units.
    pub fn from_units(x: i32, y: i32) -> (r: Point)
        ensures
            r.x == x * UNIT,
            r.y == y * UNIT,
            r.wf(),
    {
        Point { x: x as i64 * UNIT, y: y as i64 * UNIT }
    }
}

/// Holds a coordinate to the world's edge.
pub fn clamp_to_edge(v: i128) -> (r: i64)
    ensures
        r == clamp_coord(v as int),
{
    if v < -(WORLD_EDGE as i128) {
        -WORLD_EDGE
    } else if v > WORLD_EDGE as i128 {
        WORLD_EDGE
    } else {
        v as i64
    }
}

proof fn lemma_square_bound(d: int)
    requires
        -2 * WORLD_EDGE <= d <= 2 * WORLD_EDGE,
    ensures
        0 <= d * d <= 4 * WORLD_EDGE * WORLD_EDGE,
{
    assert(0 <= d * d <= 4 * WORLD_EDGE * WORLD_EDGE) by (nonlinear_arith)
        requires
            -2 * WORLD_EDGE <= d <= 2 * WORLD_EDGE,
    ;
}

/// Squared distance between two points inside the world.
pub fn distance_sq(a: Point, b: Point) -> (r: u128)
    requires
        a.wf(),
        b.wf(),
    ensures
        r == dist_sq(a, b),
{
    let dx: i128 = a.x as i128 - b.x as i128;
    let dy: i128 = a.y as i128 - b.y as i128;
    proof {
        lemma_square_bound(dx as int);
        lemma_square_bound(dy as int);
    }
    let sx: u128 = (dx * dx) as u128;
    let sy: u128 = (dy * dy) as u128;
    sx + sy
}

/// Whether `a` lies strictly closer to `b` than `radius` micro-units.
pub fn within(a: Point, b: Point, radius: u64) -> (r: bool)
    requires
        a.wf(),
        b.wf(),
    ensures
        r == is_within(a, b, radius as int),
{
    proof {
        let w = radius as int;
        assert(0 <= w * w <= 0xffff_ffff_ffff_ffff * 0xffff_ffff_ffff_ffff) by (nonlinear_arith)
            requires
                0 <= w <= 0xffff_ffff_ffff_ffff,
        ;
    }
    let rr: u128 = radius as u128 * radius as u128;
    distance_sq(a, b) < rr
}

} // verus!
