//! The background stars: three layers scattered at random once, each
//! following the craft by its own share of the craft's displacement.
use vstd::prelude::*;
use crate::geometry::{Point, UNIT, WORLD_EDGE};

verus! {

/// Number of depth layers.
pub const STAR_LAYERS: usize = 3;

/// Stars in each layer.
pub const STARS_PER_LAYER: usize = 100;

/// Stars are scattered over `[-STAR_SPREAD, STAR_SPREAD)` on each axis:
/// 2000 world units.
pub const STAR_SPREAD: i64 = 2000 * UNIT;

/// Thousandths of a pixel in one pixel.
pub const PIXEL: u64 = 1_000;

#[derive(Clone, Copy, Debug, PartialEq, Eq, Structural)]
pub struct Star {
    pub layer: usize,
    /// Where the star sits while the craft is at the origin.
    pub base_pos: Point,
    /// Where the star is drawn.
    pub pos: Point,
    /// Drawn size, in thousandths of a pixel.
    pub size: u64,
}

impl Star {
    pub open spec fn wf(self) -> bool {
        &&& self.layer < STAR_LAYERS
        &&& -STAR_SPREAD <= self.base_pos.x < STAR_SPREAD
        &&& -STAR_SPREAD <= self.base_pos.y < STAR_SPREAD
    }
}

/// Parallax of a layer, in thousandths: the far layer moves least.
pub open spec fn parallax_of(layer: int) -> int {
    if layer == 0 {
        200
    } else if layer == 1 {
        500
    } else {
        800
    }
}

/// Thousandths of the craft's displacement that a layer follows.
pub open spec fn follow_share(layer: int) -> int {
    1000 - parallax_of(layer)
}

/// The part `share / 1000` of `v`, rounded toward zero.
pub open spec fn part_of(v: int, share: int) -> int {
    if v >= 0 { v * share / 1000 } else { -((-v) * share / 1000) }
}

/// Where a star is drawn while the craft is at `craft`.
pub open spec fn star_at(s: Star, craft: Point) -> Star {
    let k = follow_share(s.layer as int);
    Star {
        pos: Point {
            x: (s.base_pos.x + part_of(craft.x as int, k)) as i64,
            y: (s.base_pos.y + part_of(craft.y as int, k)) as i64,
        },
        ..s
    }
}

/// Relies on rand::random_range over an integer range `lo..hi`: the draw
/// lies in `[lo, hi)`; an empty range panics, which `requires` excludes.
#[verifier::external_body]
fn draw_between(lo: i64, hi: i64) -> (r: i64)
    requires
        lo < hi,
    ensures
        lo <= r < hi,
{
    rand::random_range(lo..hi)
}

/// Thousandths of a layer's displacement share, as an integer.
fn follow_share_of(layer: usize) -> (r: i64)
    requires
        layer < STAR_LAYERS,
    ensures
        r == follow_share(layer as int),
        200 <= r <= 800,
{
    if layer == 0 {
        800
    } else if layer == 1 {
        500
    } else {
        200
    }
}

fn part(v: i64, share: i64) -> (r: i64)
    requires
        -WORLD_EDGE <= v <= WORLD_EDGE,
        0 <= share <= 1000,
    ensures
        r == part_of(v as int, share as int),
        -WORLD_EDGE <= r <= WORLD_EDGE,
{
    let a: i128 = if v >= 0 { v as i128 } else { -(v as i128) };
    proof {
        assert(0 <= a * share <= a * 1000) by (nonlinear_arith)
            requires
                0 <= a,
                0 <= share <= 1000,
        ;
    }
    let m: i128 = a * share as i128 / 1000;
    if v >= 0 {
        m as i64
    } else {
        -(m as i64)
    }
}

/// Draws of a point and a size that a star can be made from.
pub open spec fn draws_in_range(x: int, y: int, d: int) -> bool {
    &&& -STAR_SPREAD <= x < STAR_SPREAD
    &&& -STAR_SPREAD <= y < STAR_SPREAD
    &&& PIXEL <= d < 3 * PIXEL
}

/// The star of `layer` made from the point `(x, y)` and the size `d`.
pub open spec fn star_from_draws(layer: int, x: int, y: int, d: int) -> Star {
    Star {
        layer: layer as usize,
        base_pos: Point { x: x as i64, y: y as i64 },
        pos: Point { x: x as i64, y: y as i64 },
        size: (d * (layer + 1)) as u64,
    }
}

/// The star of layer `layer` whose draws were the point `(x, y)` and the
/// size `d` (in thousandths of a pixel, before depth scaling): it sits at
/// that point and is `d` times its layer's depth in size.
pub fn place_star(layer: usize, x: i64, y: i64, d: u64) -> (s: Star)
    requires
        layer < STAR_LAYERS,
        -STAR_SPREAD <= x < STAR_SPREAD,
        -STAR_SPREAD <= y < STAR_SPREAD,
        PIXEL <= d < 3 * PIXEL,
    ensures
        s == star_from_draws(layer as int, x as int, y as int, d as int),
        s.wf(),
        PIXEL * (s.layer + 1) <= s.size < 3 * PIXEL * (s.layer + 1),
{
    let depth: u64 = layer as u64 + 1;
    proof {
        assert(PIXEL * depth <= d * depth < 3 * PIXEL * depth) by (nonlinear_arith)
            requires
                PIXEL <= d < 3 * PIXEL,
                1 <= depth <= 3,
        ;
        assert(d * depth < 9000) by (nonlinear_arith)
            requires
                PIXEL <= d < 3 * PIXEL,
                1 <= depth <= 3,
        ;
    }
    let p = Point::new(x, y);
    Star { layer, base_pos: p, pos: p, size: d * depth }
}

/// Scatters the stars of every layer: star `i` is in layer
/// `i / STARS_PER_LAYER`, and is made by `place_star` from a point drawn
/// at random in the spread square and a size drawn at random from one to
/// three pixels.
pub fn spawn_starfield() -> (stars: Vec<Star>)
    ensures
        stars@.len() == STAR_LAYERS * STARS_PER_LAYER,
        forall|i: int|
            0 <= i < stars@.len() ==> {
                let s = #[trigger] stars@[i];
                &&& s.wf()
                &&& s.layer == i / STARS_PER_LAYER as int
                &&& s.pos == s.base_pos
                &&& PIXEL * (s.layer + 1) <= s.size < 3 * PIXEL * (s.layer + 1)
                &&& exists|x: int, y: int, d: int|
                    draws_in_range(x, y, d) && s == #[trigger] star_from_draws(
                        s.layer as int,
                        x,
                        y,
                        d,
                    )
            },
{
    let mut stars: Vec<Star> = Vec::new();
    let mut layer: usize = 0;
    while layer < STAR_LAYERS
        invariant
            layer <= STAR_LAYERS,
            stars@.len() == layer * STARS_PER_LAYER,
            forall|i: int|
                0 <= i < stars@.len() ==> {
                    let s = #[trigger] stars@[i];
                    &&& s.wf()
                    &&& s.layer == i / STARS_PER_LAYER as int
                    &&& s.pos == s.base_pos
                    &&& PIXEL * (s.layer + 1) <= s.size < 3 * PIXEL * (s.layer + 1)
                    &&& exists|x: int, y: int, d: int|
                        draws_in_range(x, y, d) && s == #[trigger] star_from_draws(
                            s.layer as int,
                            x,
                            y,
                            d,
                        )
                },
        decreases STAR_LAYERS - layer,
    {
        let mut n: usize = 0;
        while n < STARS_PER_LAYER
            invariant
                layer < STAR_LAYERS,
                n <= STARS_PER_LAYER,
                stars@.len() == layer * STARS_PER_LAYER + n,
                forall|i: int|
                    0 <= i < stars@.len() ==> {
                        let s = #[trigger] stars@[i];
                        &&& s.wf()
                        &&& s.layer == i / STARS_PER_LAYER as int
                        &&& s.pos == s.base_pos
                        &&& PIXEL * (s.layer + 1) <= s.size < 3 * PIXEL * (s.layer + 1)
                        &&& exists|x: int, y: int, d: int|
                            draws_in_range(x, y, d) && s == #[trigger] star_from_draws(
                                s.layer as int,
                                x,
                                y,
                                d,
                            )
                    },
            decreases STARS_PER_LAYER - n,
        {
            let x = draw_between(-STAR_SPREAD, STAR_SPREAD);
            let y = draw_between(-STAR_SPREAD, STAR_SPREAD);
            let d = draw_between(PIXEL as i64, 3 * PIXEL as i64) as u64;
            let star = place_star(layer, x, y, d);
            proof {
                assert(draws_in_range(x as int, y as int, d as int));
            }
            proof {
                let k = layer * STARS_PER_LAYER + n;
                assert(k / STARS_PER_LAYER as int == layer);
            }
            stars.push(star);
            n = n + 1;
        }
        layer = layer + 1;
    }
    stars
}

/// Redraws every star for a craft at `craft`.
pub fn parallax_starfield(stars: &mut Vec<Star>, craft: Point)
    requires
        craft.wf(),
        forall|i: int| 0 <= i < old(stars)@.len() ==> (#[trigger] old(stars)@[i]).wf(),
    ensures
        final(stars)@.len() == old(stars)@.len(),
        forall|i: int|
            0 <= i < final(stars)@.len() ==> #[trigger] final(stars)@[i] == star_at(
                old(stars)@[i],
                craft,
            ),
{
    let ghost start = stars@;
    let mut i: usize = 0;
    while i < stars.len()
        invariant
            craft.wf(),
            stars@.len() == start.len(),
            i <= stars@.len(),
            forall|j: int| 0 <= j < start.len() ==> (#[trigger] start[j]).wf(),
            forall|j: int| 0 <= j < i ==> #[trigger] stars@[j] == star_at(start[j], craft),
            forall|j: int| i <= j < stars@.len() ==> #[trigger] stars@[j] == start[j],
        decreases stars@.len() - i,
    {
        let s = stars[i];
        let k = follow_share_of(s.layer);
        let x = s.base_pos.x + part(craft.x, k);
        let y = s.base_pos.y + part(craft.y, k);
        stars.set(i, Star { pos: Point::new(x, y), ..s });
        i = i + 1;
    }
}

} // verus!
