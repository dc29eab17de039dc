//! The player's craft and the controller that turns held keys into heading,
//! throttle, fuel use and motion.
//!
//! Speed is bounded: thrust stops adding at `MAX_THROTTLE`, braking stops at
//! rest, and an empty tank brings the craft to rest in the frame it empties.
use vstd::prelude::*;
use vstd::arithmetic::div_mod::lemma_fundamental_div_mod_converse;
use crate::geometry::{clamp_coord, clamp_to_edge, Point};

verus! {

/// Microseconds in one second.
pub const MICROS_PER_SEC: u64 = 1_000_000;

/// A full tank, a whole hull, full shields.
pub const FULL: u64 = 1_000_000_000;

/// Angle units in one full turn (one unit is pi / 1_000_000 radians).
pub const FULL_TURN: u64 = 2_000_000;

/// Angle units in half a turn, pi radians.
pub const HALF_TURN: u64 = 1_000_000;

/// Turn rate: pi radians per second, in angle units per second.
pub const ROTATION_RATE: u64 = 1_000_000;

/// Top speed: 800 world units per second, in micro-units per second.
/// Thrust never takes the craft beyond it, and the craft stops the moment
/// its tank runs dry.
pub const MAX_THROTTLE: u64 = 800_000_000;

/// Speed gained or lost per second of thrust: 200 world units per second.
pub const THRUST_ACCEL: u64 = 200_000_000;

/// Fuel burnt per second at top speed: a quarter of the tank.
pub const FUEL_BURN_RATE: u64 = 250_000_000;

/// Length of a unit facing vector.
pub const FACING_ONE: i64 = 1_000_000;

/// The keys held during one frame.
#[derive(Clone, Copy, Debug, PartialEq, Eq, Structural)]
pub struct Controls {
    pub turn_left: bool,
    pub turn_right: bool,
    pub forward: bool,
    pub backward: bool,
}

/// The unit vector the craft faces, scaled by `FACING_ONE`.
///
/// It comes from the heading by trigonometry, which the caller computes:
/// for heading `h` it is `FACING_ONE * (-sin a, cos a)` with
/// `a = h * pi / HALF_TURN`, rounded.
#[derive(Clone, Copy, Debug, PartialEq, Eq, Structural)]
pub struct Facing {
    pub x: i64,
    pub y: i64,
}

impl Facing {
    /// No component is longer than a unit, and the vector is a unit one to
    /// within the rounding of its components.
    pub open spec fn wf(self) -> bool {
        &&& -FACING_ONE <= self.x <= FACING_ONE
        &&& -FACING_ONE <= self.y <= FACING_ONE
        &&& (FACING_ONE - 1) * (FACING_ONE - 1) <= self.x * self.x + self.y * self.y
        &&& self.x * self.x + self.y * self.y <= (FACING_ONE + 1) * (FACING_ONE + 1)
    }

    /// Whether this vector is a unit one, as `move_spaceship` needs.
    pub fn is_unit(&self) -> (r: bool)
        ensures
            r == self.wf(),
    {
        if self.x < -FACING_ONE || self.x > FACING_ONE || self.y < -FACING_ONE || self.y
            > FACING_ONE {
            return false;
        }
        let x = self.x as i128;
        let y = self.y as i128;
        proof {
            assert(0 <= x * x <= FACING_ONE * FACING_ONE && 0 <= y * y <= FACING_ONE * FACING_ONE) by (
            nonlinear_arith)
                requires
                    -FACING_ONE <= x <= FACING_ONE,
                    -FACING_ONE <= y <= FACING_ONE,
            ;
        }
        let len_sq = x * x + y * y;
        let lo = (FACING_ONE - 1) as i128;
        let hi = (FACING_ONE + 1) as i128;
        lo * lo <= len_sq && len_sq <= hi * hi
    }
}

/// The craft: where it is, where it faces, how fast it goes and what it
/// has left.
#[derive(Clone, Copy, Debug, PartialEq, Eq, Structural)]
pub struct Spaceship {
    pub pos: Point,
    /// Facing angle, counter-clockwise from the world's `+y` axis.
    pub heading: u64,
    /// Speed along the heading, micro-units per second.
    pub throttle: u64,
    pub fuel: u64,
    pub hull: u64,
    pub shields: u64,
    pub weapons: u32,
}

impl Spaceship {
    /// Levels lie within a full tank, the heading within one turn, the
    /// speed within the top speed, and a dry tank leaves no thrust.
    pub open spec fn wf(self) -> bool {
        &&& self.pos.wf()
        &&& self.heading < FULL_TURN
        &&& self.throttle <= MAX_THROTTLE
        &&& self.fuel <= FULL
        &&& self.hull <= FULL
        &&& self.shields <= FULL
        &&& (self.fuel == 0 ==> self.throttle == 0)
    }

    /// A new craft at the base: at rest, facing down the screen, full
    /// tank, whole hull, full shields and one weapon.
    pub fn new() -> (r: Spaceship)
        ensures
            r.wf(),
            r.pos == (Point { x: 0, y: 0 }),
            r.heading == HALF_TURN,
            r.throttle == 0,
            r.fuel == FULL,
            r.hull == FULL,
            r.shields == FULL,
            r.weapons == 1,
    {
        Spaceship {
            pos: Point { x: 0, y: 0 },
            heading: HALF_TURN,
            throttle: 0,
            fuel: FULL,
            hull: FULL,
            shields: FULL,
            weapons: 1,
        }
    }
}

/// What `rate` per second amounts to over `dt` microseconds, rounded down.
pub open spec fn rate_over(rate: int, dt: int) -> int {
    rate * dt / MICROS_PER_SEC as int
}

/// The turn asked for: `+1` left, `-1` right, `0` for both or neither.
pub open spec fn turn_of(c: Controls) -> int {
    (if c.turn_left { 1int } else { 0int }) - (if c.turn_right { 1int } else { 0int })
}

/// Heading after turning for `dt` microseconds, within one turn.
pub open spec fn heading_after(h: int, c: Controls, dt: int) -> int {
    (h + turn_of(c) * rate_over(ROTATION_RATE as int, dt)) % (FULL_TURN as int)
}

/// Speed after a frame: thrust adds (while there is fuel) up to the top
/// speed, then braking takes away down to rest.
pub open spec fn throttle_after(t: int, fuel: int, c: Controls, dt: int) -> int {
    let a = rate_over(THRUST_ACCEL as int, dt);
    let pushed = if c.forward && fuel > 0 {
        if t + a > MAX_THROTTLE { MAX_THROTTLE as int } else { t + a }
    } else {
        t
    };
    if c.backward {
        if pushed - a < 0 { 0 } else { pushed - a }
    } else {
        pushed
    }
}

/// Fuel burnt at speed `t` over `dt` microseconds, rounded down.
pub open spec fn burn(t: int, dt: int) -> int {
    FUEL_BURN_RATE * t * dt / (MAX_THROTTLE * MICROS_PER_SEC) as int
}

/// Fuel after a frame: thrust held with fuel left burns in proportion to
/// the new speed, down to an empty tank.
pub open spec fn fuel_after(fuel: int, t: int, c: Controls, dt: int) -> int {
    if c.forward && fuel > 0 && t > 0 {
        if fuel - burn(t, dt) < 0 { 0 } else { fuel - burn(t, dt) }
    } else {
        fuel
    }
}

/// Distance covered along one axis, whose facing component is `f`, at
/// speed `t` over `dt` microseconds, rounded toward zero.
pub open spec fn travel(f: int, t: int, dt: int) -> int {
    let d = (FACING_ONE * MICROS_PER_SEC) as int;
    if f >= 0 { f * t * dt / d } else { -((-f) * t * dt / d) }
}

/// The craft after one frame of the controller. The facing given is that
/// of the new heading. A dry tank cuts the thrust at once.
pub open spec fn drive(s: Spaceship, c: Controls, dt: int, facing: Facing) -> Spaceship {
    let t1 = throttle_after(s.throttle as int, s.fuel as int, c, dt);
    let fuel = fuel_after(s.fuel as int, t1, c, dt);
    let t = if fuel == 0 { 0 } else { t1 };
    Spaceship {
        pos: Point {
            x: clamp_coord(s.pos.x + travel(facing.x as int, t, dt)) as i64,
            y: clamp_coord(s.pos.y + travel(facing.y as int, t, dt)) as i64,
        },
        heading: heading_after(s.heading as int, c, dt) as u64,
        throttle: t as u64,
        fuel: fuel as u64,
        ..s
    }
}

/// The heading after turning as `controls` ask for `dt_us` microseconds.
pub fn heading_after_turn(heading: u64, controls: Controls, dt_us: u64) -> (r: u64)
    requires
        heading < FULL_TURN,
    ensures
        r == heading_after(heading as int, controls, dt_us as int),
        r < FULL_TURN,
{
    let full: u128 = FULL_TURN as u128;
    let swept: u128 = ROTATION_RATE as u128 * dt_us as u128 / MICROS_PER_SEC as u128;
    let step: u128 = swept % full;
    let h: u128 = heading as u128;
    if controls.turn_left && !controls.turn_right {
        let r: u128 = (h + step) % full;
        proof {
            let (hi, si, fi) = (h as int, swept as int, full as int);
            let x = hi + step as int;
            assert(turn_of(controls) * si == si);
            lemma_fundamental_div_mod_converse(hi + si, fi, x / fi + si / fi, r as int);
        }
        r as u64
    } else if controls.turn_right && !controls.turn_left {
        let r: u128 = (h + (full - step)) % full;
        proof {
            let (hi, si, fi) = (h as int, swept as int, full as int);
            let y = hi + fi - step as int;
            assert(turn_of(controls) == -1);
            assert(turn_of(controls) * si == -si);
            lemma_fundamental_div_mod_converse(hi - si, fi, y / fi - si / fi - 1, r as int);
        }
        r as u64
    } else {
        proof {
            assert(turn_of(controls) == 0);
            assert(turn_of(controls) * swept == 0);
            lemma_fundamental_div_mod_converse(h as int, full as int, 0, h as int);
        }
        heading
    }
}

/// A product of three bounded naturals is bounded by the product of the bounds.
proof fn lemma_mul3_bound(a: int, b: int, c: int, ma: int, mb: int, mc: int)
    requires
        0 <= a <= ma,
        0 <= b <= mb,
        0 <= c <= mc,
    ensures
        0 <= a * b * c <= ma * mb * mc,
{
    assert(0 <= a * b * c <= ma * mb * mc) by (nonlinear_arith)
        requires
            0 <= a <= ma,
            0 <= b <= mb,
            0 <= c <= mc,
    ;
}

/// Distance covered along one axis whose facing component is `f`.
fn travel_along(f: i64, t: u64, dt_us: u64) -> (r: i128)
    requires
        -FACING_ONE <= f <= FACING_ONE,
        t <= MAX_THROTTLE,
    ensures
        r == travel(f as int, t as int, dt_us as int),
        -MAX_THROTTLE * 0x1_0000_0000_0000_0000 <= r <= MAX_THROTTLE * 0x1_0000_0000_0000_0000,
{
    let d: u128 = FACING_ONE as u128 * MICROS_PER_SEC as u128;
    let a: u64 = if f >= 0 { f as u64 } else { (-f) as u64 };
    proof {
        lemma_mul3_bound(
            a as int,
            t as int,
            dt_us as int,
            FACING_ONE as int,
            MAX_THROTTLE as int,
            0xffff_ffff_ffff_ffff,
        );
        lemma_mul3_bound(a as int, t as int, 1, FACING_ONE as int, MAX_THROTTLE as int, 1);
    }
    let m: u128 = a as u128 * t as u128 * dt_us as u128 / d;
    proof {
        assert(m <= MAX_THROTTLE * 0x1_0000_0000_0000_0000) by (nonlinear_arith)
            requires
                m == (a as int) * (t as int) * (dt_us as int) / (d as int),
                d == FACING_ONE * MICROS_PER_SEC,
                0 <= (a as int) * (t as int) * (dt_us as int) <= FACING_ONE * MAX_THROTTLE * 0xffff_ffff_ffff_ffff,
        ;
    }
    if f >= 0 {
        m as i128
    } else {
        -(m as i128)
    }
}

/// One frame of the craft controller, `dt_us` microseconds long: turn,
/// thrust or brake, burn fuel and move. `facing` is the unit vector of the
/// heading this frame ends with (see `heading_after_turn`).
pub fn move_spaceship(ship: &mut Spaceship, controls: Controls, dt_us: u64, facing: Facing)
    requires
        old(ship).wf(),
        facing.wf(),
    ensures
        *final(ship) == drive(*old(ship), controls, dt_us as int, facing),
        final(ship).wf(),
{
    let heading = heading_after_turn(ship.heading, controls, dt_us);
    let gain: u128 = THRUST_ACCEL as u128 * dt_us as u128 / MICROS_PER_SEC as u128;
    let mut t: u128 = ship.throttle as u128;
    if controls.forward && ship.fuel > 0 {
        t = if t + gain > MAX_THROTTLE as u128 { MAX_THROTTLE as u128 } else { t + gain };
    }
    if controls.backward {
        t = if t < gain { 0 } else { t - gain };
    }
    let mut fuel: u64 = ship.fuel;
    if controls.forward && ship.fuel > 0 && t > 0 {
        proof {
            lemma_mul3_bound(
                FUEL_BURN_RATE as int,
                t as int,
                dt_us as int,
                FUEL_BURN_RATE as int,
                MAX_THROTTLE as int,
                0xffff_ffff_ffff_ffff,
            );
        }
        let spent: u128 = FUEL_BURN_RATE as u128 * t * dt_us as u128 / (MAX_THROTTLE as u128
            * MICROS_PER_SEC as u128);
        fuel = if spent >= fuel as u128 { 0 } else { fuel - spent as u64 };
    }
    if fuel == 0 {
        t = 0;
    }
    let dx = travel_along(facing.x, t as u64, dt_us);
    let dy = travel_along(facing.y, t as u64, dt_us);
    let x = clamp_to_edge(ship.pos.x as i128 + dx);
    let y = clamp_to_edge(ship.pos.y as i128 + dy);
    ship.pos = Point { x, y };
    ship.heading = heading;
    ship.throttle = t as u64;
    ship.fuel = fuel;
}

} // verus!
