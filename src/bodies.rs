//! The celestial bodies and the effects they have on a craft close by:
//! refuelling at the base or the moon, hull damage near the sun, and the
//! choice of a body to dock with.
use vstd::prelude::*;
use crate::craft::{rate_over, Spaceship, FULL, FULL_TURN};
use crate::geometry::{is_within, within, Point, UNIT};

verus! {

/// A craft closer than this to the base is refuelled: 150 world units.
pub const BASE_REFUEL_RADIUS: u64 = 150_000_000;

/// A craft closer than this to the moon is refuelled: 100 world units.
pub const MOON_REFUEL_RADIUS: u64 = 100_000_000;

/// A craft closer than this to the sun takes damage: 600 world units.
pub const SUN_DAMAGE_RADIUS: u64 = 600_000_000;

/// Hull lost per second near the sun: a quarter of a whole hull.
pub const SUN_DAMAGE_RATE: u64 = 250_000_000;

/// A craft closer than this to a body may dock with it: 120 world units.
pub const DOCK_INTERACT_RADIUS: u64 = 120_000_000;

/// The sun's turn in each frame, in angle units (about 0.01 radians).
pub const SUN_SPIN_PER_FRAME: u64 = 3_183;

#[derive(Clone, Copy, Debug, PartialEq, Eq, Structural)]
pub enum BodyKind {
    Base,
    Moon,
    Sun,
}

/// A body that stays where it was placed. `reach` is the radius of its
/// effect (refuelling or damage); `spin` is the angle it is drawn at.
#[derive(Clone, Copy, Debug, PartialEq, Eq, Structural)]
pub struct Body {
    pub kind: BodyKind,
    pub pos: Point,
    pub reach: u64,
    pub spin: u64,
}

/// Whether the sun burnt the craft's hull in the last frame.
#[derive(Clone, Copy, Debug, PartialEq, Eq, Structural)]
pub struct SunDamageWarning(pub bool);

impl Body {
    pub open spec fn wf(self) -> bool {
        self.pos.wf() && self.spin < FULL_TURN
    }

    /// The home base, at the origin.
    pub fn base() -> (r: Body)
        ensures
            r.wf(),
            r.kind == BodyKind::Base,
            r.pos == (Point { x: 0, y: 0 }),
            r.reach == BASE_REFUEL_RADIUS,
            r.spin == 0,
    {
        Body { kind: BodyKind::Base, pos: Point::new(0, 0), reach: BASE_REFUEL_RADIUS, spin: 0 }
    }

    /// The moon, at (4600, 4400) world units.
    pub fn moon() -> (r: Body)
        ensures
            r.wf(),
            r.kind == BodyKind::Moon,
            r.pos.x == 4600 * UNIT,
            r.pos.y == 4400 * UNIT,
            r.reach == MOON_REFUEL_RADIUS,
            r.spin == 0,
    {
        Body {
            kind: BodyKind::Moon,
            pos: Point::from_units(4600, 4400),
            reach: MOON_REFUEL_RADIUS,
            spin: 0,
        }
    }

    /// The sun, at (8000, 8000) world units.
    pub fn sun() -> (r: Body)
        ensures
            r.wf(),
            r.kind == BodyKind::Sun,
            r.pos.x == 8000 * UNIT,
            r.pos.y == 8000 * UNIT,
            r.reach == SUN_DAMAGE_RADIUS,
            r.spin == 0,
    {
        Body {
            kind: BodyKind::Sun,
            pos: Point::from_units(8000, 8000),
            reach: SUN_DAMAGE_RADIUS,
            spin: 0,
        }
    }
}

/// The craft after a visit check: inside the reach of the base or of the
/// moon the tank is filled at once.
pub open spec fn refuelled(s: Spaceship, base: Body, moon: Body) -> Spaceship {
    if is_within(s.pos, base.pos, base.reach as int) || is_within(s.pos, moon.pos, moon.reach as int) {
        Spaceship { fuel: FULL, ..s }
    } else {
        s
    }
}

/// Hull after `dt` microseconds in the sun's reach, down to nothing.
pub open spec fn hull_burnt(hull: int, dt: int) -> int {
    let loss = rate_over(SUN_DAMAGE_RATE as int, dt);
    if hull - loss < 0 { 0 } else { hull - loss }
}

/// The craft after a frame of `dt` microseconds near or away from the sun.
pub open spec fn sun_damaged(s: Spaceship, sun: Body, dt: int) -> Spaceship {
    if is_within(s.pos, sun.pos, sun.reach as int) {
        Spaceship { hull: hull_burnt(s.hull as int, dt) as u64, ..s }
    } else {
        s
    }
}

/// Fills the tank of a craft inside the reach of the base or the moon.
pub fn refuel_on_base_visit(ship: &mut Spaceship, base: &Body, moon: &Body)
    requires
        old(ship).wf(),
        base.wf(),
        moon.wf(),
    ensures
        *final(ship) == refuelled(*old(ship), *base, *moon),
        final(ship).wf(),
{
    if within(ship.pos, base.pos, base.reach) || within(ship.pos, moon.pos, moon.reach) {
        ship.fuel = FULL;
    }
}

/// Burns the hull of a craft inside the sun's reach for `dt_us`
/// microseconds, and raises the warning exactly when it does.
pub fn sun_proximity_damage(
    ship: &mut Spaceship,
    sun: &Body,
    dt_us: u64,
    warning: &mut SunDamageWarning,
)
    requires
        old(ship).wf(),
        sun.wf(),
    ensures
        *final(ship) == sun_damaged(*old(ship), *sun, dt_us as int),
        final(warning).0 == is_within(old(ship).pos, sun.pos, sun.reach as int),
        final(ship).wf(),
{
    if within(ship.pos, sun.pos, sun.reach) {
        let loss: u128 = SUN_DAMAGE_RATE as u128 * dt_us as u128 / 1_000_000;
        ship.hull = if loss >= ship.hull as u128 { 0 } else { ship.hull - loss as u64 };
        *warning = SunDamageWarning(true);
    } else {
        *warning = SunDamageWarning(false);
    }
}

/// Turns the sun by its spin of one frame.
pub fn rotate_sun(sun: &mut Body)
    requires
        old(sun).wf(),
    ensures
        *final(sun) == (Body {
            spin: ((old(sun).spin + SUN_SPIN_PER_FRAME) % (FULL_TURN as int)) as u64,
            ..*old(sun)
        }),
        final(sun).wf(),
{
    sun.spin = (sun.spin + SUN_SPIN_PER_FRAME) % FULL_TURN;
}

/// The first of `targets` that `pos` lies within docking reach of.
pub fn dock_candidate(pos: Point, targets: &Vec<Body>) -> (r: Option<usize>)
    requires
        pos.wf(),
        forall|j: int| 0 <= j < targets@.len() ==> (#[trigger] targets@[j]).wf(),
    ensures
        match r {
            Some(i) => {
                &&& i < targets@.len()
                &&& is_within(pos, targets@[i as int].pos, DOCK_INTERACT_RADIUS as int)
                &&& forall|j: int|
                    0 <= j < i ==> !is_within(
                        pos,
                        (#[trigger] targets@[j]).pos,
                        DOCK_INTERACT_RADIUS as int,
                    )
            },
            None => forall|j: int|
                0 <= j < targets@.len() ==> !is_within(
                    pos,
                    (#[trigger] targets@[j]).pos,
                    DOCK_INTERACT_RADIUS as int,
                ),
        },
{
    let mut i: usize = 0;
    while i < targets.len()
        invariant
            i <= targets@.len(),
            pos.wf(),
            forall|j: int| 0 <= j < targets@.len() ==> (#[trigger] targets@[j]).wf(),
            forall|j: int|
                0 <= j < i ==> !is_within(
                    pos,
                    (#[trigger] targets@[j]).pos,
                    DOCK_INTERACT_RADIUS as int,
                ),
        decreases targets@.len() - i,
    {
        if within(pos, targets[i].pos, DOCK_INTERACT_RADIUS) {
            return Some(i);
        }
        i = i + 1;
    }
    None
}

} // verus!
