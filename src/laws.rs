//! Properties of the simulation over whole runs of frames, stated over the
//! same spec functions that the per-frame contracts use, and proved.
use vstd::prelude::*;
use vstd::arithmetic::div_mod::lemma_add_mod_noop_right;
use vstd::arithmetic::power::pow;
use crate::bodies::{hull_burnt, refuelled, sun_damaged, Body, SUN_DAMAGE_RATE};
use crate::camera::{zoom_step, FAR_ZOOM, NOMINAL_FPS, ZOOM_SPEED};
use crate::craft::{
    burn, drive, heading_after, rate_over, throttle_after, turn_of, Controls, Facing,
    Spaceship, FUEL_BURN_RATE, FULL, FULL_TURN, HALF_TURN, MAX_THROTTLE, MICROS_PER_SEC,
    ROTATION_RATE, THRUST_ACCEL,
};
use crate::flow::{counted_down, GameFlow, GameState, MenuState, SPLASH_US};
use crate::geometry::is_within;
use crate::world::ship_frame;

verus! {

/// What the craft is handed in one frame.
#[derive(Clone, Copy, Debug, PartialEq, Eq, Structural)]
pub struct Frame {
    pub controls: Controls,
    pub dt_us: u64,
    pub facing: Facing,
}

/// Total length of a run of frame times.
pub open spec fn total(dts: Seq<u64>) -> int
    decreases dts.len(),
{
    if dts.len() == 0 {
        0
    } else {
        dts[0] + total(dts.drop_first())
    }
}

/// The craft after a run of frames near fixed bodies.
pub open spec fn ship_after_frames(
    s: Spaceship,
    frames: Seq<Frame>,
    base: Body,
    moon: Body,
    sun: Body,
) -> Spaceship
    decreases frames.len(),
{
    if frames.len() == 0 {
        s
    } else {
        let f = frames[0];
        ship_after_frames(
            ship_frame(s, f.controls, f.dt_us as int, f.facing, base, moon, sun),
            frames.drop_first(),
            base,
            moon,
            sun,
        )
    }
}

/// The heading after turning through a run of frames with the same keys.
pub open spec fn heading_after_frames(h: int, c: Controls, dts: Seq<u64>) -> int
    decreases dts.len(),
{
    if dts.len() == 0 {
        h
    } else {
        heading_after_frames(heading_after(h, c, dts[0] as int), c, dts.drop_first())
    }
}

/// Thrust held, and nothing else.
pub open spec fn full_thrust() -> Controls {
    Controls { turn_left: false, turn_right: false, forward: true, backward: false }
}

/// The craft after a run of frames of full thrust on a fixed facing.
pub open spec fn thrust_run(s: Spaceship, dts: Seq<u64>, facing: Facing) -> Spaceship
    decreases dts.len(),
{
    if dts.len() == 0 {
        s
    } else {
        thrust_run(drive(s, full_thrust(), dts[0] as int, facing), dts.drop_first(), facing)
    }
}

/// The craft after a run of frames spent where the sun can reach it.
pub open spec fn sun_exposure(s: Spaceship, sun: Body, dts: Seq<u64>) -> Spaceship
    decreases dts.len(),
{
    if dts.len() == 0 {
        s
    } else {
        sun_exposure(sun_damaged(s, sun, dts[0] as int), sun, dts.drop_first())
    }
}

/// The zoom after `n` frames of smoothing toward `target`.
pub open spec fn zoom_after(z: int, target: int, n: nat) -> int
    decreases n,
{
    if n == 0 {
        z
    } else {
        zoom_step(zoom_after(z, target, (n - 1) as nat), target)
    }
}

/// The flow after a run of frame times.
pub open spec fn flow_after(f: GameFlow, dts: Seq<u64>) -> GameFlow
    decreases dts.len(),
{
    if dts.len() == 0 {
        f
    } else {
        flow_after(counted_down(f, dts[0] as int), dts.drop_first())
    }
}

/// How many frames of a run move the flow from the splash screen to the
/// menu.
pub open spec fn menu_openings(f: GameFlow, dts: Seq<u64>) -> nat
    decreases dts.len(),
{
    if dts.len() == 0 {
        0
    } else {
        let g = counted_down(f, dts[0] as int);
        (if f.state == GameState::Splash && g.state == GameState::Menu { 1nat } else { 0nat })
            + menu_openings(g, dts.drop_first())
    }
}

/// One frame of the controller keeps a well-formed craft well-formed.
pub proof fn lemma_drive_keeps_wf(s: Spaceship, c: Controls, dt: int, facing: Facing)
    requires
        s.wf(),
        facing.wf(),
        dt >= 0,
    ensures
        drive(s, c, dt, facing).wf(),
{
    let t1 = throttle_after(s.throttle as int, s.fuel as int, c, dt);
    assert(0 <= rate_over(THRUST_ACCEL as int, dt)) by (nonlinear_arith)
        requires
            dt >= 0,
    ;
    assert(0 <= t1 <= MAX_THROTTLE);
    assert(burn(t1, dt) >= 0) by (nonlinear_arith)
        requires
            t1 >= 0,
            dt >= 0,
    ;
}

/// The levels of a craft stay between empty and full, and its speed within
/// the top speed, through any run of frames of any length.
pub proof fn lemma_levels_stay_in_range(
    s: Spaceship,
    frames: Seq<Frame>,
    base: Body,
    moon: Body,
    sun: Body,
)
    requires
        s.wf(),
        forall|i: int| 0 <= i < frames.len() ==> (#[trigger] frames[i]).facing.wf(),
    ensures
        ship_after_frames(s, frames, base, moon, sun).wf(),
        0 <= ship_after_frames(s, frames, base, moon, sun).fuel <= FULL,
        0 <= ship_after_frames(s, frames, base, moon, sun).hull <= FULL,
        ship_after_frames(s, frames, base, moon, sun).throttle <= MAX_THROTTLE,
    decreases frames.len(),
{
    if frames.len() > 0 {
        let f = frames[0];
        assert(f.facing.wf());
        lemma_drive_keeps_wf(s, f.controls, f.dt_us as int, f.facing);
        let d = drive(s, f.controls, f.dt_us as int, f.facing);
        let r = refuelled(d, base, moon);
        assert(r.wf());
        let loss = rate_over(SUN_DAMAGE_RATE as int, f.dt_us as int);
        assert(loss >= 0) by (nonlinear_arith)
            requires
                loss == SUN_DAMAGE_RATE * (f.dt_us as int) / MICROS_PER_SEC as int,
        ;
        assert(sun_damaged(r, sun, f.dt_us as int).wf());
        let rest = frames.drop_first();
        assert forall|i: int| 0 <= i < rest.len() implies (#[trigger] rest[i]).facing.wf() by {
            assert(rest[i] == frames[i + 1]);
        }
        lemma_levels_stay_in_range(
            ship_frame(s, f.controls, f.dt_us as int, f.facing, base, moon, sun),
            rest,
            base,
            moon,
            sun,
        );
    }
}

/// Turning over two frames comes to the same heading as turning over one
/// frame as long as both.
pub proof fn lemma_turning_adds_up(h: int, c: Controls, a: nat, b: nat)
    requires
        0 <= h < FULL_TURN,
    ensures
        heading_after(heading_after(h, c, a as int), c, b as int) == heading_after(h, c, (a + b) as int),
{
    let f = FULL_TURN as int;
    let s = turn_of(c);
    assert(rate_over(ROTATION_RATE as int, a as int) == a);
    assert(rate_over(ROTATION_RATE as int, b as int) == b);
    assert(rate_over(ROTATION_RATE as int, (a + b) as int) == a + b);
    assert(s * (a + b) == s * a + s * b) by (nonlinear_arith);
    lemma_add_mod_noop_right(s * b, h + s * a, f);
}

/// However a stretch of time is cut into frames, turning through it comes
/// to the heading of turning through it at once.
pub proof fn lemma_turning_ignores_frame_split(h: int, c: Controls, dts: Seq<u64>)
    requires
        0 <= h < FULL_TURN,
    ensures
        heading_after_frames(h, c, dts) == heading_after(h, c, total(dts)),
    decreases dts.len(),
{
    if dts.len() == 0 {
        assert(rate_over(ROTATION_RATE as int, 0) == 0);
        assert(turn_of(c) * 0 == 0);
        assert(h % (FULL_TURN as int) == h);
    } else {
        let h1 = heading_after(h, c, dts[0] as int);
        let rest = dts.drop_first();
        lemma_turning_ignores_frame_split(h1, c, rest);
        lemma_total_nonnegative(rest);
        lemma_turning_adds_up(h, c, dts[0] as nat, total(rest) as nat);
    }
}

proof fn lemma_total_nonnegative(dts: Seq<u64>)
    ensures
        total(dts) >= 0,
    decreases dts.len(),
{
    if dts.len() > 0 {
        lemma_total_nonnegative(dts.drop_first());
    }
}

/// Holding the left key through frames that add up to one second turns the
/// craft by exactly half a turn, pi radians; the right key by half a turn
/// the other way, which comes to the same heading.
pub proof fn lemma_one_second_turns_half(h: int, c: Controls, dts: Seq<u64>)
    requires
        0 <= h < FULL_TURN,
        c.turn_left != c.turn_right,
        total(dts) == MICROS_PER_SEC,
    ensures
        heading_after_frames(h, c, dts) == (h + HALF_TURN) % (FULL_TURN as int),
{
    lemma_turning_ignores_frame_split(h, c, dts);
    assert(rate_over(ROTATION_RATE as int, MICROS_PER_SEC as int) == HALF_TURN);
    if c.turn_right {
        assert(turn_of(c) == -1);
        let x = h - HALF_TURN;
        vstd::arithmetic::div_mod::lemma_mod_add_multiples_vanish(x, FULL_TURN as int);
    } else {
        assert(turn_of(c) == 1);
    }
}

/// With an empty tank a frame ends at rest, whatever keys are held.
pub proof fn lemma_dry_tank_stops(s: Spaceship, c: Controls, dt: int, facing: Facing)
    requires
        s.wf(),
        s.fuel == 0,
    ensures
        drive(s, c, dt, facing).throttle == 0,
        drive(s, c, dt, facing).fuel == 0,
{
}

/// At top speed the tank empties by a whole number of billionths in every
/// microsecond.
proof fn lemma_burn_rate_exact(dt: int)
    ensures
        rate_over(FUEL_BURN_RATE as int, dt) == 250 * dt,
{
    assert(FUEL_BURN_RATE * dt == MICROS_PER_SEC * (250 * dt)) by (nonlinear_arith);
    vstd::arithmetic::div_mod::lemma_div_multiples_vanish(250 * dt, MICROS_PER_SEC as int);
}

/// At top speed a frame of `dt` microseconds burns `250 * dt` billionths
/// of the tank.
proof fn lemma_burn_at_top_speed(dt: nat)
    ensures
        burn(MAX_THROTTLE as int, dt as int) == 250 * dt,
{
    let k = (MAX_THROTTLE * MICROS_PER_SEC) as int;
    assert(FUEL_BURN_RATE * MAX_THROTTLE * (dt as int) == k * (250 * dt)) by (nonlinear_arith)
        requires
            k == MAX_THROTTLE * MICROS_PER_SEC,
    ;
    vstd::arithmetic::div_mod::lemma_div_multiples_vanish(250 * dt as int, k);
}

/// At top speed with thrust held, a frame of `dt` microseconds burns
/// exactly `FUEL_BURN_RATE` per second (down to an empty tank), and the
/// craft stays at top speed until the tank is empty, when it stops.
pub proof fn lemma_full_thrust_burn(s: Spaceship, dt: nat, facing: Facing)
    requires
        s.wf(),
        s.throttle == MAX_THROTTLE,
        s.fuel > 0,
    ensures
        drive(s, full_thrust(), dt as int, facing).fuel == (if s.fuel - rate_over(
            FUEL_BURN_RATE as int,
            dt as int,
        ) < 0 {
            0
        } else {
            s.fuel - rate_over(FUEL_BURN_RATE as int, dt as int)
        }),
        drive(s, full_thrust(), dt as int, facing).throttle == (if drive(
            s,
            full_thrust(),
            dt as int,
            facing,
        ).fuel == 0 {
            0
        } else {
            MAX_THROTTLE as int
        }),
{
    let c = full_thrust();
    assert(0 <= rate_over(THRUST_ACCEL as int, dt as int)) by (nonlinear_arith);
    assert(throttle_after(s.throttle as int, s.fuel as int, c, dt as int) == MAX_THROTTLE);
    lemma_burn_at_top_speed(dt);
    lemma_burn_rate_exact(dt as int);
}

/// Thrust adds a whole number of micro-units per second in every
/// microsecond.
proof fn lemma_accel_rate_exact(dt: int)
    ensures
        rate_over(THRUST_ACCEL as int, dt) == 200 * dt,
{
    assert(THRUST_ACCEL * dt == MICROS_PER_SEC * (200 * dt)) by (nonlinear_arith);
    vstd::arithmetic::div_mod::lemma_div_multiples_vanish(200 * dt, MICROS_PER_SEC as int);
}

/// Once the tank is dry, holding thrust leaves it dry and the craft at
/// rest, frame after frame.
proof fn lemma_dry_run_stays(s: Spaceship, dts: Seq<u64>, facing: Facing)
    requires
        s.wf(),
        facing.wf(),
        s.fuel == 0,
    ensures
        thrust_run(s, dts, facing).fuel == 0,
        thrust_run(s, dts, facing).throttle == 0,
    decreases dts.len(),
{
    if dts.len() > 0 {
        let dt = dts[0] as int;
        lemma_dry_tank_stops(s, full_thrust(), dt, facing);
        lemma_drive_keeps_wf(s, full_thrust(), dt, facing);
        lemma_dry_run_stays(drive(s, full_thrust(), dt, facing), dts.drop_first(), facing);
    }
}

/// Holding full thrust, however the time is cut into frames, first brings
/// the craft up to top speed and then empties the tank, at which the craft
/// stops: it takes at most `(MAX_THROTTLE - throttle) / THRUST_ACCEL`
/// seconds to reach top speed and `fuel / FUEL_BURN_RATE` seconds there,
/// eight seconds from rest with a full tank.
pub proof fn lemma_thrust_runs_dry(s: Spaceship, dts: Seq<u64>, facing: Facing)
    requires
        s.wf(),
        facing.wf(),
        1000 * total(dts) >= 5 * (MAX_THROTTLE - s.throttle) + 4 * s.fuel,
    ensures
        thrust_run(s, dts, facing).fuel == 0,
        thrust_run(s, dts, facing).throttle == 0,
    decreases dts.len(),
{
    if dts.len() > 0 {
        let c = full_thrust();
        let dt = dts[0] as int;
        let rest = dts.drop_first();
        let n = drive(s, c, dt, facing);
        lemma_drive_keeps_wf(s, c, dt, facing);
        lemma_total_nonnegative(rest);
        if s.fuel == 0 {
            lemma_dry_tank_stops(s, c, dt, facing);
            lemma_dry_run_stays(n, rest, facing);
        } else if n.fuel == 0 {
            lemma_dry_run_stays(n, rest, facing);
        } else {
            lemma_accel_rate_exact(dt);
            let t1 = throttle_after(s.throttle as int, s.fuel as int, c, dt);
            if s.throttle + 200 * dt > MAX_THROTTLE {
                assert(t1 == MAX_THROTTLE);
                lemma_burn_at_top_speed(dt as nat);
                assert(4 * n.fuel == 4 * s.fuel - 1000 * dt);
            } else {
                assert(t1 == s.throttle + 200 * dt);
                assert(burn(t1, dt) >= 0) by (nonlinear_arith)
                    requires
                        t1 >= 0,
                        dt >= 0,
                ;
                assert(n.fuel <= s.fuel);
            }
            lemma_thrust_runs_dry(n, rest, facing);
        }
    }
}

/// A craft that stays in the sun's reach loses hull at exactly
/// `SUN_DAMAGE_RATE` per second, however the time is cut into frames: two
/// seconds take half of a whole hull.
pub proof fn lemma_sun_exposure_adds_up(s: Spaceship, sun: Body, dts: Seq<u64>)
    requires
        s.wf(),
        is_within(s.pos, sun.pos, sun.reach as int),
    ensures
        sun_exposure(s, sun, dts).hull == hull_burnt(s.hull as int, total(dts)),
        sun_exposure(s, sun, dts).pos == s.pos,
    decreases dts.len(),
{
    if dts.len() == 0 {
        assert(rate_over(SUN_DAMAGE_RATE as int, 0) == 0);
    } else {
        let dt = dts[0];
        let rest = dts.drop_first();
        let n = sun_damaged(s, sun, dt as int);
        lemma_total_nonnegative(rest);
        assert(rate_over(SUN_DAMAGE_RATE as int, total(dts)) == rate_over(
            SUN_DAMAGE_RATE as int,
            dt as int,
        ) + rate_over(SUN_DAMAGE_RATE as int, total(rest)));
        assert(n.wf());
        lemma_sun_exposure_adds_up(n, sun, rest);
    }
}

/// One frame of smoothing moves the zoom toward its target without passing
/// it, and leaves the gap `g` at `g'` with
/// `g * (NOMINAL_FPS - ZOOM_SPEED) <= g' * NOMINAL_FPS < g * (NOMINAL_FPS - ZOOM_SPEED) + NOMINAL_FPS`:
/// eleven twelfths of it, to within one millionth. A gap of at least
/// `NOMINAL_FPS / ZOOM_SPEED` millionths strictly shrinks.
pub proof fn lemma_zoom_step_closes_gap(z: int, target: int)
    ensures
        target >= z ==> z <= zoom_step(z, target) <= target,
        target < z ==> target <= zoom_step(z, target) <= z,
        ({
            let g = if target >= z { target - z } else { z - target };
            let g1 = if target >= z { target - zoom_step(z, target) } else { zoom_step(z, target) - target };
            &&& g * (NOMINAL_FPS - ZOOM_SPEED) <= g1 * NOMINAL_FPS
            &&& g1 * NOMINAL_FPS < g * (NOMINAL_FPS - ZOOM_SPEED) + NOMINAL_FPS
            &&& (g * ZOOM_SPEED >= NOMINAL_FPS ==> g1 < g)
        }),
{
    let g = if target >= z { target - z } else { z - target };
    let q = g * ZOOM_SPEED / NOMINAL_FPS as int;
    assert(0 <= q <= g) by (nonlinear_arith)
        requires
            0 <= g,
            q == g * 5 / 60,
    ;
    assert(q * NOMINAL_FPS <= g * ZOOM_SPEED < q * NOMINAL_FPS + NOMINAL_FPS) by (nonlinear_arith)
        requires
            0 <= g,
            q == g * 5 / 60,
    ;
    assert(g * ZOOM_SPEED >= NOMINAL_FPS ==> q >= 1) by (nonlinear_arith)
        requires
            0 <= g,
            q == g * 5 / 60,
    ;
}

/// One frame of smoothing toward the far zoom from below: the gap `g`
/// becomes `g'` with `g * (D - G) <= g' * D < g * (D - G) + D`, where
/// `G / D` is the share closed per frame.
proof fn lemma_zoom_gap_step(z: int)
    requires
        0 <= z <= FAR_ZOOM,
    ensures
        0 <= zoom_step(z, FAR_ZOOM as int) <= FAR_ZOOM,
        (FAR_ZOOM - z) * (NOMINAL_FPS - ZOOM_SPEED) <= (FAR_ZOOM - zoom_step(
            z,
            FAR_ZOOM as int,
        )) * NOMINAL_FPS,
        (FAR_ZOOM - zoom_step(z, FAR_ZOOM as int)) * NOMINAL_FPS < (FAR_ZOOM - z) * (
        NOMINAL_FPS - ZOOM_SPEED) + NOMINAL_FPS,
{
    let g = FAR_ZOOM - z;
    let q = g * ZOOM_SPEED / NOMINAL_FPS as int;
    assert(0 <= q <= g) by (nonlinear_arith)
        requires
            0 <= g,
            q == g * 5 / 60,
    ;
    assert(q * NOMINAL_FPS <= g * ZOOM_SPEED < q * NOMINAL_FPS + NOMINAL_FPS) by (
    nonlinear_arith)
        requires
            0 <= g,
            q == g * 5 / 60,
    ;
}

/// A camera whose craft has gone out of bounds closes on the far zoom as
/// `FAR - z_n = (FAR - z_0) * (1 - ZOOM_SPEED / NOMINAL_FPS)^n`, that is
/// `(11/12)^n`, to within the rounding of one millionth per frame: with
/// `D = NOMINAL_FPS` and `G = ZOOM_SPEED`,
/// `(FAR - z_0) * (D - G)^n <= (FAR - z_n) * D^n <= (FAR - z_0) * (D - G)^n + n * D^n`.
pub proof fn lemma_zoom_closed_form(z0: int, n: nat)
    requires
        0 <= z0 <= FAR_ZOOM,
    ensures
        0 <= zoom_after(z0, FAR_ZOOM as int, n) <= FAR_ZOOM,
        (FAR_ZOOM - z0) * pow(NOMINAL_FPS - ZOOM_SPEED, n) <= (FAR_ZOOM - zoom_after(
            z0,
            FAR_ZOOM as int,
            n,
        )) * pow(NOMINAL_FPS as int, n),
        (FAR_ZOOM - zoom_after(z0, FAR_ZOOM as int, n)) * pow(NOMINAL_FPS as int, n) <= (
        FAR_ZOOM - z0) * pow(NOMINAL_FPS - ZOOM_SPEED, n) + n * pow(NOMINAL_FPS as int, n),
    decreases n,
{
    reveal(pow);
    if n == 0 {
    } else {
        let m = (n - 1) as nat;
        lemma_zoom_closed_form(z0, m);
        let zm = zoom_after(z0, FAR_ZOOM as int, m);
        lemma_zoom_gap_step(zm);
        let g0 = FAR_ZOOM - z0;
        let gm = FAR_ZOOM - zm;
        let gn = FAR_ZOOM - zoom_step(zm, FAR_ZOOM as int);
        let d = NOMINAL_FPS as int;
        let a = NOMINAL_FPS - ZOOM_SPEED;
        let pd = pow(d, m);
        let pa = pow(a, m);
        vstd::arithmetic::power::lemma_pow_positive(d, m);
        vstd::arithmetic::power::lemma_pow_positive(a, m);
        assert(pow(d, n) == d * pd);
        assert(pow(a, n) == a * pa);
        assert(g0 * (a * pa) <= gn * (d * pd)) by (nonlinear_arith)
            requires
                g0 * pa <= gm * pd,
                gm * a <= gn * d,
                a > 0,
                pd > 0,
        ;
        let x = gm * pd;
        assert(m * pd >= 0) by (nonlinear_arith)
            requires
                m >= 0,
                pd > 0,
        ;
        assert(gn * d * pd <= (gm * a + d) * pd) by (nonlinear_arith)
            requires
                gn * d < gm * a + d,
                pd > 0,
        ;
        assert((gm * a + d) * pd == a * x + d * pd) by (nonlinear_arith)
            requires
                x == gm * pd,
        ;
        assert(a * x <= a * (g0 * pa) + a * (m * pd)) by (nonlinear_arith)
            requires
                x <= g0 * pa + m * pd,
                a > 0,
        ;
        assert(a * (m * pd) <= d * (m * pd)) by (nonlinear_arith)
            requires
                0 < a <= d,
                m * pd >= 0,
        ;
        assert(gn * (d * pd) <= g0 * (a * pa) + n * (d * pd)) by (nonlinear_arith)
            requires
                gn * d * pd <= a * x + d * pd,
                a * x <= a * (g0 * pa) + a * (m * pd),
                a * (m * pd) <= d * (m * pd),
                n == m + 1,
        ;
    }
}

/// From the splash screen with `e` microseconds spent, a run of frames
/// opens the main menu exactly once if it brings the time to a second,
/// and never before.
proof fn lemma_splash_run(f: GameFlow, dts: Seq<u64>)
    requires
        f.wf(),
        f.state == GameState::Splash,
    ensures
        f.splash_us + total(dts) >= SPLASH_US ==> {
            &&& flow_after(f, dts).state == GameState::Menu
            &&& flow_after(f, dts).menu == MenuState::Main
            &&& menu_openings(f, dts) == 1
        },
        f.splash_us + total(dts) < SPLASH_US ==> {
            &&& flow_after(f, dts).state == GameState::Splash
            &&& flow_after(f, dts).splash_us == f.splash_us + total(dts)
            &&& menu_openings(f, dts) == 0
        },
    decreases dts.len(),
{
    if dts.len() > 0 {
        let g = counted_down(f, dts[0] as int);
        let rest = dts.drop_first();
        lemma_total_nonnegative(rest);
        if g.state == GameState::Splash {
            lemma_splash_run(g, rest);
        } else {
            lemma_menu_stays(g, rest);
        }
    }
}

/// Off the splash screen, time alone moves nothing.
proof fn lemma_menu_stays(f: GameFlow, dts: Seq<u64>)
    requires
        f.state != GameState::Splash,
    ensures
        flow_after(f, dts) == f,
        menu_openings(f, dts) == 0,
    decreases dts.len(),
{
    if dts.len() > 0 {
        lemma_menu_stays(f, dts.drop_first());
    }
}

/// From the start of the game, frames that add up to a second or more open
/// the main menu, exactly once; frames that add up to less leave the
/// splash screen showing.
pub proof fn lemma_splash_opens_menu_once(dts: Seq<u64>)
    ensures
        total(dts) >= SPLASH_US ==> {
            &&& flow_after(GameFlow::start(), dts).state == GameState::Menu
            &&& flow_after(GameFlow::start(), dts).menu == MenuState::Main
            &&& menu_openings(GameFlow::start(), dts) == 1
        },
        total(dts) < SPLASH_US ==> {
            &&& flow_after(GameFlow::start(), dts).state == GameState::Splash
            &&& menu_openings(GameFlow::start(), dts) == 0
        },
{
    lemma_splash_run(GameFlow::start(), dts);
}

} // verus!
