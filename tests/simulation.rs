use spaceout::bodies::{
    dock_candidate, refuel_on_base_visit, rotate_sun, sun_proximity_damage, Body, BodyKind,
    SunDamageWarning, BASE_REFUEL_RADIUS, SUN_SPIN_PER_FRAME,
};
use spaceout::camera::{camera_follow_and_zoom, CameraRig, FAR_ZOOM, NEAR_ZOOM, ZOOM_ONE};
use spaceout::craft::{
    heading_after_turn, move_spaceship, Controls, Facing, Spaceship, FACING_ONE, FULL, FULL_TURN,
    HALF_TURN, MAX_THROTTLE,
};
use spaceout::geometry::{distance_sq, within, Point, UNIT};
use spaceout::world::World;

fn keys(turn_left: bool, turn_right: bool, forward: bool, backward: bool) -> Controls {
    Controls { turn_left, turn_right, forward, backward }
}

fn idle() -> Controls {
    keys(false, false, false, false)
}

fn down() -> Facing {
    Facing { x: 0, y: -FACING_ONE }
}

#[test]
fn levels_stay_in_range_over_many_frames() {
    let mut world = World::new();
    let plans = [
        keys(true, false, true, false),
        keys(false, true, true, false),
        keys(false, false, true, true),
        keys(false, false, false, true),
        keys(true, true, true, false),
    ];
    for i in 0..3000u64 {
        let c = plans[(i % 5) as usize];
        let dt = 1 + (i * 7919) % 50_000;
        let h = heading_after_turn(world.ship.heading, c, dt);
        let a = h as f64 * std::f64::consts::PI / HALF_TURN as f64;
        let facing = Facing {
            x: (-a.sin() * FACING_ONE as f64).round() as i64,
            y: (a.cos() * FACING_ONE as f64).round() as i64,
        };
        assert!(facing.is_unit());
        world.update(c, dt, facing);
        assert!(world.ship.fuel <= FULL);
        assert!(world.ship.hull <= FULL);
        assert!(world.ship.throttle <= MAX_THROTTLE);
        assert!(world.ship.heading < FULL_TURN);
        assert!(world.camera.zoom <= FAR_ZOOM);
    }
}

#[test]
fn one_second_of_left_turn_is_half_a_turn() {
    let left = keys(true, false, false, false);
    let at_once = heading_after_turn(0, left, 1_000_000);
    assert_eq!(at_once, HALF_TURN);
    let mut h = 0u64;
    for _ in 0..64 {
        h = heading_after_turn(h, left, 15_625);
    }
    assert_eq!(h, at_once);
    let mut ship = Spaceship::new();
    let mut uneven = 0u64;
    for dt in [1u64, 999, 250_000, 333_333, 415_667] {
        move_spaceship(&mut ship, left, dt, down());
        uneven += dt;
    }
    assert_eq!(uneven, 1_000_000);
    assert_eq!(ship.heading, (HALF_TURN + HALF_TURN) % FULL_TURN);
}

#[test]
fn right_turn_wraps_below_zero() {
    let right = keys(false, true, false, false);
    assert_eq!(heading_after_turn(0, right, 1), FULL_TURN - 1);
    assert_eq!(heading_after_turn(10, right, 3 * 1_000_000), 1_000_010);
    let both = keys(true, true, false, false);
    assert_eq!(heading_after_turn(1234, both, 777_777), 1234);
}

#[test]
fn thrust_runs_the_tank_dry_then_stops() {
    let mut ship = Spaceship::new();
    ship.pos = Point::from_units(-3000, 0);
    let fwd = keys(false, false, true, false);
    let dt = 16_666u64;
    let mut frames = 0u32;
    let mut saw_top_speed = false;
    while ship.fuel > 0 {
        move_spaceship(&mut ship, fwd, dt, down());
        frames += 1;
        if ship.throttle == MAX_THROTTLE {
            saw_top_speed = true;
        }
        assert!(frames < 10_000, "the tank never ran dry");
    }
    assert!(saw_top_speed);
    assert_eq!(ship.throttle, 0);
    move_spaceship(&mut ship, fwd, dt, down());
    assert_eq!(ship.throttle, 0);
    assert_eq!(ship.fuel, 0);
}

#[test]
fn thrust_from_rest_runs_dry_within_eight_seconds() {
    let mut ship = Spaceship::new();
    let fwd = keys(false, false, true, false);
    let mut elapsed = 0u64;
    let mut first_dry = None;
    for i in 0..800u64 {
        let dt = if i % 2 == 0 { 7_000 } else { 13_000 };
        move_spaceship(&mut ship, fwd, dt, down());
        elapsed += dt;
        if ship.fuel == 0 && first_dry.is_none() {
            first_dry = Some(elapsed);
            assert_eq!(ship.throttle, 0);
        }
    }
    assert_eq!(elapsed, 8_000_000);
    assert!(first_dry.is_some());
    assert_eq!(ship.fuel, 0);
    assert_eq!(ship.throttle, 0);
}

#[test]
fn top_speed_burns_a_quarter_tank_per_second() {
    let mut ship = Spaceship::new();
    ship.throttle = MAX_THROTTLE;
    move_spaceship(&mut ship, keys(false, false, true, false), 1_000_000, down());
    assert_eq!(ship.fuel, FULL - FULL / 4);
    assert_eq!(ship.throttle, MAX_THROTTLE);
    assert_eq!(ship.pos, Point::new(0, -800 * UNIT));
}

#[test]
fn thrust_and_brake_change_speed() {
    let mut ship = Spaceship::new();
    move_spaceship(&mut ship, keys(false, false, true, false), 500_000, down());
    assert_eq!(ship.throttle, 100 * UNIT as u64);
    // burn at 100 units/s over half a second: 0.25 * 100 / 800 * 0.5 of a tank
    assert_eq!(ship.fuel, FULL - FULL / 64);
    assert_eq!(ship.pos, Point::new(0, -50 * UNIT));
    move_spaceship(&mut ship, keys(false, false, false, true), 1_000_000, down());
    assert_eq!(ship.throttle, 0);
    assert_eq!(ship.pos, Point::new(0, -50 * UNIT));
    move_spaceship(&mut ship, keys(false, false, true, false), 0, down());
    assert_eq!(ship.throttle, 0);
}

#[test]
fn base_visit_fills_the_tank_at_once() {
    let mut ship = Spaceship::new();
    ship.pos = Point::from_units(50, 0);
    ship.fuel = FULL / 10;
    refuel_on_base_visit(&mut ship, &Body::base(), &Body::moon());
    assert_eq!(ship.fuel, FULL);

    let mut world = World::new();
    world.ship.pos = Point::from_units(50, 0);
    world.ship.fuel = FULL / 10;
    world.update(idle(), 16_000, down());
    assert_eq!(world.ship.fuel, FULL);
}

#[test]
fn refuel_reach_edges() {
    let base = Body::base();
    let moon = Body::moon();
    let mut ship = Spaceship::new();
    ship.fuel = 5;
    ship.pos = Point::new(BASE_REFUEL_RADIUS as i64, 0);
    refuel_on_base_visit(&mut ship, &base, &moon);
    assert_eq!(ship.fuel, 5);
    ship.pos = Point::new(BASE_REFUEL_RADIUS as i64 - 1, 0);
    refuel_on_base_visit(&mut ship, &base, &moon);
    assert_eq!(ship.fuel, FULL);
    ship.fuel = 5;
    ship.pos = Point::from_units(4600 + 60, 4400 + 79);
    refuel_on_base_visit(&mut ship, &base, &moon);
    assert_eq!(ship.fuel, FULL);
}

#[test]
fn two_seconds_by_the_sun_take_half_the_hull() {
    let sun = Body::sun();
    let mut ship = Spaceship::new();
    ship.pos = Point::from_units(8000 - 300, 8000);
    let mut warning = SunDamageWarning(false);
    for dt in [20_000u64; 100] {
        sun_proximity_damage(&mut ship, &sun, dt, &mut warning);
        assert!(warning.0);
    }
    assert_eq!(ship.hull, FULL / 2);
    ship.pos = Point::from_units(8000 - 700, 8000);
    sun_proximity_damage(&mut ship, &sun, 20_000, &mut warning);
    assert!(!warning.0);
    assert_eq!(ship.hull, FULL / 2);
}

#[test]
fn hull_never_goes_below_zero() {
    let sun = Body::sun();
    let mut ship = Spaceship::new();
    ship.pos = sun.pos;
    let mut warning = SunDamageWarning(false);
    sun_proximity_damage(&mut ship, &sun, 10_000_000, &mut warning);
    assert_eq!(ship.hull, 0);
    assert!(warning.0);
}

#[test]
fn zoom_closes_on_far_zoom_as_the_closed_form() {
    let base = Body::base();
    let mut cam = CameraRig::new();
    let inside = Point::from_units(100, 0);
    for _ in 0..400 {
        camera_follow_and_zoom(&mut cam, inside, base.pos);
    }
    // rounding leaves the last eleven millionths of the gap unclosed
    assert_eq!(cam.zoom, NEAR_ZOOM - 11);
    let far = Point::from_units(5000, 0);
    let z0 = cam.zoom as f64;
    for n in 1..=60u32 {
        camera_follow_and_zoom(&mut cam, far, base.pos);
        assert_eq!(cam.pos, far);
        let expected = FAR_ZOOM as f64 - (FAR_ZOOM as f64 - z0) * (1.0f64 - 5.0 / 60.0).powi(n as i32);
        let z = cam.zoom as f64;
        assert!(z <= expected + 1e-6, "frame {}: {} above {}", n, z, expected);
        assert!(z >= expected - n as f64 - 1e-6, "frame {}: {} below {}", n, z, expected);
    }
}

#[test]
fn first_zoom_step_is_exact() {
    let mut cam = CameraRig::new();
    assert_eq!(cam.zoom, ZOOM_ONE);
    camera_follow_and_zoom(&mut cam, Point::from_units(401, 0), Point::new(0, 0));
    // a twelfth of the gap of 5 to the far zoom, to the millionth below
    assert_eq!(cam.zoom, 1_416_666);
    camera_follow_and_zoom(&mut cam, Point::from_units(400, 0), Point::new(0, 0));
    assert_eq!(cam.zoom, 1_465_277);
    let mut near = CameraRig::new();
    camera_follow_and_zoom(&mut near, Point::from_units(10, 0), Point::new(0, 0));
    assert_eq!(near.zoom, 1_083_333);
}

#[test]
fn sun_spins_each_frame() {
    let mut sun = Body::sun();
    rotate_sun(&mut sun);
    rotate_sun(&mut sun);
    assert_eq!(sun.spin, 2 * SUN_SPIN_PER_FRAME);
    sun.spin = FULL_TURN - 1;
    rotate_sun(&mut sun);
    assert_eq!(sun.spin, SUN_SPIN_PER_FRAME - 1);
}

#[test]
fn docking_picks_the_first_body_in_reach() {
    let targets = vec![Body::base(), Body::moon()];
    assert_eq!(dock_candidate(Point::from_units(119, 0), &targets), Some(0));
    assert_eq!(dock_candidate(Point::from_units(120, 0), &targets), None);
    assert_eq!(dock_candidate(Point::from_units(4600, 4250), &targets), None);
    assert_eq!(dock_candidate(Point::from_units(4600, 4350), &targets), Some(1));
    assert_eq!(dock_candidate(Point::new(0, 0), &Vec::new()), None);

    let mut world = World::new();
    assert_eq!(world.dock_target(), Some(BodyKind::Base));
    world.ship.pos = Point::from_units(4650, 4400);
    assert_eq!(world.dock_target(), Some(BodyKind::Moon));
    world.ship.pos = Point::from_units(2000, 0);
    assert_eq!(world.dock_target(), None);
    assert_eq!(world.base.pos, Point::new(0, 0));
    assert_eq!(world.moon.pos, Point::from_units(4600, 4400));
    assert_eq!(world.sun.pos, Point::from_units(8000, 8000));
}

#[test]
fn facing_must_be_a_unit_vector() {
    assert!(Facing { x: 0, y: -FACING_ONE }.is_unit());
    assert!(Facing { x: 600_000, y: 800_000 }.is_unit());
    assert!(Facing { x: 707_107, y: -707_107 }.is_unit());
    assert!(!Facing { x: 0, y: 0 }.is_unit());
    assert!(!Facing { x: 500_000, y: 500_000 }.is_unit());
    assert!(!Facing { x: FACING_ONE + 1, y: 0 }.is_unit());
}

#[test]
fn distances_are_exact() {
    let a = Point::from_units(3, 0);
    let b = Point::from_units(0, 4);
    assert_eq!(distance_sq(a, b), 25 * (UNIT as u128) * (UNIT as u128));
    assert!(within(a, b, 5 * UNIT as u64 + 1));
    assert!(!within(a, b, 5 * UNIT as u64));
}

#[test]
fn world_frame_runs_in_order() {
    let mut world = World::new();
    world.ship.throttle = MAX_THROTTLE;
    world.update(keys(false, false, false, false), 500_000, down());
    assert_eq!(world.ship.pos, Point::new(0, -400 * UNIT));
    assert_eq!(world.camera.pos, world.ship.pos);
    assert_eq!(world.camera.zoom, ZOOM_ONE + 83_333);
    assert_eq!(world.sun.spin, SUN_SPIN_PER_FRAME);
    assert!(!world.sun_warning.0);
    for s in world.stars.iter() {
        let share = [800i64, 500, 200][s.layer];
        assert_eq!(s.pos.x, s.base_pos.x);
        assert_eq!(s.pos.y, s.base_pos.y - 400 * UNIT * share / 1000);
    }
}
