//! The state of one session of active play, and the ordered pass that
//! advances it by one frame.
use vstd::prelude::*;
use crate::bodies::{
    dock_candidate, refuel_on_base_visit, refuelled, rotate_sun, sun_damaged, sun_proximity_damage,
    Body, BodyKind, SunDamageWarning, BASE_REFUEL_RADIUS, MOON_REFUEL_RADIUS, SUN_DAMAGE_RADIUS,
    SUN_SPIN_PER_FRAME,
};
use crate::camera::{camera_follow_and_zoom, followed, CameraRig};
use crate::craft::{drive, move_spaceship, Controls, Facing, Spaceship, FULL, FULL_TURN};
use crate::geometry::{is_within, Point, UNIT};
use crate::starfield::{
    parallax_starfield, spawn_starfield, star_at, Star, STARS_PER_LAYER, STAR_LAYERS,
};

verus! {

/// Everything that lives while the craft is in space. Each frame one step
/// writes each field: the controller the craft's motion and fuel use, the
/// proximity effects its tank and hull, the starfield the stars, the camera
/// itself.
pub struct World {
    pub ship: Spaceship,
    pub base: Body,
    pub moon: Body,
    pub sun: Body,
    pub camera: CameraRig,
    pub stars: Vec<Star>,
    pub sun_warning: SunDamageWarning,
}

/// The craft after the controller and the proximity effects of one frame.
pub open spec fn ship_frame(
    s: Spaceship,
    c: Controls,
    dt: int,
    facing: Facing,
    base: Body,
    moon: Body,
    sun: Body,
) -> Spaceship {
    sun_damaged(refuelled(drive(s, c, dt, facing), base, moon), sun, dt)
}

impl World {
    pub open spec fn wf(&self) -> bool {
        &&& self.ship.wf()
        &&& self.base.wf()
        &&& self.moon.wf()
        &&& self.sun.wf()
        &&& self.camera.wf()
        &&& forall|i: int| 0 <= i < self.stars@.len() ==> (#[trigger] self.stars@[i]).wf()
    }

    /// A fresh session: the craft at the base, the base, moon and sun in
    /// their places, the camera at the origin, and a new starfield.
    pub fn new() -> (w: World)
        ensures
            w.wf(),
            w.ship.pos == w.base.pos,
            w.ship.fuel == FULL,
            w.ship.hull == FULL,
            w.ship.throttle == 0,
            w.base == (Body { kind: BodyKind::Base, pos: Point { x: 0, y: 0 }, reach: BASE_REFUEL_RADIUS, spin: 0 }),
            w.moon.kind == BodyKind::Moon,
            w.moon.pos.x == 4600 * UNIT && w.moon.pos.y == 4400 * UNIT,
            w.moon.reach == MOON_REFUEL_RADIUS,
            w.sun.kind == BodyKind::Sun,
            w.sun.pos.x == 8000 * UNIT && w.sun.pos.y == 8000 * UNIT,
            w.sun.reach == SUN_DAMAGE_RADIUS,
            w.sun.spin == 0,
            w.camera == CameraRig::new_spec(),
            w.sun_warning == SunDamageWarning(false),
            w.stars@.len() == STAR_LAYERS * STARS_PER_LAYER,
    {
        World {
            ship: Spaceship::new(),
            base: Body::base(),
            moon: Body::moon(),
            sun: Body::sun(),
            camera: CameraRig::new(),
            stars: spawn_starfield(),
            sun_warning: SunDamageWarning(false),
        }
    }

    /// One frame of `dt_us` microseconds, in order: the craft moves, the
    /// base and moon refuel it, the sun burns it, the sun turns, then the
    /// stars and the camera follow where the craft now is. `facing` is the
    /// unit vector of the heading the craft ends the frame with.
    pub fn update(&mut self, controls: Controls, dt_us: u64, facing: Facing)
        requires
            old(self).wf(),
            facing.wf(),
        ensures
            final(self).wf(),
            final(self).ship == ship_frame(
                old(self).ship,
                controls,
                dt_us as int,
                facing,
                old(self).base,
                old(self).moon,
                old(self).sun,
            ),
            final(self).sun_warning.0 == is_within(
                refuelled(drive(old(self).ship, controls, dt_us as int, facing), old(self).base, old(self).moon).pos,
                old(self).sun.pos,
                old(self).sun.reach as int,
            ),
            final(self).base == old(self).base,
            final(self).moon == old(self).moon,
            final(self).sun == (Body {
                spin: ((old(self).sun.spin + SUN_SPIN_PER_FRAME) % (FULL_TURN as int)) as u64,
                ..old(self).sun
            }),
            final(self).camera == followed(old(self).camera, final(self).ship.pos, old(self).base.pos),
            final(self).stars@.len() == old(self).stars@.len(),
            forall|i: int|
                0 <= i < final(self).stars@.len() ==> #[trigger] final(self).stars@[i] == star_at(
                    old(self).stars@[i],
                    final(self).ship.pos,
                ),
    {
        move_spaceship(&mut self.ship, controls, dt_us, facing);
        refuel_on_base_visit(&mut self.ship, &self.base, &self.moon);
        sun_proximity_damage(&mut self.ship, &self.sun, dt_us, &mut self.sun_warning);
        rotate_sun(&mut self.sun);
        parallax_starfield(&mut self.stars, self.ship.pos);
        camera_follow_and_zoom(&mut self.camera, self.ship.pos, self.base.pos);
    }

    /// The body the craft may dock with now: the base or the moon, the
    /// first in that order within docking reach.
    pub fn dock_target(&self) -> (r: Option<BodyKind>)
        requires
            self.wf(),
        ensures
            r == (if is_within(self.ship.pos, self.base.pos, crate::bodies::DOCK_INTERACT_RADIUS as int) {
                Some(self.base.kind)
            } else if is_within(self.ship.pos, self.moon.pos, crate::bodies::DOCK_INTERACT_RADIUS as int) {
                Some(self.moon.kind)
            } else {
                None
            }),
    {
        let targets: Vec<Body> = vec![self.base, self.moon];
        match dock_candidate(self.ship.pos, &targets) {
            Some(i) => Some(targets[i].kind),
            None => None,
        }
    }
}

} // verus!
