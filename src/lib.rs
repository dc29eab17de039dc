//! Simulation core of a small space arcade game: a craft steered through a
//! 2D world holding a home base, a moon and a sun, a smoothed following
//! camera, a parallax starfield and the screen flow around active play.
//!
//! All quantities are fixed-point integers:
//! - time in microseconds,
//! - lengths in micro-units of the world (one world unit is 1_000_000),
//! - speeds in micro-units per second,
//! - angles in units of pi / 1_000_000 radians,
//! - resource levels (fuel, hull, shields) in billionths of a full tank.
pub mod anim;
pub mod bodies;
pub mod camera;
pub mod craft;
pub mod flow;
pub mod geometry;
pub mod hud;
pub mod laws;
pub mod starfield;
pub mod world;
