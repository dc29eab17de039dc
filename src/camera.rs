//! The camera: it sits on the craft and zooms out, smoothly, while the
//! craft is far from the base.
use vstd::prelude::*;
use crate::geometry::{dist_sq, distance_sq, Point};

verus! {

/// Beyond this distance from the base the craft is out of bounds: 400
/// world units.
pub const BOUNDS_RADIUS: u64 = 400_000_000;

/// A zoom of one, in millionths.
pub const ZOOM_ONE: u64 = 1_000_000;

/// Zoom while the craft is within bounds: 2.
pub const NEAR_ZOOM: u64 = 2_000_000;

/// Zoom while the craft is out of bounds: 6.
pub const FAR_ZOOM: u64 = 6_000_000;

/// Share of the way to the target zoom taken per second.
pub const ZOOM_SPEED: u64 = 5;

/// The zoom moves by a fixed step per frame, as if each frame lasted
/// `1 / NOMINAL_FPS` of a second, whatever time really passed: each frame
/// closes `ZOOM_SPEED / NOMINAL_FPS` (a twelfth) of the gap to the target.
pub const NOMINAL_FPS: u64 = 60;

#[derive(Clone, Copy, Debug, PartialEq, Eq, Structural)]
pub struct CameraRig {
    pub pos: Point,
    /// Zoom in millionths; a larger zoom shows more of the world.
    pub zoom: u64,
}

impl CameraRig {
    pub open spec fn wf(self) -> bool {
        self.pos.wf() && self.zoom <= FAR_ZOOM
    }

    /// The camera a session starts with.
    pub open spec fn new_spec() -> CameraRig {
        CameraRig { pos: Point { x: 0, y: 0 }, zoom: ZOOM_ONE }
    }

    /// A camera at the origin with a zoom of one.
    pub fn new() -> (r: CameraRig)
        ensures
            r.wf(),
            r == CameraRig::new_spec(),
    {
        CameraRig { pos: Point::new(0, 0), zoom: ZOOM_ONE }
    }
}

/// The zoom aimed at for a craft at `craft` and a base at `base`.
pub open spec fn target_zoom(craft: Point, base: Point) -> int {
    if dist_sq(craft, base) > BOUNDS_RADIUS * BOUNDS_RADIUS {
        FAR_ZOOM as int
    } else {
        NEAR_ZOOM as int
    }
}

/// One frame of smoothing: the zoom closes `ZOOM_SPEED / NOMINAL_FPS` of
/// its gap to the target, rounded toward the current zoom.
pub open spec fn zoom_step(z: int, target: int) -> int {
    if target >= z {
        z + (target - z) * ZOOM_SPEED / NOMINAL_FPS as int
    } else {
        z - (z - target) * ZOOM_SPEED / NOMINAL_FPS as int
    }
}

/// The camera after following a craft at `craft` for one frame.
pub open spec fn followed(c: CameraRig, craft: Point, base: Point) -> CameraRig {
    CameraRig { pos: craft, zoom: zoom_step(c.zoom as int, target_zoom(craft, base)) as u64 }
}

/// Puts the camera on the craft and moves its zoom one step toward the
/// far zoom when the craft is out of bounds, toward the near one when not.
pub fn camera_follow_and_zoom(camera: &mut CameraRig, craft: Point, base: Point)
    requires
        old(camera).wf(),
        craft.wf(),
        base.wf(),
    ensures
        *final(camera) == followed(*old(camera), craft, base),
        final(camera).wf(),
{
    let out_of_bounds = distance_sq(craft, base) > (BOUNDS_RADIUS * BOUNDS_RADIUS) as u128;
    let target: u64 = if out_of_bounds { FAR_ZOOM } else { NEAR_ZOOM };
    let z = camera.zoom;
    let zoom: u64 = if target >= z {
        z + (target - z) * ZOOM_SPEED / NOMINAL_FPS
    } else {
        z - (z - target) * ZOOM_SPEED / NOMINAL_FPS
    };
    camera.pos = craft;
    camera.zoom = zoom;
}

} // verus!
