//! An axis-aligned pinhole camera.

use vstd::prelude::*;

use crate::fixed::{fx, Fx};
use crate::ray::Ray;
use crate::vec3::{s_vadd, s_vscale, s_vsub, Vec3};

verus! {

/// Maps normalized image-plane coordinates to world-space rays.
#[derive(Clone, Copy, Debug, PartialEq, Eq, Structural)]
pub struct Camera {
    pub origin: Vec3,
    pub lower_left_corner: Vec3,
    pub horizontal: Vec3,
    pub vertical: Vec3,
}

/// The direction of the ray for image-plane coordinates `(u, v)`:
/// `lower_left_corner + u * horizontal + v * vertical - origin`.
pub open spec fn s_camera_dir(c: Camera, u: int, v: int) -> Vec3 {
    s_vsub(
        s_vadd(s_vadd(c.lower_left_corner, s_vscale(c.horizontal, u)), s_vscale(c.vertical, v)),
        c.origin,
    )
}

/// The standard camera: origin at zero, a 4 by 2 image plane one unit ahead.
pub open spec fn s_default_camera() -> Camera {
    Camera {
        origin: Vec3 { x: fx(0), y: fx(0), z: fx(0) },
        lower_left_corner: Vec3 { x: fx(-131072), y: fx(-65536), z: fx(-65536) },
        horizontal: Vec3 { x: fx(262144), y: fx(0), z: fx(0) },
        vertical: Vec3 { x: fx(0), y: fx(131072), z: fx(0) },
    }
}

impl Camera {
    /// The ray from the camera origin through image-plane point `(u, v)`,
    /// where `u` runs left to right and `v` bottom to top, both in `[0, 1]`.
    pub fn calculate_ray(&self, u_right: Fx, v_up: Fx) -> (r: Ray)
        ensures
            r.start == self.origin,
            r.direction == s_camera_dir(*self, u_right@, v_up@),
    {
        Ray {
            start: self.origin,
            direction: self
                .lower_left_corner
                .add(&self.horizontal.scale(u_right))
                .add(&self.vertical.scale(v_up))
                .sub(&self.origin),
        }
    }
}

impl Default for Camera {
    /// The standard camera of [`s_default_camera`].
    fn default() -> (r: Camera)
        ensures
            r == s_default_camera(),
    {
        Camera {
            origin: Vec3::new(Fx::from_raw(0), Fx::from_raw(0), Fx::from_raw(0)),
            lower_left_corner: Vec3::new(
                Fx::from_raw(-131072),
                Fx::from_raw(-65536),
                Fx::from_raw(-65536),
            ),
            horizontal: Vec3::new(Fx::from_raw(262144), Fx::from_raw(0), Fx::from_raw(0)),
            vertical: Vec3::new(Fx::from_raw(0), Fx::from_raw(131072), Fx::from_raw(0)),
        }
    }
}

} // verus!
