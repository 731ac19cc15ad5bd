//! Rays: an origin and an unnormalized direction.

use vstd::prelude::*;

use rand::rngs::StdRng;

use crate::color::{s_cadd, s_cmul, s_cscale, Color};
use crate::fixed::{fx, fxadd, fxmul, fxsub, Fx, SCALE};
use crate::geometry::{s_list_hit, HitableList, Sphere};
use crate::material::{s_albedo, Material};
use crate::vec3::{s_len, s_normalize, s_vadd, s_vscale, Vec3};

verus! {

/// Raw fixed-point lower bound on accepted hit parameters; keeping it off
/// zero avoids spurious self-intersection at a scattered ray's origin.
pub const T_MIN: i64 = 65;

/// Raw fixed-point upper bound on accepted hit parameters, standing in for
/// infinity.
pub const T_MAX: i64 = 6553599934464;

/// Bounces beyond this depth are cut off.
pub const MAX_DEPTH: u8 = 50;

/// A parametric ray `start + t * direction`.
#[derive(Clone, Copy, Debug, PartialEq, Eq, Structural)]
pub struct Ray {
    pub start: Vec3,
    pub direction: Vec3,
}

/// The point a ray reaches at parameter `t`.
pub open spec fn s_ray_eval(r: Ray, t: int) -> Vec3 {
    s_vadd(r.start, s_vscale(r.direction, t))
}

/// The colour a ray takes when it escapes the scene: white blended toward
/// sky blue by `0.5 * (unit_direction.y + 1)`, with full alpha.  A direction
/// whose length truncates to zero cannot be normalized and is read as level.
pub open spec fn s_sky(dir: Vec3) -> Color {
    let t = if s_len(dir) == 0 {
        32768
    } else {
        fxmul(32768, fxadd(s_normalize(dir).y@, SCALE as int))
    };
    let white = Color { r: fx(SCALE as int), g: fx(SCALE as int), b: fx(SCALE as int), a: fx(SCALE as int) };
    let blue = Color { r: fx(32768), g: fx(45875), b: fx(SCALE as int), a: fx(SCALE as int) };
    let mixed = s_cadd(s_cscale(white, fxsub(SCALE as int, t)), s_cscale(blue, t));
    Color { r: mixed.r, g: mixed.g, b: mixed.b, a: fx(SCALE as int) }
}

/// The colour of a ray that was absorbed or ran out of bounces.
pub open spec fn s_transparent_black() -> Color {
    Color { r: fx(0), g: fx(0), b: fx(0), a: fx(0) }
}

/// The colour of a scattered bounce: the material's attenuation times the
/// colour shaded for the scattered ray, with alpha forced to one.
pub open spec fn s_attenuated(albedo: Color, rec: Color) -> Color {
    let m = s_cmul(albedo, rec);
    Color { r: m.r, g: m.g, b: m.b, a: fx(SCALE as int) }
}

/// Everything that holds of a colour shaded for `ray` against the spheres
/// `ss`, whatever the random draws did: a miss yields exactly the sky
/// gradient; a hit yields transparent black (absorption, or the depth bound)
/// or the hit material's albedo times some recursively shaded colour, with
/// full alpha.
pub open spec fn s_shade_outcome(ss: Seq<Sphere>, ray: Ray, c: Color) -> bool {
    let hit = s_list_hit(ss, ray, T_MIN as int, T_MAX as int);
    &&& (hit.is_none() ==> c == s_sky(ray.direction))
    &&& (hit.is_some() ==> c == s_transparent_black() || (exists|rec: Color|
        c == s_attenuated(s_albedo(hit.unwrap().material), rec)))
}

impl Ray {
    /// Evaluates the ray at parameter `t`: exactly `start + t * direction`
    /// in the fixed-point model, for every `t`.
    pub fn eval(&self, t: Fx) -> (r: Vec3)
        ensures
            r == s_ray_eval(*self, t@),
    {
        self.start.add(&self.direction.scale(t))
    }

    /// The light carried back along this ray: the sky colour when nothing
    /// is hit, transparent black when the hit material absorbs the ray or
    /// `MAX_DEPTH` bounces are exhausted, and otherwise the scattered ray's
    /// colour attenuated by the material, with full alpha.
    pub fn get_color(&self, world: &HitableList, depth: u8, rng: &mut StdRng) -> (r: Color)
        requires
            world.wf(),
        ensures
            s_list_hit(world.hitables@, *self, T_MIN as int, T_MAX as int).is_none() ==> r
                == s_sky(self.direction),
            s_list_hit(world.hitables@, *self, T_MIN as int, T_MAX as int).is_some() && depth
                >= MAX_DEPTH ==> r == s_transparent_black(),
            ({
                let hit = s_list_hit(world.hitables@, *self, T_MIN as int, T_MAX as int);
                hit.is_some() && depth < MAX_DEPTH && (hit.unwrap().material matches
                    Material::Lambertian(_)) ==> r.a@ == SCALE as int
            }),
            r.a@ == SCALE as int || r == s_transparent_black(),
            s_shade_outcome(world.hitables@, *self, r),
        decreases MAX_DEPTH - depth,
    {
        if let Some(hitrecord) = world.hit(self, Fx::from_raw(T_MIN), Fx::from_raw(T_MAX)) {
            if depth < MAX_DEPTH {
                if let Some((attenuation, scattered)) = hitrecord.material.scatter(
                    self,
                    &hitrecord,
                    rng,
                ) {
                    let rec: Color = scattered.get_color(world, depth + 1, rng);
                    let mut color: Color = attenuation.mul(&rec);
                    color.a = Fx::one();
                    proof {
                        assert(color == s_attenuated(s_albedo(hitrecord.material), rec));
                    }
                    return color;
                }
            }
            Color { r: Fx::zero(), g: Fx::zero(), b: Fx::zero(), a: Fx::zero() }
        } else {
            let len: Fx = self.direction.length();
            let t: Fx = if len.raw == 0 {
                Fx::from_raw(32768)
            } else {
                let unit: Vec3 = self.direction.normalize();
                Fx::from_raw(32768).mul(&unit.y.add(&Fx::one()))
            };
            let white = Color { r: Fx::one(), g: Fx::one(), b: Fx::one(), a: Fx::one() };
            let blue = Color {
                r: Fx::from_raw(32768),
                g: Fx::from_raw(45875),
                b: Fx::one(),
                a: Fx::one(),
            };
            let mut color: Color = white.scale(Fx::one().sub(&t)).add(&blue.scale(t));
            color.a = Fx::one();
            color
        }
    }
}

} // verus!
