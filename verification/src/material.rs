//! Surface materials and their scattering rules.
//!
//! A material is a pure decision from an incoming ray and a hit to an
//! optional attenuation and outgoing ray, up to the random point drawn for
//! the bounce.  The contracts state everything that holds of every draw.

use vstd::prelude::*;

use rand::rngs::StdRng;

use crate::color::Color;
use crate::fixed::{Fx, SCALE};
use crate::geometry::HitRecord;
use crate::ray::Ray;
use crate::sampling::random_in_unit_sphere;
use crate::vec3::{dot, reflect, s_dot, s_len, s_normalize, s_reflect, s_vadd, s_vscale, s_vsub, Vec3};

verus! {

/// The scattered direction of a diffuse bounce: toward
/// `point + normal + rnd` from `point`, for the drawn `rnd`.
pub open spec fn s_lambertian_dir(point: Vec3, normal: Vec3, rnd: Vec3) -> Vec3 {
    s_vsub(s_vadd(s_vadd(point, normal), rnd), point)
}

/// The scattered direction of a metallic bounce: the reflection of the unit
/// incoming direction, fuzzed by `rnd` scaled with `fuzz`.
pub open spec fn s_metal_dir(unit_in: Vec3, normal: Vec3, rnd: Vec3, fuzz: int) -> Vec3 {
    s_vadd(s_reflect(unit_in, normal), s_vscale(rnd, fuzz))
}

/// A diffuse surface.
#[derive(Clone, Copy, Debug, PartialEq, Eq, Structural)]
pub struct Lambertian {
    pub albedo: Color,
}

/// A specular surface with a roughness parameter.
#[derive(Clone, Copy, Debug, PartialEq, Eq, Structural)]
pub struct Metal {
    pub albedo: Color,
    pub fuzz: Fx,
}

/// Either of the two surface kinds.
#[derive(Clone, Copy, Debug, PartialEq, Eq, Structural)]
pub enum Material {
    Lambertian(Lambertian),
    Metal(Metal),
}

/// The attenuation a material applies when it scatters.
pub open spec fn s_albedo(m: Material) -> Color {
    match m {
        Material::Lambertian(l) => l.albedo,
        Material::Metal(l) => l.albedo,
    }
}

impl Lambertian {
    /// Diffuse scattering: always succeeds, attenuates by the albedo, and
    /// sends the ray from the hit point toward the hit point displaced by
    /// the normal and a random point inside the unit sphere.
    pub fn scatter(&self, _ray: &Ray, hit: &HitRecord, rng: &mut StdRng) -> (r: Option<
        (Color, Ray),
    >)
        ensures
            r.is_some(),
            r.unwrap().0 == self.albedo,
            r.unwrap().1.start == hit.point,
            exists|rnd: Vec3|
                s_len(rnd) < SCALE as int && r.unwrap().1.direction == s_lambertian_dir(
                    hit.point,
                    hit.normal,
                    rnd,
                ),
    {
        let rnd: Vec3 = random_in_unit_sphere(rng);
        let target: Vec3 = hit.point.add(&hit.normal).add(&rnd);
        let scattered = Ray { direction: target.sub(&hit.point), start: hit.point };
        proof {
            assert(s_len(rnd) < SCALE as int && scattered.direction == s_lambertian_dir(
                hit.point,
                hit.normal,
                rnd,
            ));
        }
        Some((self.albedo, scattered))
    }
}

impl Metal {
    /// Specular scattering: reflects the unit incoming direction about the
    /// normal, fuzzes it, and succeeds exactly when the scattered ray leaves
    /// the surface.  A degenerate incoming direction is absorbed.
    pub fn scatter(&self, ray: &Ray, hit: &HitRecord, rng: &mut StdRng) -> (r: Option<
        (Color, Ray),
    >)
        ensures
            r.is_some() ==> r.unwrap().0 == self.albedo,
            r.is_some() ==> r.unwrap().1.start == hit.point,
            r.is_some() ==> s_dot(r.unwrap().1.direction, hit.normal) > 0,
            r.is_some() ==> s_len(ray.direction) != 0,
            r.is_some() ==> exists|rnd: Vec3|
                s_len(rnd) < SCALE as int && r.unwrap().1.direction == s_metal_dir(
                    s_normalize(ray.direction),
                    hit.normal,
                    rnd,
                    self.fuzz@,
                ),
            s_len(ray.direction) == 0 ==> r.is_none(),
            r.is_none() ==> s_len(ray.direction) == 0 || exists|rnd: Vec3|
                s_len(rnd) < SCALE as int && s_dot(
                    s_metal_dir(s_normalize(ray.direction), hit.normal, rnd, self.fuzz@),
                    hit.normal,
                ) <= 0,
    {
        let len: Fx = ray.direction.length();
        if len.raw == 0 {
            return None;
        }
        let unit: Vec3 = ray.direction.normalize();
        let reflected: Vec3 = reflect(&unit, &hit.normal);
        let rnd: Vec3 = random_in_unit_sphere(rng);
        let scattered = Ray {
            direction: reflected.add(&rnd.scale(self.fuzz)),
            start: hit.point,
        };
        if dot(&scattered.direction, &hit.normal).gt(&Fx::zero()) {
            proof {
                assert(s_len(rnd) < SCALE as int && scattered.direction == s_metal_dir(
                    s_normalize(ray.direction),
                    hit.normal,
                    rnd,
                    self.fuzz@,
                ));
            }
            Some((self.albedo, scattered))
        } else {
            proof {
                assert(s_len(rnd) < SCALE as int && s_dot(
                    s_metal_dir(s_normalize(ray.direction), hit.normal, rnd, self.fuzz@),
                    hit.normal,
                ) <= 0);
            }
            None
        }
    }
}

impl Material {
    /// Dispatches to the scattering rule of the surface kind.
    pub fn scatter(&self, ray: &Ray, hit: &HitRecord, rng: &mut StdRng) -> (r: Option<
        (Color, Ray),
    >)
        ensures
            r.is_some() ==> r.unwrap().0 == s_albedo(*self),
            r.is_some() ==> r.unwrap().1.start == hit.point,
            self matches Material::Lambertian(_) ==> r.is_some(),
            (self matches Material::Metal(_) && r.is_some()) ==> s_dot(
                r.unwrap().1.direction,
                hit.normal,
            ) > 0,
    {
        match self {
            Material::Lambertian(m) => m.scatter(ray, hit, rng),
            Material::Metal(m) => m.scatter(ray, hit, rng),
        }
    }
}

} // verus!
