//! Ray-sphere intersection and the nearest-hit aggregate.

use vstd::prelude::*;

use crate::fixed::{fx, fxadd, fxdiv, fxmul, fxneg, fxsqrt, fxsub, Fx, SCALE};
use crate::material::Material;
use crate::ray::{s_ray_eval, Ray};
use crate::vec3::{dot, s_dot, s_vscale, s_vsub, Vec3};

verus! {

/// A successful intersection: the ray parameter, the point reached, the
/// outward unit normal there, and the material of the surface.
#[derive(Clone, Copy, Debug, PartialEq, Eq, Structural)]
pub struct HitRecord {
    pub time: Fx,
    pub point: Vec3,
    pub normal: Vec3,
    pub material: Material,
}

/// A sphere with a positive radius and a material.
#[derive(Clone, Copy, Debug, PartialEq, Eq, Structural)]
pub struct Sphere {
    pub center: Vec3,
    pub radius: Fx,
    pub material: Material,
}

/// The record for the hit of `ray` on `s` at parameter `t`: the normal is
/// `(point - center) / radius`, which has unit length.
pub open spec fn s_make_hit(s: Sphere, ray: Ray, t: int) -> HitRecord
    recommends
        s.radius@ != 0,
{
    let point = s_ray_eval(ray, t);
    HitRecord {
        time: fx(t),
        point,
        normal: s_vscale(s_vsub(point, s.center), fxdiv(SCALE as int, s.radius@)),
        material: s.material,
    }
}

/// The hit of `ray` on the sphere `s` strictly inside `(t_min, t_max)`:
/// the smaller root of the quadratic is preferred, the larger taken when the
/// smaller falls outside the interval.  A ray whose direction is so short
/// that its squared length truncates to zero hits nothing.
pub open spec fn s_sphere_hit(s: Sphere, ray: Ray, t_min: int, t_max: int) -> Option<HitRecord>
    recommends
        s.radius@ > 0,
{
    let oc = s_vsub(ray.start, s.center);
    let a = s_dot(ray.direction, ray.direction);
    let b = s_dot(oc, ray.direction);
    let c = fxsub(s_dot(oc, oc), fxmul(s.radius@, s.radius@));
    let disc = fxsub(fxmul(b, b), fxmul(a, c));
    if disc > 0 && a != 0 {
        let sq = fxsqrt(disc);
        let t1 = fxdiv(fxsub(fxneg(b), sq), a);
        if t_min < t1 && t1 < t_max {
            Some(s_make_hit(s, ray, t1))
        } else {
            let t2 = fxdiv(fxadd(fxneg(b), sq), a);
            if t_min < t2 && t2 < t_max {
                Some(s_make_hit(s, ray, t2))
            } else {
                None
            }
        }
    } else {
        None
    }
}

impl Sphere {
    /// The radius is positive.
    pub open spec fn wf(self) -> bool {
        self.radius@ > 0
    }

    /// Builds a sphere; the radius must be positive.
    pub fn new(center: Vec3, radius: Fx, material: Material) -> (r: Sphere)
        requires
            radius@ > 0,
        ensures
            r == (Sphere { center, radius, material }),
    {
        Sphere { center, radius, material }
    }

    /// Builds a sphere, rejecting a degenerate radius at construction time.
    pub fn try_new(center: Vec3, radius: Fx, material: Material) -> (r: Option<Sphere>)
        ensures
            r.is_some() <==> radius@ > 0,
            r.is_some() ==> r.unwrap() == (Sphere { center, radius, material }),
    {
        if radius.gt(&Fx::zero()) {
            Some(Sphere { center, radius, material })
        } else {
            None
        }
    }

    /// The nearest hit of `ray` on this sphere strictly inside
    /// `(t_min, t_max)`, exactly as [`s_sphere_hit`] states it.
    pub fn hit(&self, ray: &Ray, t_min: Fx, t_max: Fx) -> (r: Option<HitRecord>)
        requires
            self.wf(),
        ensures
            r == s_sphere_hit(*self, *ray, t_min@, t_max@),
    {
        let oc: Vec3 = ray.start.sub(&self.center);
        let a: Fx = dot(&ray.direction, &ray.direction);
        let b: Fx = dot(&oc, &ray.direction);
        let c: Fx = dot(&oc, &oc).sub(&self.radius.mul(&self.radius));
        let disc: Fx = b.mul(&b).sub(&a.mul(&c));
        let zero: Fx = Fx::zero();
        if disc.gt(&zero) && a.raw != 0 {
            let sq: Fx = disc.sqrt();
            let temp: Fx = b.neg().sub(&sq).div(&a);
            if t_min.lt(&temp) && temp.lt(&t_max) {
                let point: Vec3 = ray.eval(temp);
                return Some(HitRecord {
                    time: temp,
                    point,
                    normal: point.sub(&self.center).div(self.radius),
                    material: self.material,
                });
            }
            let temp: Fx = b.neg().add(&sq).div(&a);
            if t_min.lt(&temp) && temp.lt(&t_max) {
                let point: Vec3 = ray.eval(temp);
                return Some(HitRecord {
                    time: temp,
                    point,
                    normal: point.sub(&self.center).div(self.radius),
                    material: self.material,
                });
            }
        }
        None
    }
}

/// An ordered collection of spheres, queried as one composite shape.
#[derive(Debug)]
pub struct HitableList {
    pub hitables: Vec<Sphere>,
}

/// Folds the nearest-hit search over `ss[i ..]`, carrying the closest
/// accepted parameter and the best record so far.
pub open spec fn s_list_hit_from(
    ss: Seq<Sphere>,
    i: int,
    ray: Ray,
    t_min: int,
    closest: int,
    acc: Option<HitRecord>,
) -> Option<HitRecord>
    decreases ss.len() - i,
{
    if i < 0 || i >= ss.len() {
        acc
    } else {
        match s_sphere_hit(ss[i], ray, t_min, closest) {
            Some(h) => s_list_hit_from(ss, i + 1, ray, t_min, h.time@, Some(h)),
            None => s_list_hit_from(ss, i + 1, ray, t_min, closest, acc),
        }
    }
}

/// The nearest hit of `ray` over the whole list inside `(t_min, t_max)`:
/// each candidate is probed with the running closest parameter as its upper
/// bound, so only strict improvements are taken and the first of two equal
/// hits wins.
pub open spec fn s_list_hit(ss: Seq<Sphere>, ray: Ray, t_min: int, t_max: int) -> Option<
    HitRecord,
> {
    s_list_hit_from(ss, 0, ray, t_min, t_max, None)
}

impl HitableList {
    /// Every sphere has a positive radius.
    pub open spec fn wf(self) -> bool {
        forall|i: int| 0 <= i < self.hitables@.len() ==> self.hitables@[i].wf()
    }

    /// An empty list.
    pub fn new() -> (r: HitableList)
        ensures
            r.hitables@.len() == 0,
            r.wf(),
    {
        HitableList { hitables: Vec::new() }
    }

    /// Appends a sphere.
    pub fn push(&mut self, s: Sphere)
        requires
            s.wf(),
        ensures
            final(self).hitables@ == old(self).hitables@.push(s),
            old(self).wf() ==> final(self).wf(),
    {
        self.hitables.push(s);
        proof {
            assert forall|i: int|
                0 <= i < self.hitables@.len() && old(self).wf() implies self.hitables@[i].wf() by {
                if i < self.hitables@.len() - 1 {
                    assert(self.hitables@[i] == old(self).hitables@[i]);
                }
            }
        }
    }

    /// The nearest hit over all spheres, exactly as [`s_list_hit`] states it.
    pub fn hit(&self, ray: &Ray, t_min: Fx, t_max: Fx) -> (r: Option<HitRecord>)
        requires
            self.wf(),
        ensures
            r == s_list_hit(self.hitables@, *ray, t_min@, t_max@),
    {
        let mut result: Option<HitRecord> = None;
        let mut closest: Fx = t_max;
        let n: usize = self.hitables.len();
        let mut idx: usize = 0;
        while idx < n
            invariant
                n == self.hitables@.len(),
                idx <= n,
                self.wf(),
                s_list_hit_from(self.hitables@, idx as int, *ray, t_min@, closest@, result)
                    == s_list_hit(self.hitables@, *ray, t_min@, t_max@),
            decreases n - idx,
        {
            let sph: &Sphere = &self.hitables[idx];
            if let Some(h) = sph.hit(ray, t_min, closest) {
                closest = h.time;
                result = Some(h);
            }
            idx = idx + 1;
        }
        result
    }
}

} // verus!
