//! Three-component fixed-point vectors.
//!
//! Each operation mirrors the usual real-vector algebra over the saturating
//! fixed-point scalars of [`crate::fixed`], and its contract states the result
//! exactly, component by component, over that model.

use vstd::prelude::*;

use crate::fixed::{fx, fxadd, fxdiv, fxmul, fxneg, fxsqrt, fxsub, lemma_tdiv_exact, tdiv, Fx, SCALE};

verus! {

/// A point or direction in space.
#[derive(Clone, Copy, Debug, PartialEq, Eq, Structural)]
pub struct Vec3 {
    pub x: Fx,
    pub y: Fx,
    pub z: Fx,
}

/// Component-wise sum.
pub open spec fn s_vadd(a: Vec3, b: Vec3) -> Vec3 {
    Vec3 { x: fx(fxadd(a.x@, b.x@)), y: fx(fxadd(a.y@, b.y@)), z: fx(fxadd(a.z@, b.z@)) }
}

/// Component-wise difference.
pub open spec fn s_vsub(a: Vec3, b: Vec3) -> Vec3 {
    Vec3 { x: fx(fxsub(a.x@, b.x@)), y: fx(fxsub(a.y@, b.y@)), z: fx(fxsub(a.z@, b.z@)) }
}

/// Every component scaled by `s`.
pub open spec fn s_vscale(a: Vec3, s: int) -> Vec3 {
    Vec3 { x: fx(fxmul(a.x@, s)), y: fx(fxmul(a.y@, s)), z: fx(fxmul(a.z@, s)) }
}

/// Dot product, summed left to right.
pub open spec fn s_dot(a: Vec3, b: Vec3) -> int {
    fxadd(fxadd(fxmul(a.x@, b.x@), fxmul(a.y@, b.y@)), fxmul(a.z@, b.z@))
}

/// Euclidean length.
pub open spec fn s_len(a: Vec3) -> int {
    fxsqrt(s_dot(a, a))
}

/// Scaling by the reciprocal of the length.
pub open spec fn s_normalize(a: Vec3) -> Vec3
    recommends
        s_len(a) != 0,
{
    s_vscale(a, fxdiv(SCALE as int, s_len(a)))
}

/// Mirror image about a surface normal: `v - 2*dot(v, n)*n`.
pub open spec fn s_reflect(v: Vec3, n: Vec3) -> Vec3 {
    s_vsub(v, s_vscale(n, fxmul(2 * SCALE as int, s_dot(v, n))))
}

/// A dot product of a vector with itself never goes negative.
pub proof fn lemma_dot_self_nonneg(a: Vec3)
    ensures
        s_dot(a, a) >= 0,
{
    assert(a.x@ * a.x@ >= 0) by (nonlinear_arith);
    assert(a.y@ * a.y@ >= 0) by (nonlinear_arith);
    assert(a.z@ * a.z@ >= 0) by (nonlinear_arith);
}

/// Dot product in the exact integer model, before any truncation.
pub open spec fn idot(ax: int, ay: int, az: int, bx: int, by: int, bz: int) -> int {
    ax * bx + ay * by + az * bz
}

/// The reflection law, in the exact integer model.
///
/// When `n` has squared length `u`, the reflection of `v` about `n`, written
/// homogeneously as `u*v - 2*dot(v, n)*n`, makes the same angle with the
/// surface as the incoming vector: its dot product with `n` is
/// `-u*dot(v, n)`.  For a unit normal (`u == 1`) this is the textbook law
/// `dot(reflect(v, n), n) == -dot(v, n)`.  The executable [`reflect`]
/// computes this quantity in fixed point, where each product additionally
/// truncates toward zero.
pub proof fn lemma_reflect_law(vx: int, vy: int, vz: int, nx: int, ny: int, nz: int, u: int)
    requires
        idot(nx, ny, nz, nx, ny, nz) == u,
    ensures
        idot(
            u * vx - 2 * idot(vx, vy, vz, nx, ny, nz) * nx,
            u * vy - 2 * idot(vx, vy, vz, nx, ny, nz) * ny,
            u * vz - 2 * idot(vx, vy, vz, nx, ny, nz) * nz,
            nx,
            ny,
            nz,
        ) == -u * idot(vx, vy, vz, nx, ny, nz),
{
    let d = idot(vx, vy, vz, nx, ny, nz);
    assert((u * vx - 2 * d * nx) * nx == u * (vx * nx) - 2 * (d * (nx * nx)))
        by (nonlinear_arith);
    assert((u * vy - 2 * d * ny) * ny == u * (vy * ny) - 2 * (d * (ny * ny)))
        by (nonlinear_arith);
    assert((u * vz - 2 * d * nz) * nz == u * (vz * nz) - 2 * (d * (nz * nz)))
        by (nonlinear_arith);
    assert(u * (vx * nx) + u * (vy * ny) + u * (vz * nz) == u * d) by (nonlinear_arith)
        requires
            d == vx * nx + vy * ny + vz * nz,
    ;
    assert(d * (nx * nx) + d * (ny * ny) + d * (nz * nz) == d * u) by (nonlinear_arith)
        requires
            u == nx * nx + ny * ny + nz * nz,
    ;
    assert(u * d - 2 * (d * u) == -u * d) by (nonlinear_arith);
}

/// The reflection law holds exactly in fixed point when the unit normal
/// lies on an axis: no product then loses anything to truncation, so
/// `dot(reflect(v, n), n) == -dot(v, n)` letter for letter.  For a general
/// unit normal the truncated products leave the two sides a few raw steps
/// apart, which [`lemma_reflect_law`] accounts for in the exact model.
pub proof fn lemma_reflect_law_fixed_axis(v: Vec3)
    requires
        -70368744177664 <= v.z@ <= 70368744177664,
    ensures
        ({
            let n = Vec3 { x: fx(0), y: fx(0), z: fx(SCALE as int) };
            s_dot(s_reflect(v, n), n) == fxneg(s_dot(v, n))
        }),
{
    let n = Vec3 { x: fx(0), y: fx(0), z: fx(SCALE as int) };
    lemma_tdiv_exact(v.z@, SCALE as int);
    assert(fxmul(v.x@, 0) == 0);
    assert(fxmul(v.y@, 0) == 0);
    assert(fxmul(v.z@, SCALE as int) == v.z@);
    let d = s_dot(v, n);
    assert(d == v.z@);
    lemma_tdiv_exact(2 * d, SCALE as int);
    assert((2 * d) * 65536 == 131072 * d);
    assert(fxmul(2 * SCALE as int, d) == 2 * d);
    assert(SCALE as int * (2 * d) == (2 * d) * SCALE as int);
    assert(fxmul(SCALE as int, 2 * d) == 2 * d);
    let refl = s_reflect(v, n);
    assert(refl.z@ == -v.z@);
    lemma_tdiv_exact(-v.z@, SCALE as int);
    assert(fxmul(refl.z@, SCALE as int) == -v.z@);
}

impl Vec3 {
    /// Builds a vector from its components.
    pub fn new(x: Fx, y: Fx, z: Fx) -> (r: Vec3)
        ensures
            r == (Vec3 { x, y, z }),
    {
        Vec3 { x, y, z }
    }

    /// Vector addition.
    pub fn add(&self, o: &Vec3) -> (r: Vec3)
        ensures
            r == s_vadd(*self, *o),
    {
        Vec3 { x: self.x.add(&o.x), y: self.y.add(&o.y), z: self.z.add(&o.z) }
    }

    /// Vector subtraction.
    pub fn sub(&self, o: &Vec3) -> (r: Vec3)
        ensures
            r == s_vsub(*self, *o),
    {
        Vec3 { x: self.x.sub(&o.x), y: self.y.sub(&o.y), z: self.z.sub(&o.z) }
    }

    /// Scaling by a scalar.
    pub fn scale(&self, s: Fx) -> (r: Vec3)
        ensures
            r == s_vscale(*self, s@),
    {
        Vec3 { x: self.x.mul(&s), y: self.y.mul(&s), z: self.z.mul(&s) }
    }

    /// Scaling by the reciprocal of a scalar.
    pub fn div(&self, s: Fx) -> (r: Vec3)
        requires
            s@ != 0,
        ensures
            r == s_vscale(*self, fxdiv(SCALE as int, s@)),
    {
        let recip: Fx = Fx::one().div(&s);
        self.scale(recip)
    }

    /// Euclidean length.
    pub fn length(&self) -> (r: Fx)
        ensures
            r@ == s_len(*self),
            r@ >= 0,
    {
        let d: Fx = dot(self, self);
        proof {
            lemma_dot_self_nonneg(*self);
        }
        d.sqrt()
    }

    /// The unit vector with this direction.
    pub fn normalize(&self) -> (r: Vec3)
        requires
            s_len(*self) != 0,
        ensures
            r == s_normalize(*self),
    {
        let len: Fx = self.length();
        let recip: Fx = Fx::one().div(&len);
        self.scale(recip)
    }
}

/// Dot product.
pub fn dot(a: &Vec3, b: &Vec3) -> (r: Fx)
    ensures
        r@ == s_dot(*a, *b),
{
    a.x.mul(&b.x).add(&a.y.mul(&b.y)).add(&a.z.mul(&b.z))
}

/// Mirror image of `v` about the surface normal `n`.
pub fn reflect(v: &Vec3, n: &Vec3) -> (r: Vec3)
    ensures
        r == s_reflect(*v, *n),
{
    let two: Fx = Fx::from_raw(2 * SCALE);
    let s: Fx = two.mul(&dot(v, n));
    v.sub(&n.scale(s))
}

} // verus!
