//! Random sampling.
//!
//! The tracer's only source of randomness is a caller-supplied `StdRng` from
//! the rand crate.  Nothing is assumed of the words it yields: every function
//! that consumes them states what holds of its result whatever came back.

use vstd::prelude::*;

use rand::rngs::StdRng;
use rand::RngCore;
use rand::SeedableRng;

use crate::fixed::{is_isqrt, isqrt, lemma_isqrt_unique, Fx, SCALE};
use crate::vec3::{s_dot, s_len, Vec3};

verus! {

#[verifier::external_type_specification]
#[verifier::external_body]
pub struct ExStdRng(StdRng);

/// Relies on rand's `SeedableRng::seed_from_u64` for `StdRng`: builds a
/// generator from a word-sized seed.  Nothing is stated of the stream it
/// will yield.
#[verifier::external_body]
pub(crate) fn rng_from_seed(seed: u64) -> StdRng {
    StdRng::seed_from_u64(seed)
}

/// Relies on rand's `RngCore::next_u32` for `StdRng`: steps the generator
/// and hands back its next word.  Nothing is stated of the word's value.
#[verifier::external_body]
fn rng_next(rng: &mut StdRng) -> u32 {
    rng.next_u32()
}

/// Draws a fixed-point value in `[0, 1)`.
pub fn random_unit(rng: &mut StdRng) -> (r: Fx)
    ensures
        0 <= r@ < SCALE as int,
{
    let w: u32 = rng_next(rng);
    let frac: u32 = w % 65536;
    Fx::from_raw(frac as i64)
}

/// Draws a point strictly inside the unit sphere, by rejection: a point is
/// drawn uniformly in the cube `[-1, 1)` in each axis and kept once its
/// length is below one.  A draw lands inside the sphere about half of the
/// time, so the number of tries is bounded; in the vanishingly unlikely case
/// that every try is rejected, the centre of the sphere is returned.
pub fn random_in_unit_sphere(rng: &mut StdRng) -> (r: Vec3)
    ensures
        s_len(r) < SCALE as int,
{
    let two: Fx = Fx::from_raw(2 * SCALE);
    let one: Fx = Fx::one();
    let mut tries: u32 = 0;
    while tries < 64
        invariant
            one@ == SCALE as int,
        decreases 64 - tries,
    {
        let cube: Vec3 = Vec3::new(random_unit(rng), random_unit(rng), random_unit(rng));
        let p: Vec3 = cube.scale(two).sub(&Vec3::new(one, one, one));
        if p.length().lt(&one) {
            return p;
        }
        tries = tries + 1;
    }
    let zero: Fx = Fx::zero();
    let centre: Vec3 = Vec3::new(zero, zero, zero);
    proof {
        assert(s_dot(centre, centre) == 0);
        assert(is_isqrt(0, 0));
        lemma_isqrt_unique(0, 0, isqrt(0));
    }
    centre
}

} // verus!
