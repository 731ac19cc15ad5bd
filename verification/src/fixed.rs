//! Saturating fixed-point scalars.
//!
//! Every real quantity in the tracer (coordinates, colours, ray parameters)
//! is a [`Fx`]: an `i64` holding the quantity times [`SCALE`].  Products and
//! quotients are computed in 128-bit intermediates and truncated toward zero;
//! results outside the `i64` range saturate.  The spec functions `fxadd`,
//! `fxsub`, `fxmul`, `fxdiv` and `fxsqrt` are the exact mathematical model of
//! those operations, and every contract in the crate is stated over them.

use vstd::prelude::*;

verus! {

/// Number of raw steps per unit: `Fx` is a Q47.16 format.
pub const SCALE: i64 = 65536;

/// Magnitude of an integer.
pub open spec fn absi(a: int) -> int {
    if a < 0 {
        -a
    } else {
        a
    }
}

/// Quotient truncated toward zero, as Rust's integer `/` computes it.
pub open spec fn tdiv(a: int, b: int) -> int
    recommends
        b != 0,
{
    if (a < 0) == (b < 0) {
        absi(a) / absi(b)
    } else {
        -(absi(a) / absi(b))
    }
}

/// Saturation to the `i64` range.
pub open spec fn clip(x: int) -> int {
    if x > i64::MAX as int {
        i64::MAX as int
    } else if x < i64::MIN as int {
        i64::MIN as int
    } else {
        x
    }
}

/// Model of fixed-point addition.
pub open spec fn fxadd(a: int, b: int) -> int {
    clip(a + b)
}

/// Model of fixed-point subtraction.
pub open spec fn fxsub(a: int, b: int) -> int {
    clip(a - b)
}

/// Model of fixed-point negation.
pub open spec fn fxneg(a: int) -> int {
    clip(-a)
}

/// Model of fixed-point multiplication: the double-width product is
/// rescaled with truncation toward zero, then saturated.
pub open spec fn fxmul(a: int, b: int) -> int {
    clip(tdiv(a * b, SCALE as int))
}

/// Model of fixed-point division.
pub open spec fn fxdiv(a: int, b: int) -> int
    recommends
        b != 0,
{
    clip(tdiv(a * SCALE as int, b))
}

/// `r` is the integer square root of `n`.
pub open spec fn is_isqrt(n: int, r: int) -> bool {
    0 <= r && r * r <= n && n < (r + 1) * (r + 1)
}

/// The integer square root (floor of the real square root).
pub open spec fn isqrt(n: int) -> int
    recommends
        n >= 0,
{
    choose|r: int| is_isqrt(n, r)
}

/// Model of fixed-point square root: `sqrt(a / SCALE) * SCALE` rounded down
/// is the integer square root of `a * SCALE`.
pub open spec fn fxsqrt(a: int) -> int
    recommends
        a >= 0,
{
    isqrt(a * SCALE as int)
}

/// Truncating division recovers a factor: `tdiv(k * d, d) == k` for any
/// positive `d`.
pub proof fn lemma_tdiv_exact(k: int, d: int)
    requires
        d > 0,
    ensures
        tdiv(k * d, d) == k,
{
    if k >= 0 {
        assert(k * d >= 0) by (nonlinear_arith)
            requires
                k >= 0 && d > 0,
        ;
        assert(k * d == d * k) by (nonlinear_arith);
        vstd::arithmetic::div_mod::lemma_div_multiples_vanish(k, d);
    } else {
        assert(k * d < 0) by (nonlinear_arith)
            requires
                k < 0 && d > 0,
        ;
        assert(-(k * d) == d * (-k)) by (nonlinear_arith);
        vstd::arithmetic::div_mod::lemma_div_multiples_vanish(-k, d);
    }
}

/// The integer square root is unique.
pub proof fn lemma_isqrt_unique(n: int, x: int, y: int)
    requires
        is_isqrt(n, x),
        is_isqrt(n, y),
    ensures
        x == y,
{
    assert(x == y) by (nonlinear_arith)
        requires
            0 <= x,
            x * x <= n,
            n < (x + 1) * (x + 1),
            0 <= y,
            y * y <= n,
            n < (y + 1) * (y + 1),
    ;
}

/// The product of two `i64` values fits strictly inside the `i128` range.
pub(crate) proof fn lemma_i64_mul_fits(a: int, b: int)
    by (nonlinear_arith)
    requires
        i64::MIN as int <= a <= i64::MAX as int,
        i64::MIN as int <= b <= i64::MAX as int,
    ensures
        a * b < i128::MAX as int,
        a * b > i128::MIN as int,
{
}

/// A fixed-point number: the real value is `raw / SCALE`.
#[derive(Clone, Copy, Debug, PartialEq, Eq, Structural)]
pub struct Fx {
    pub raw: i64,
}

impl View for Fx {
    type V = int;

    open spec fn view(&self) -> int {
        self.raw as int
    }
}

/// Builds a `Fx` in specifications from its raw value.
pub open spec fn fx(raw: int) -> Fx {
    Fx { raw: raw as i64 }
}

/// Saturating narrowing of a double-width intermediate.
fn clamp_i128(v: i128) -> (r: i64)
    ensures
        r as int == clip(v as int),
{
    if v > i64::MAX as i128 {
        i64::MAX
    } else if v < i64::MIN as i128 {
        i64::MIN
    } else {
        v as i64
    }
}

/// Division of double-width intermediates, truncating toward zero.
pub(crate) fn tdiv_i128(a: i128, b: i128) -> (r: i128)
    requires
        b != 0,
        a > i128::MIN,
        b > i128::MIN,
    ensures
        r == tdiv(a as int, b as int),
{
    let au: u128 = if a >= 0 {
        a as u128
    } else {
        (-a) as u128
    };
    let bu: u128 = if b >= 0 {
        b as u128
    } else {
        (-b) as u128
    };
    assert(au as int == absi(a as int));
    assert(bu as int == absi(b as int));
    assert(bu > 0);
    let q: u128 = au / bu;
    proof {
        assert(q as int == absi(a as int) / absi(b as int));
        assert(q <= au) by (nonlinear_arith)
            requires
                bu >= 1,
                q == au / bu,
        ;
    }
    if (a < 0) != (b < 0) {
        -(q as i128)
    } else {
        q as i128
    }
}

/// Integer square root by bisection.
fn isqrt_u128(n: u128) -> (r: u64)
    requires
        n < 1208925819614629174706176,
    ensures
        is_isqrt(n as int, r as int),
{
    let mut lo: u64 = 0;
    let mut hi: u64 = 1099511627776;
    proof {
        assert((hi as int + 1) * (hi as int + 1) > n as int);
    }
    while lo < hi
        invariant
            lo <= hi,
            hi <= 1099511627776,
            n < 1208925819614629174706176,
            (lo as int) * (lo as int) <= n as int,
            (hi as int + 1) * (hi as int + 1) > n as int,
        decreases hi - lo,
    {
        let mid: u64 = lo + (hi - lo + 1) / 2;
        assert(lo < mid && mid <= hi);
        proof {
            assert(mid as int * mid as int <= 1208925819614629174706176 + 2199023255553)
                by (nonlinear_arith)
                requires
                    mid <= 1099511627777,
            ;
        }
        let m: u128 = (mid as u128) * (mid as u128);
        if m <= n {
            lo = mid;
        } else {
            hi = mid - 1;
        }
    }
    lo
}

impl Fx {
    /// The value zero.
    pub fn zero() -> (r: Fx)
        ensures
            r@ == 0,
    {
        Fx { raw: 0 }
    }

    /// The value one.
    pub fn one() -> (r: Fx)
        ensures
            r@ == SCALE as int,
    {
        Fx { raw: SCALE }
    }

    /// Builds the value `raw / SCALE`.
    pub fn from_raw(raw: i64) -> (r: Fx)
        ensures
            r@ == raw as int,
    {
        Fx { raw }
    }

    /// Builds the integer value `v`, saturating if it is out of range.
    pub fn from_int(v: i64) -> (r: Fx)
        ensures
            r@ == clip(v as int * SCALE as int),
    {
        proof {
            lemma_i64_mul_fits(v as int, SCALE as int);
        }
        let p: i128 = (v as i128) * (SCALE as i128);
        Fx { raw: clamp_i128(p) }
    }

    /// Fixed-point addition.
    pub fn add(&self, o: &Fx) -> (r: Fx)
        ensures
            r@ == fxadd(self@, o@),
    {
        let s: i128 = (self.raw as i128) + (o.raw as i128);
        Fx { raw: clamp_i128(s) }
    }

    /// Fixed-point subtraction.
    pub fn sub(&self, o: &Fx) -> (r: Fx)
        ensures
            r@ == fxsub(self@, o@),
    {
        let s: i128 = (self.raw as i128) - (o.raw as i128);
        Fx { raw: clamp_i128(s) }
    }

    /// Fixed-point negation.
    pub fn neg(&self) -> (r: Fx)
        ensures
            r@ == fxneg(self@),
    {
        let s: i128 = -(self.raw as i128);
        Fx { raw: clamp_i128(s) }
    }

    /// Fixed-point multiplication.
    pub fn mul(&self, o: &Fx) -> (r: Fx)
        ensures
            r@ == fxmul(self@, o@),
    {
        proof {
            lemma_i64_mul_fits(self.raw as int, o.raw as int);
        }
        let p: i128 = (self.raw as i128) * (o.raw as i128);
        let q: i128 = tdiv_i128(p, SCALE as i128);
        Fx { raw: clamp_i128(q) }
    }

    /// Fixed-point division.
    pub fn div(&self, o: &Fx) -> (r: Fx)
        requires
            o@ != 0,
        ensures
            r@ == fxdiv(self@, o@),
    {
        proof {
            lemma_i64_mul_fits(self.raw as int, SCALE as int);
        }
        let p: i128 = (self.raw as i128) * (SCALE as i128);
        let q: i128 = tdiv_i128(p, o.raw as i128);
        Fx { raw: clamp_i128(q) }
    }

    /// Fixed-point square root of a non-negative value.
    pub fn sqrt(&self) -> (r: Fx)
        requires
            self@ >= 0,
        ensures
            r@ == fxsqrt(self@),
            r@ >= 0,
    {
        let n: u128 = (self.raw as u128) * (SCALE as u128);
        let root: u64 = isqrt_u128(n);
        proof {
            assert(is_isqrt(n as int, root as int));
            assert(exists|q: int| is_isqrt(n as int, q));
            lemma_isqrt_unique(n as int, root as int, isqrt(n as int));
            assert(root as int <= 1099511627776) by (nonlinear_arith)
                requires
                    (root as int) * (root as int) <= n as int,
                    n < 1208925819614629174706176,
            ;
        }
        Fx { raw: root as i64 }
    }

    /// Strictly less.
    pub fn lt(&self, o: &Fx) -> (r: bool)
        ensures
            r == (self@ < o@),
    {
        self.raw < o.raw
    }

    /// Strictly greater.
    pub fn gt(&self, o: &Fx) -> (r: bool)
        ensures
            r == (self@ > o@),
    {
        self.raw > o.raw
    }
}

} // verus!
