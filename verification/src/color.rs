//! Four-channel fixed-point colours and byte quantization.
//!
//! Channels conventionally lie in `[0, 1]`; quantization multiplies by the
//! fixed-point approximation of `255.99`, truncates, and saturates the result
//! into a byte, mirroring a float-to-byte cast.

use vstd::prelude::*;

use crate::fixed::{fx, fxadd, fxdiv, fxmul, lemma_i64_mul_fits, tdiv, tdiv_i128, Fx};

verus! {

/// Raw fixed-point value of the quantization factor `255.99`, truncated to
/// this format: `255.99 * 65536` rounded down.
pub const QUANT: i64 = 16776560;

/// Raw fixed-point value of one squared: quantizing divides by it.
pub const UNIT_SQ: i64 = 4294967296;

/// An RGBA colour.
#[derive(Clone, Copy, Debug, PartialEq, Eq, Structural)]
pub struct Color {
    pub r: Fx,
    pub g: Fx,
    pub b: Fx,
    pub a: Fx,
}

/// Channel-wise sum.
pub open spec fn s_cadd(a: Color, b: Color) -> Color {
    Color {
        r: fx(fxadd(a.r@, b.r@)),
        g: fx(fxadd(a.g@, b.g@)),
        b: fx(fxadd(a.b@, b.b@)),
        a: fx(fxadd(a.a@, b.a@)),
    }
}

/// Channel-wise product.
pub open spec fn s_cmul(a: Color, b: Color) -> Color {
    Color {
        r: fx(fxmul(a.r@, b.r@)),
        g: fx(fxmul(a.g@, b.g@)),
        b: fx(fxmul(a.b@, b.b@)),
        a: fx(fxmul(a.a@, b.a@)),
    }
}

/// Every channel scaled by `s`.
pub open spec fn s_cscale(c: Color, s: int) -> Color {
    Color { r: fx(fxmul(c.r@, s)), g: fx(fxmul(c.g@, s)), b: fx(fxmul(c.b@, s)), a: fx(fxmul(c.a@, s)) }
}

/// Every channel divided by `s`.
pub open spec fn s_cdiv(c: Color, s: int) -> Color
    recommends
        s != 0,
{
    Color { r: fx(fxdiv(c.r@, s)), g: fx(fxdiv(c.g@, s)), b: fx(fxdiv(c.b@, s)), a: fx(fxdiv(c.a@, s)) }
}

/// Byte quantization of one channel: times `255.99`, truncated, saturated
/// into `0 ..= 255`.
pub open spec fn s_quant(x: int) -> int {
    let t = tdiv(x * QUANT as int, UNIT_SQ as int);
    if t < 0 {
        0
    } else if t > 255 {
        255
    } else {
        t
    }
}

/// Quantizes one fixed-point channel to a byte.
fn quant_channel(x: Fx) -> (r: u8)
    ensures
        r as int == s_quant(x@),
{
    proof {
        lemma_i64_mul_fits(x.raw as int, QUANT as int);
    }
    let p: i128 = (x.raw as i128) * (QUANT as i128);
    let t: i128 = tdiv_i128(p, UNIT_SQ as i128);
    if t < 0 {
        0
    } else if t > 255 {
        255
    } else {
        t as u8
    }
}

impl Color {
    /// The red channel as a byte.
    pub fn ri(&self) -> (r: u8)
        ensures
            r as int == s_quant(self.r@),
    {
        quant_channel(self.r)
    }

    /// The green channel as a byte.
    pub fn gi(&self) -> (r: u8)
        ensures
            r as int == s_quant(self.g@),
    {
        quant_channel(self.g)
    }

    /// The blue channel as a byte.
    pub fn bi(&self) -> (r: u8)
        ensures
            r as int == s_quant(self.b@),
    {
        quant_channel(self.b)
    }

    /// The alpha channel as a byte.
    pub fn ai(&self) -> (r: u8)
        ensures
            r as int == s_quant(self.a@),
    {
        quant_channel(self.a)
    }

    /// All four channels quantized, in RGBA order.
    pub fn bytes(&self) -> (r: [u8; 4])
        ensures
            r@ == seq![
                s_quant(self.r@) as u8,
                s_quant(self.g@) as u8,
                s_quant(self.b@) as u8,
                s_quant(self.a@) as u8,
            ],
    {
        let out: [u8; 4] = [self.ri(), self.gi(), self.bi(), self.ai()];
        proof {
            assert(out@ =~= seq![
                s_quant(self.r@) as u8,
                s_quant(self.g@) as u8,
                s_quant(self.b@) as u8,
                s_quant(self.a@) as u8,
            ]);
        }
        out
    }

    /// Channel-wise addition.
    pub fn add(&self, o: &Color) -> (r: Color)
        ensures
            r == s_cadd(*self, *o),
    {
        Color {
            r: self.r.add(&o.r),
            g: self.g.add(&o.g),
            b: self.b.add(&o.b),
            a: self.a.add(&o.a),
        }
    }

    /// Channel-wise multiplication.
    pub fn mul(&self, o: &Color) -> (r: Color)
        ensures
            r == s_cmul(*self, *o),
    {
        Color {
            r: self.r.mul(&o.r),
            g: self.g.mul(&o.g),
            b: self.b.mul(&o.b),
            a: self.a.mul(&o.a),
        }
    }

    /// Scaling of every channel by a scalar.
    pub fn scale(&self, s: Fx) -> (r: Color)
        ensures
            r == s_cscale(*self, s@),
    {
        Color { r: self.r.mul(&s), g: self.g.mul(&s), b: self.b.mul(&s), a: self.a.mul(&s) }
    }

    /// Adds another colour into this one.
    pub fn add_assign(&mut self, o: Color)
        ensures
            *final(self) == s_cadd(*old(self), o),
    {
        *self = self.add(&o);
    }

    /// Divides every channel by a scalar.
    pub fn div_assign(&mut self, s: Fx)
        requires
            s@ != 0,
        ensures
            *final(self) == s_cdiv(*old(self), s@),
    {
        *self = Color {
            r: self.r.div(&s),
            g: self.g.div(&s),
            b: self.b.div(&s),
            a: self.a.div(&s),
        };
    }
}

} // verus!
