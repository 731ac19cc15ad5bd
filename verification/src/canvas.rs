//! The renderer: antialiased sampling, gamma correction, and the byte
//! buffer, plus the canvas that owns one render target.
//!
//! Randomness makes a rendered buffer non-deterministic, so the renderer's
//! contract is existential: every pixel's four bytes are explained by some
//! admissible draws — per-sample jitters inside the pixel and per-sample
//! colours each shaded as [`s_shade_outcome`] allows — finished by the
//! channel-wise mean, square-root gamma, forced alpha and quantization.

use vstd::prelude::*;

use rand::rngs::StdRng;

use crate::camera::{s_camera_dir, s_default_camera, Camera};
use crate::color::{s_cadd, s_cdiv, s_quant, Color};
use crate::fixed::{clip, fx, fxadd, fxdiv, fxsqrt, tdiv, Fx, SCALE};
use crate::geometry::{HitableList, Sphere};
use crate::material::{Lambertian, Material, Metal};
use crate::ray::{s_shade_outcome, Ray};
use crate::sampling::{random_unit, rng_from_seed};
use crate::vec3::Vec3;

verus! {

/// Gamma correction of one channel: the square root, with a negative value
/// read as zero.
pub open spec fn s_gamma(x: int) -> int {
    if x < 0 {
        0
    } else {
        fxsqrt(x)
    }
}

/// Square root of a channel, reading a negative value as zero.
fn gamma_channel(x: Fx) -> (r: Fx)
    ensures
        r@ == s_gamma(x@),
{
    if x.raw < 0 {
        Fx::zero()
    } else {
        x.sqrt()
    }
}

/// The camera ray for pixel `(row, col)` of a `width` by `height` image,
/// jittered by offsets `uo`, `vo` in `[0, SCALE)`: the image-plane
/// coordinates are `(col + uo) / width` and `(height - row + vo) / height`,
/// so row zero is the top of the image.
pub open spec fn s_pixel_ray(
    cam: Camera,
    width: int,
    height: int,
    row: int,
    col: int,
    uo: int,
    vo: int,
) -> Ray
    recommends
        1 <= width,
        1 <= height,
        0 <= row < height,
{
    let u = fxdiv(fxadd(clip(col * SCALE as int), uo), clip(width * SCALE as int));
    let v = fxdiv(fxadd(clip((height - row) * SCALE as int), vo), clip(height * SCALE as int));
    Ray { start: cam.origin, direction: s_camera_dir(cam, u, v) }
}

/// Sum of a sequence of colours, first to last.
pub open spec fn s_sum_colors(cs: Seq<Color>) -> Color
    decreases cs.len(),
{
    if cs.len() == 0 {
        Color { r: fx(0), g: fx(0), b: fx(0), a: fx(0) }
    } else {
        s_cadd(s_sum_colors(cs.drop_last()), cs.last())
    }
}

/// The four bytes a pixel stores for the sample sum `sum` over `ns`
/// samples: the channel-wise mean, gamma-corrected on the colour channels,
/// with alpha forced to one, each channel quantized.
pub open spec fn s_pixel_bytes(sum: Color, ns: int) -> Seq<u8>
    recommends
        1 <= ns,
{
    let avg = s_cdiv(sum, clip(ns * SCALE as int));
    seq![
        s_quant(s_gamma(avg.r@)) as u8,
        s_quant(s_gamma(avg.g@)) as u8,
        s_quant(s_gamma(avg.b@)) as u8,
        s_quant(SCALE as int) as u8,
    ]
}

/// The witnesses behind a pixel's bytes: `ns` jitter pairs inside the pixel
/// and `ns` sample colours, each an admissible shading of the jittered
/// camera ray, whose finished sum the bytes quantize.
pub open spec fn s_pixel_witness(
    ss: Seq<Sphere>,
    cam: Camera,
    width: int,
    height: int,
    ns: int,
    row: int,
    col: int,
    bytes: Seq<u8>,
    uo: Seq<int>,
    vo: Seq<int>,
    cs: Seq<Color>,
) -> bool {
    &&& uo.len() == ns
    &&& vo.len() == ns
    &&& cs.len() == ns
    &&& (forall|s: int| 0 <= s < ns ==> 0 <= #[trigger] uo[s] < SCALE as int)
    &&& (forall|s: int| 0 <= s < ns ==> 0 <= #[trigger] vo[s] < SCALE as int)
    &&& (forall|s: int|
        0 <= s < ns ==> s_shade_outcome(
            ss,
            s_pixel_ray(cam, width, height, row, col, uo[s], vo[s]),
            #[trigger] cs[s],
        ))
    &&& bytes == s_pixel_bytes(s_sum_colors(cs), ns)
}

/// Some admissible random draws explain the pixel's bytes.
pub open spec fn s_pixel_outcome(
    ss: Seq<Sphere>,
    cam: Camera,
    width: int,
    height: int,
    ns: int,
    row: int,
    col: int,
    bytes: Seq<u8>,
) -> bool {
    exists|uo: Seq<int>, vo: Seq<int>, cs: Seq<Color>|
        s_pixel_witness(ss, cam, width, height, ns, row, col, bytes, uo, vo, cs)
}

/// The four bytes at pixel `(row, col)` of the row-major buffer `buf` are
/// an admissible render outcome for that pixel.
pub open spec fn s_pixel_at(
    ss: Seq<Sphere>,
    cam: Camera,
    width: int,
    height: int,
    ns: int,
    buf: Seq<u8>,
    row: int,
    col: int,
) -> bool {
    s_pixel_outcome(
        ss,
        cam,
        width,
        height,
        ns,
        row,
        col,
        buf.subrange(4 * (row * width + col), 4 * (row * width + col) + 4),
    )
}

/// Shades one pixel: `ns` jittered samples are drawn, averaged, gamma
/// corrected and quantized, exactly as [`s_pixel_bytes`] states over the
/// drawn jitters and sample colours.
#[verifier::loop_isolation(false)]
fn render_pixel(
    world: &HitableList,
    camera: &Camera,
    width: u32,
    height: u32,
    ns: u32,
    row: u32,
    col: u32,
    rng: &mut StdRng,
) -> (out: [u8; 4])
    requires
        world.wf(),
        ns >= 1,
        row < height,
        col < width,
    ensures
        s_pixel_outcome(
            world.hitables@,
            *camera,
            width as int,
            height as int,
            ns as int,
            row as int,
            col as int,
            out@,
        ),
        out@[3] == 255u8,
{
    let w_fx: Fx = Fx::from_int(width as i64);
    let h_fx: Fx = Fx::from_int(height as i64);
    let ns_fx: Fx = Fx::from_int(ns as i64);
    let col_fx: Fx = Fx::from_int(col as i64);
    let vrow_fx: Fx = Fx::from_int((height - row) as i64);
    let mut color_sum = Color { r: Fx::zero(), g: Fx::zero(), b: Fx::zero(), a: Fx::zero() };
    let ghost mut uo: Seq<int> = Seq::empty();
    let ghost mut vo: Seq<int> = Seq::empty();
    let ghost mut cs: Seq<Color> = Seq::empty();
    let mut s: u32 = 0;
    while s < ns
        invariant
            s <= ns,
            uo.len() == s as int,
            vo.len() == s as int,
            cs.len() == s as int,
            forall|i: int| 0 <= i < s as int ==> 0 <= #[trigger] uo[i] < SCALE as int,
            forall|i: int| 0 <= i < s as int ==> 0 <= #[trigger] vo[i] < SCALE as int,
            forall|i: int|
                0 <= i < s as int ==> s_shade_outcome(
                    world.hitables@,
                    s_pixel_ray(
                        *camera,
                        width as int,
                        height as int,
                        row as int,
                        col as int,
                        uo[i],
                        vo[i],
                    ),
                    #[trigger] cs[i],
                ),
            color_sum == s_sum_colors(cs),
        decreases ns - s,
    {
        let u_offset: Fx = random_unit(rng);
        let v_offset: Fx = random_unit(rng);
        let u_right: Fx = col_fx.add(&u_offset).div(&w_fx);
        let v_up: Fx = vrow_fx.add(&v_offset).div(&h_fx);
        let ray = camera.calculate_ray(u_right, v_up);
        proof {
            assert(ray == s_pixel_ray(
                *camera,
                width as int,
                height as int,
                row as int,
                col as int,
                u_offset@,
                v_offset@,
            ));
        }
        let color: Color = ray.get_color(world, 0, rng);
        color_sum.add_assign(color);
        proof {
            let prev = cs;
            uo = uo.push(u_offset@);
            vo = vo.push(v_offset@);
            cs = cs.push(color);
            assert(cs.drop_last() =~= prev);
            assert(cs.last() == color);
        }
        s = s + 1;
    }
    color_sum.div_assign(ns_fx);
    color_sum.r = gamma_channel(color_sum.r);
    color_sum.g = gamma_channel(color_sum.g);
    color_sum.b = gamma_channel(color_sum.b);
    color_sum.a = Fx::one();
    let out: [u8; 4] = color_sum.bytes();
    proof {
        assert(65536int * 16776560int == 1099468636160int);
        assert(1099468636160int / 4294967296int == 255int);
        assert(tdiv(65536int * 16776560int, 4294967296int) == 255);
        assert(s_quant(SCALE as int) == 255);
        assert(out@ =~= s_pixel_bytes(s_sum_colors(cs), ns as int));
        assert(s_pixel_witness(
            world.hitables@,
            *camera,
            width as int,
            height as int,
            ns as int,
            row as int,
            col as int,
            out@,
            uo,
            vo,
            cs,
        ));
    }
    out
}

/// Renders `world` as seen by `camera` into a `width * height` RGBA byte
/// buffer, row-major with row zero at the top.  Every pixel's four bytes
/// are an admissible outcome of `ns` jittered samples shaded through the
/// scene, averaged, gamma-corrected and stored with full alpha.
#[verifier::loop_isolation(false)]
pub fn render(
    world: &HitableList,
    camera: &Camera,
    width: u32,
    height: u32,
    ns: u32,
    rng: &mut StdRng,
) -> (r: Vec<u8>)
    requires
        world.wf(),
        ns >= 1,
        width as int * height as int * 4 <= usize::MAX as int,
    ensures
        r@.len() == width as int * height as int * 4,
        forall|j: int| 0 <= j < r@.len() && j % 4 == 3 ==> r@[j] == 255u8,
        forall|rr: int, cc: int|
            0 <= rr < height as int && 0 <= cc < width as int ==> s_pixel_at(
                world.hitables@,
                *camera,
                width as int,
                height as int,
                ns as int,
                r@,
                rr,
                cc,
            ),
{
    let ghost ss = world.hitables@;
    let ghost cam = *camera;
    let mut buf: Vec<u8> = Vec::new();
    let mut row: u32 = 0;
    while row < height
        invariant
            row <= height,
            buf@.len() == row as int * width as int * 4,
            forall|j: int| 0 <= j < buf@.len() && j % 4 == 3 ==> buf@[j] == 255u8,
            forall|rr: int, cc: int|
                0 <= rr < row as int && 0 <= cc < width as int ==> s_pixel_at(
                    ss,
                    cam,
                    width as int,
                    height as int,
                    ns as int,
                    buf@,
                    rr,
                    cc,
                ),
        decreases height - row,
    {
        let mut col: u32 = 0;
        while col < width
            invariant
                row < height,
                col <= width,
                buf@.len() == (row as int * width as int + col as int) * 4,
                forall|j: int| 0 <= j < buf@.len() && j % 4 == 3 ==> buf@[j] == 255u8,
                forall|rr: int, cc: int|
                    0 <= rr < row as int && 0 <= cc < width as int ==> s_pixel_at(
                        ss,
                        cam,
                        width as int,
                        height as int,
                        ns as int,
                        buf@,
                        rr,
                        cc,
                    ),
                forall|cc: int|
                    0 <= cc < col as int ==> s_pixel_at(
                        ss,
                        cam,
                        width as int,
                        height as int,
                        ns as int,
                        buf@,
                        row as int,
                        cc,
                    ),
            decreases width - col,
        {
            let out: [u8; 4] = render_pixel(world, camera, width, height, ns, row, col, rng);
            let ghost pre = buf@;
            buf.push(out[0]);
            buf.push(out[1]);
            buf.push(out[2]);
            buf.push(out[3]);
            proof {
                assert(buf@ =~= pre + out@);
                lemma_pushed_pixel(
                    ss,
                    cam,
                    width as int,
                    height as int,
                    ns as int,
                    row as int,
                    col as int,
                    pre,
                    buf@,
                    out@,
                );
            }
            col = col + 1;
        }
        proof {
            assert((row as int * width as int + width as int) * 4 == (row as int + 1) * width
                as int * 4) by (nonlinear_arith);
        }
        row = row + 1;
    }
    proof {
        assert(height as int * width as int * 4 == width as int * height as int * 4)
            by (nonlinear_arith);
    }
    buf
}

/// Appending the four bytes of the pixel at `(row, col)` keeps every
/// earlier pixel's bytes in place and puts the new bytes at their offset.
proof fn lemma_pushed_pixel(
    ss: Seq<Sphere>,
    cam: Camera,
    width: int,
    height: int,
    ns: int,
    row: int,
    col: int,
    pre: Seq<u8>,
    post: Seq<u8>,
    out: Seq<u8>,
)
    requires
        0 <= row,
        0 <= col < width,
        pre.len() == (row * width + col) * 4,
        out.len() == 4,
        post == pre + out,
        out[3] == 255u8,
        s_pixel_outcome(ss, cam, width, height, ns, row, col, out),
        forall|j: int| 0 <= j < pre.len() && j % 4 == 3 ==> pre[j] == 255u8,
        forall|rr: int, cc: int|
            0 <= rr < row && 0 <= cc < width ==> s_pixel_at(
                ss,
                cam,
                width,
                height,
                ns,
                pre,
                rr,
                cc,
            ),
        forall|cc: int| 0 <= cc < col ==> s_pixel_at(ss, cam, width, height, ns, pre, row, cc),
    ensures
        post.len() == (row * width + col) * 4 + 4,
        forall|j: int| 0 <= j < post.len() && j % 4 == 3 ==> post[j] == 255u8,
        forall|rr: int, cc: int|
            0 <= rr < row && 0 <= cc < width ==> s_pixel_at(
                ss,
                cam,
                width,
                height,
                ns,
                post,
                rr,
                cc,
            ),
        forall|cc: int| 0 <= cc <= col ==> s_pixel_at(ss, cam, width, height, ns, post, row, cc),
{
    let done = row * width + col;
    assert forall|j: int| 0 <= j < post.len() && j % 4 == 3 implies post[j] == 255u8 by {
        if j < pre.len() {
            assert(post[j] == pre[j]);
        } else {
            assert(j == pre.len() + 3);
            assert(post[j] == out[3]);
        }
    }
    assert forall|rr: int, cc: int|
        0 <= rr < row && 0 <= cc < width implies s_pixel_at(
        ss,
        cam,
        width,
        height,
        ns,
        post,
        rr,
        cc,
    ) by {
        vstd::arithmetic::mul::lemma_mul_inequality(rr, row - 1, width);
        assert((row - 1) * width == row * width - width) by (nonlinear_arith);
        lemma_earlier_pixel_kept(ss, cam, width, height, ns, rr, cc, done, pre, post);
    }
    assert forall|cc: int| 0 <= cc <= col implies s_pixel_at(
        ss,
        cam,
        width,
        height,
        ns,
        post,
        row,
        cc,
    ) by {
        if cc < col {
            lemma_earlier_pixel_kept(ss, cam, width, height, ns, row, cc, done, pre, post);
        } else {
            assert(post.subrange(4 * done, 4 * done + 4) =~= out);
        }
    }
}

/// A pixel that stands before `done` pixels of the buffer keeps its bytes
/// when four more bytes are appended.
proof fn lemma_earlier_pixel_kept(
    ss: Seq<Sphere>,
    cam: Camera,
    width: int,
    height: int,
    ns: int,
    rr: int,
    cc: int,
    done: int,
    pre: Seq<u8>,
    post: Seq<u8>,
)
    requires
        0 <= rr,
        0 <= cc < width,
        rr * width + cc < done,
        pre.len() == done * 4,
        post.len() == done * 4 + 4,
        forall|j: int| 0 <= j < pre.len() ==> post[j] == pre[j],
        s_pixel_at(ss, cam, width, height, ns, pre, rr, cc),
    ensures
        s_pixel_at(ss, cam, width, height, ns, post, rr, cc),
{
    let base = 4 * (rr * width + cc);
    assert(base + 4 <= pre.len());
    assert(post.subrange(base, base + 4) =~= pre.subrange(base, base + 4));
}

/// A render target: a pixel buffer plus the scene's random stream.
pub struct Canvas {
    pub width: u32,
    pub height: u32,
    pub buf: Vec<u8>,
    pub rng: StdRng,
}

/// The standard scene: a diffuse ball resting on a large diffuse ground
/// sphere, flanked by a fuzzy and a polished metal ball.
pub open spec fn s_standard_scene() -> Seq<Sphere> {
    seq![
        Sphere {
            center: Vec3 { x: fx(0), y: fx(0), z: fx(-65536) },
            radius: fx(32768),
            material: Material::Lambertian(
                Lambertian {
                    albedo: Color { r: fx(52429), g: fx(19661), b: fx(19661), a: fx(65536) },
                },
            ),
        },
        Sphere {
            center: Vec3 { x: fx(0), y: fx(-6586368), z: fx(-65536) },
            radius: fx(6553600),
            material: Material::Lambertian(
                Lambertian {
                    albedo: Color { r: fx(52429), g: fx(52429), b: fx(0), a: fx(65536) },
                },
            ),
        },
        Sphere {
            center: Vec3 { x: fx(65536), y: fx(0), z: fx(-65536) },
            radius: fx(32768),
            material: Material::Metal(
                Metal {
                    albedo: Color { r: fx(52429), g: fx(39322), b: fx(13107), a: fx(65536) },
                    fuzz: fx(65536),
                },
            ),
        },
        Sphere {
            center: Vec3 { x: fx(-65536), y: fx(0), z: fx(-65536) },
            radius: fx(32768),
            material: Material::Metal(
                Metal {
                    albedo: Color { r: fx(52429), g: fx(52429), b: fx(52429), a: fx(65536) },
                    fuzz: fx(19661),
                },
            ),
        },
    ]
}

impl Canvas {
    /// The pixel buffer, RGBA bytes in row-major order.
    pub fn buf(&self) -> (r: &Vec<u8>)
        ensures
            r@ == self.buf@,
    {
        &self.buf
    }

    /// The width in pixels.
    pub fn width(&self) -> (r: u32)
        ensures
            r == self.width,
    {
        self.width
    }

    /// The height in pixels.
    pub fn height(&self) -> (r: u32)
        ensures
            r == self.height,
    {
        self.height
    }

    /// A 200 by 100 canvas with a zeroed buffer and a fixed random seed.
    pub fn new() -> (r: Canvas)
        ensures
            r.width == 200,
            r.height == 100,
            r.buf@.len() == 80000,
            forall|j: int| 0 <= j < r.buf@.len() ==> r.buf@[j] == 0u8,
    {
        Canvas::with_size(200, 100, 0)
    }

    /// A canvas of the given size, with the random stream seeded so that
    /// repeated renders of one scene are reproducible.
    pub fn with_size(width: u32, height: u32, seed: u64) -> (r: Canvas)
        requires
            width as int * height as int * 4 <= usize::MAX as int,
        ensures
            r.width == width,
            r.height == height,
            r.buf@.len() == width as int * height as int * 4,
            forall|j: int| 0 <= j < r.buf@.len() ==> r.buf@[j] == 0u8,
    {
        let n: usize = (width as usize) * (height as usize) * 4;
        let mut buf: Vec<u8> = Vec::new();
        let mut i: usize = 0;
        while i < n
            invariant
                buf@.len() == i as int,
                i <= n,
                forall|j: int| 0 <= j < buf@.len() ==> buf@[j] == 0u8,
            decreases n - i,
        {
            buf.push(0);
            i = i + 1;
        }
        Canvas { width, height, buf, rng: rng_from_seed(seed) }
    }

    /// Renders the standard scene at 100 samples per pixel into this
    /// canvas's buffer: every pixel of the result is an admissible render
    /// outcome for [`s_standard_scene`] seen by the standard camera.
    pub fn draw(&mut self)
        requires
            old(self).width as int * old(self).height as int * 4 <= usize::MAX as int,
        ensures
            final(self).width == old(self).width,
            final(self).height == old(self).height,
            final(self).buf@.len() == old(self).width as int * old(self).height as int * 4,
            forall|j: int|
                0 <= j < final(self).buf@.len() && j % 4 == 3 ==> final(self).buf@[j] == 255u8,
            forall|rr: int, cc: int|
                0 <= rr < old(self).height as int && 0 <= cc < old(self).width as int
                    ==> s_pixel_at(
                    s_standard_scene(),
                    s_default_camera(),
                    old(self).width as int,
                    old(self).height as int,
                    100,
                    final(self).buf@,
                    rr,
                    cc,
                ),
    {
        let mut world = HitableList::new();
        world.push(
            Sphere::new(
                Vec3::new(Fx::from_raw(0), Fx::from_raw(0), Fx::from_raw(-65536)),
                Fx::from_raw(32768),
                Material::Lambertian(
                    Lambertian {
                        albedo: Color {
                            r: Fx::from_raw(52429),
                            g: Fx::from_raw(19661),
                            b: Fx::from_raw(19661),
                            a: Fx::from_raw(65536),
                        },
                    },
                ),
            ),
        );
        world.push(
            Sphere::new(
                Vec3::new(Fx::from_raw(0), Fx::from_raw(-6586368), Fx::from_raw(-65536)),
                Fx::from_raw(6553600),
                Material::Lambertian(
                    Lambertian {
                        albedo: Color {
                            r: Fx::from_raw(52429),
                            g: Fx::from_raw(52429),
                            b: Fx::from_raw(0),
                            a: Fx::from_raw(65536),
                        },
                    },
                ),
            ),
        );
        world.push(
            Sphere::new(
                Vec3::new(Fx::from_raw(65536), Fx::from_raw(0), Fx::from_raw(-65536)),
                Fx::from_raw(32768),
                Material::Metal(
                    Metal {
                        albedo: Color {
                            r: Fx::from_raw(52429),
                            g: Fx::from_raw(39322),
                            b: Fx::from_raw(13107),
                            a: Fx::from_raw(65536),
                        },
                        fuzz: Fx::from_raw(65536),
                    },
                ),
            ),
        );
        world.push(
            Sphere::new(
                Vec3::new(Fx::from_raw(-65536), Fx::from_raw(0), Fx::from_raw(-65536)),
                Fx::from_raw(32768),
                Material::Metal(
                    Metal {
                        albedo: Color {
                            r: Fx::from_raw(52429),
                            g: Fx::from_raw(52429),
                            b: Fx::from_raw(52429),
                            a: Fx::from_raw(65536),
                        },
                        fuzz: Fx::from_raw(19661),
                    },
                ),
            ),
        );
        proof {
            assert(world.hitables@ =~= s_standard_scene());
        }
        let camera = Camera::default();
        let width: u32 = self.width;
        let height: u32 = self.height;
        self.buf = render(&world, &camera, width, height, 100, &mut self.rng);
    }
}

} // verus!
