use rand::rngs::StdRng;
use rand::SeedableRng;

use raytrace::camera::Camera;
use raytrace::canvas::{render, Canvas};
use raytrace::color::Color;
use raytrace::fixed::Fx;
use raytrace::geometry::{HitRecord, HitableList, Sphere};
use raytrace::material::{Lambertian, Material, Metal};
use raytrace::ray::{Ray, T_MAX, T_MIN};
use raytrace::sampling::random_in_unit_sphere;
use raytrace::vec3::{dot, reflect, Vec3};

const S: i64 = 65536;

fn fxr(raw: i64) -> Fx {
    Fx::from_raw(raw)
}

fn v3(x: i64, y: i64, z: i64) -> Vec3 {
    Vec3::new(fxr(x), fxr(y), fxr(z))
}

fn rgba(r: i64, g: i64, b: i64, a: i64) -> Color {
    Color { r: fxr(r), g: fxr(g), b: fxr(b), a: fxr(a) }
}

fn grey_lambertian() -> Material {
    Material::Lambertian(Lambertian { albedo: rgba(52429, 19661, 19661, S) })
}

fn unit_sphere_ahead() -> Sphere {
    Sphere::new(v3(0, 0, -S), fxr(S / 2), grey_lambertian())
}

#[test]
fn ray_eval_identity() {
    let ray = Ray { start: v3(S, 2 * S, 3 * S), direction: v3(S / 2, -S, 2 * S) };
    let p = ray.eval(fxr(2 * S));
    assert_eq!(p, v3(2 * S, 0, 7 * S));
}

#[test]
fn reflect_law_for_axis_normal() {
    let v = v3(12345, -678, 999);
    let n = v3(0, 0, S);
    let r = reflect(&v, &n);
    assert_eq!(r, v3(12345, -678, -999));
    assert_eq!(dot(&r, &n).raw, -dot(&v, &n).raw);
}

#[test]
fn sphere_hit_head_on() {
    let sphere = unit_sphere_ahead();
    let ray = Ray { start: v3(0, 0, 0), direction: v3(0, 0, -S) };
    let hit = sphere.hit(&ray, fxr(T_MIN), fxr(T_MAX)).expect("the ray points at the sphere");
    assert_eq!(hit.time.raw, S / 2);
    assert_eq!(hit.point, v3(0, 0, -S / 2));
    assert_eq!(hit.normal, v3(0, 0, S));
}

#[test]
fn sphere_missed_by_sideways_ray() {
    let sphere = unit_sphere_ahead();
    let ray = Ray { start: v3(0, 0, 0), direction: v3(0, S, 0) };
    assert!(sphere.hit(&ray, fxr(T_MIN), fxr(T_MAX)).is_none());
}

#[test]
fn nearest_sphere_wins() {
    let mut world = HitableList::new();
    world.push(Sphere::new(v3(0, 0, -2 * S), fxr(S / 2), grey_lambertian()));
    world.push(unit_sphere_ahead());
    let ray = Ray { start: v3(0, 0, 0), direction: v3(0, 0, -S) };
    let hit = world.hit(&ray, fxr(T_MIN), fxr(T_MAX)).expect("both spheres are ahead");
    assert_eq!(hit.time.raw, S / 2);
}

#[test]
fn first_of_equal_spheres_wins() {
    let first = Material::Lambertian(Lambertian { albedo: rgba(S, 0, 0, S) });
    let second = Material::Lambertian(Lambertian { albedo: rgba(0, S, 0, S) });
    let mut world = HitableList::new();
    world.push(Sphere::new(v3(0, 0, -S), fxr(S / 2), first));
    world.push(Sphere::new(v3(0, 0, -S), fxr(S / 2), second));
    let ray = Ray { start: v3(0, 0, 0), direction: v3(0, 0, -S) };
    let hit = world.hit(&ray, fxr(T_MIN), fxr(T_MAX)).expect("the spheres are ahead");
    assert_eq!(hit.material, first);
}

#[test]
fn sky_gradient_for_forward_ray() {
    let world = HitableList::new();
    let mut rng = StdRng::seed_from_u64(0);
    let ray = Ray { start: v3(0, 0, 0), direction: v3(0, 0, -S) };
    let c = ray.get_color(&world, 0, &mut rng);
    assert_eq!(c, rgba(49152, 55705, S, S));
}

#[test]
fn sky_gradient_for_upward_ray() {
    let world = HitableList::new();
    let mut rng = StdRng::seed_from_u64(0);
    let ray = Ray { start: v3(0, 0, 0), direction: v3(0, S, 0) };
    let c = ray.get_color(&world, 0, &mut rng);
    assert_eq!(c, rgba(32768, 45875, S, S));
}

#[test]
fn shade_stops_at_depth_bound() {
    let mut world = HitableList::new();
    world.push(unit_sphere_ahead());
    let mut rng = StdRng::seed_from_u64(1);
    let ray = Ray { start: v3(0, 0, 0), direction: v3(0, 0, -S) };
    let c = ray.get_color(&world, 50, &mut rng);
    assert_eq!(c, rgba(0, 0, 0, 0));
}

#[test]
fn lambertian_always_scatters() {
    let albedo = rgba(52429, 19661, 19661, S);
    let material = Lambertian { albedo };
    let hit = HitRecord {
        time: fxr(S / 2),
        point: v3(0, 0, -S / 2),
        normal: v3(0, 0, S),
        material: Material::Lambertian(material),
    };
    let ray = Ray { start: v3(0, 0, 0), direction: v3(0, 0, -S) };
    let mut rng = StdRng::seed_from_u64(2);
    let (attenuation, scattered) =
        material.scatter(&ray, &hit, &mut rng).expect("diffuse surfaces always scatter");
    assert_eq!(attenuation, albedo);
    assert_eq!(scattered.start, hit.point);
}

#[test]
fn polished_metal_reflects_head_on() {
    let albedo = rgba(52429, 39322, 13107, S);
    let material = Metal { albedo, fuzz: fxr(0) };
    let hit = HitRecord {
        time: fxr(S / 2),
        point: v3(0, 0, -S / 2),
        normal: v3(0, 0, S),
        material: Material::Metal(material),
    };
    let ray = Ray { start: v3(0, 0, 0), direction: v3(0, 0, -S) };
    let mut rng = StdRng::seed_from_u64(3);
    let (attenuation, scattered) =
        material.scatter(&ray, &hit, &mut rng).expect("the reflection leaves the surface");
    assert_eq!(attenuation, albedo);
    assert_eq!(scattered.start, hit.point);
    assert_eq!(scattered.direction, v3(0, 0, S));
}

#[test]
fn metal_absorbs_ray_from_behind() {
    let material = Metal { albedo: rgba(52429, 52429, 52429, S), fuzz: fxr(0) };
    let hit = HitRecord {
        time: fxr(S / 2),
        point: v3(0, 0, -S / 2),
        normal: v3(0, 0, S),
        material: Material::Metal(material),
    };
    let ray = Ray { start: v3(0, 0, -2 * S), direction: v3(0, 0, S) };
    let mut rng = StdRng::seed_from_u64(4);
    assert!(material.scatter(&ray, &hit, &mut rng).is_none());
}

#[test]
fn quantization_of_pure_red() {
    let c = rgba(S, 0, 0, S);
    assert_eq!(c.bytes(), [255, 0, 0, 255]);
}

#[test]
fn quantization_saturates_out_of_range_channels() {
    let c = rgba(2 * S, -S / 2, S / 2, S);
    assert_eq!(c.ri(), 255);
    assert_eq!(c.gi(), 0);
    assert_eq!(c.bi(), 127);
    assert_eq!(c.ai(), 255);
}

#[test]
fn quantization_truncates_at_the_factor_boundary() {
    // 25601/65536 times 255.99 is 99.9999998...: the byte must stay 99.
    let c = rgba(25601, 0, 0, S);
    assert_eq!(c.ri(), 99);
}

#[test]
fn color_accumulation_and_averaging() {
    let mut sum = rgba(0, 0, 0, 0);
    sum.add_assign(rgba(S, S / 2, 0, S));
    sum.add_assign(rgba(0, S / 2, S, S));
    assert_eq!(sum, rgba(S, S, S, 2 * S));
    sum.div_assign(fxr(2 * S));
    assert_eq!(sum, rgba(S / 2, S / 2, S / 2, S));
}

#[test]
fn default_camera_corner_rays() {
    let camera = Camera::default();
    let bottom_left = camera.calculate_ray(fxr(0), fxr(0));
    assert_eq!(bottom_left.start, v3(0, 0, 0));
    assert_eq!(bottom_left.direction, v3(-2 * S, -S, -S));
    let top_right = camera.calculate_ray(fxr(S), fxr(S));
    assert_eq!(top_right.direction, v3(2 * S, S, -S));
}

#[test]
fn sampler_stays_inside_unit_sphere() {
    let mut rng = StdRng::seed_from_u64(5);
    for _ in 0..32 {
        let p = random_in_unit_sphere(&mut rng);
        assert!(p.length().raw < S);
    }
}

#[test]
fn sphere_construction_rejects_degenerate_radius() {
    assert!(Sphere::try_new(v3(0, 0, 0), fxr(0), grey_lambertian()).is_none());
    assert!(Sphere::try_new(v3(0, 0, 0), fxr(-S), grey_lambertian()).is_none());
    assert!(Sphere::try_new(v3(0, 0, 0), fxr(S), grey_lambertian()).is_some());
}

#[test]
fn rendering_is_reproducible_for_a_fixed_seed() {
    let mut world = HitableList::new();
    world.push(unit_sphere_ahead());
    let camera = Camera::default();
    let mut rng1 = StdRng::seed_from_u64(7);
    let mut rng2 = StdRng::seed_from_u64(7);
    let first = render(&world, &camera, 16, 8, 4, &mut rng1);
    let second = render(&world, &camera, 16, 8, 4, &mut rng2);
    assert_eq!(first, second);
}

#[test]
fn canvas_draws_reproducibly_for_a_fixed_seed() {
    let mut one = Canvas::with_size(8, 4, 11);
    let mut two = Canvas::with_size(8, 4, 11);
    one.draw();
    two.draw();
    assert_eq!(one.buf(), two.buf());
    assert_eq!(one.width(), 8);
    assert_eq!(one.height(), 4);
}

#[test]
fn ground_scene_renders_opaque_plausible_pixels() {
    let mut world = HitableList::new();
    world.push(Sphere::new(
        v3(0, -6586368, -S),
        fxr(6553600),
        Material::Lambertian(Lambertian { albedo: rgba(52429, 52429, 19661, S) }),
    ));
    let camera = Camera::default();
    let mut rng = StdRng::seed_from_u64(9);
    let buf = render(&world, &camera, 20, 10, 4, &mut rng);
    assert_eq!(buf.len(), 20 * 10 * 4);
    for px in buf.chunks(4) {
        assert_eq!(px[3], 255);
        assert!(px[0] > 0);
        assert!(px[1] > 0);
    }
}

#[test]
fn canvas_new_has_standard_dimensions() {
    let canvas = Canvas::new();
    assert_eq!(canvas.width(), 200);
    assert_eq!(canvas.height(), 100);
    assert_eq!(canvas.buf().len(), 80000);
    assert!(canvas.buf().iter().all(|&b| b == 0));
}
