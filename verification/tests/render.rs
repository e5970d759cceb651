use raytrace::materials::Lambertian;
use raytrace::materials::Material;
use raytrace::objects::Crossing;
use raytrace::objects::HitRecord;
use raytrace::objects::Hittable;
use raytrace::objects::Hittables;
use raytrace::objects::Intersection;
use raytrace::objects::Shared;
use raytrace::objects::Sphere;
use raytrace::render::bounce;
use raytrace::render::quantize;
use raytrace::render::to_color;
use raytrace::render::trace;
use raytrace::render::Path;
use raytrace::render::PathEnd;
use raytrace::render::Step;
use raytrace::render::BRIGHTEST_BITS;
use raytrace::render::SELF_HIT_GUARD_BITS;
use raytrace::scalar::Scalar;
use raytrace::scene::choose_finish;
use raytrace::scene::keeps_clear;
use raytrace::scene::Finish;
use raytrace::util::is_point;
use raytrace::vec::Color;
use raytrace::vec::Ray;
use raytrace::vec::Vec3;
use std::sync::Arc;

type V = [f64; 3];

fn s(x: f64) -> Scalar {
    Scalar::from_bits(x.to_bits())
}

fn f(x: Scalar) -> f64 {
    f64::from_bits(x.to_bits())
}

fn pack(a: V) -> Vec3 {
    Vec3(s(a[0]), s(a[1]), s(a[2]))
}

fn unpack(a: &Vec3) -> V {
    [f(a.0), f(a.1), f(a.2)]
}

fn sub(a: V, b: V) -> V {
    [a[0] - b[0], a[1] - b[1], a[2] - b[2]]
}

fn dot(a: V, b: V) -> f64 {
    a[0] * b[0] + a[1] * b[1] + a[2] * b[2]
}

fn ray(origin: V, direction: V) -> Ray {
    Ray::new(&pack(origin), &pack(direction))
}

/// A sphere that works out its crossings in floating point.
struct Ball(Sphere);

fn crossing(ball: &Sphere, ray: &Ray, t: f64) -> Crossing {
    let o = unpack(ray.origin());
    let d = unpack(ray.direction());
    let point = [o[0] + t * d[0], o[1] + t * d[1], o[2] + t * d[2]];
    let r = f(ball.radius);
    let away = sub(point, unpack(&ball.center));
    let outward = [away[0] / r, away[1] / r, away[2] / r];
    Crossing { t: s(t), point: pack(point), outward_normal: pack(outward), cosine: s(dot(d, outward)) }
}

impl Hittable for Ball {
    fn hit_spec(&self, ray: Ray, tmin: Scalar, tmax: Scalar) -> Option<HitRecord> {
        self.hit(&ray, tmin, tmax)
    }

    fn hit(&self, ray: &Ray, tmin: Scalar, tmax: Scalar) -> Option<HitRecord> {
        let direction = unpack(ray.direction());
        let oc = sub(unpack(ray.origin()), unpack(&self.0.center));
        let a = dot(direction, direction);
        let half_b = dot(oc, direction);
        let c = dot(oc, oc) - f(self.0.radius) * f(self.0.radius);
        let disc = half_b * half_b - a * c;
        let root = disc.sqrt();
        let near = crossing(&self.0, ray, (-half_b - root) / a);
        let far = crossing(&self.0, ray, (-half_b + root) / a);
        self.0.hit_from(tmin, tmax, s(disc), &near, &far)
    }
}

/// A diffuse material whose sampler always draws the unit vector that points
/// up.
struct Matte(Lambertian);

impl Material for Matte {
    fn scatter(&self, _ray: &Ray, hit: &Intersection) -> Option<(Color, Ray)> {
        let n = unpack(&hit.normal);
        self.0.scatter_along(hit, pack([n[0] + 0.0, n[1] + 1.0, n[2] + 0.0]))
    }
}

/// A material that absorbs every ray.
struct Soot;

impl Material for Soot {
    fn scatter(&self, _ray: &Ray, _hit: &Intersection) -> Option<(Color, Ray)> {
        None
    }
}

/// A material that sends every ray straight back to where it came from.
struct Echo;

impl Material for Echo {
    fn scatter(&self, ray: &Ray, hit: &Intersection) -> Option<(Color, Ray)> {
        Some((pack([0.5, 0.25, 1.0]), Ray::new(&hit.point, &-*ray.direction())))
    }
}

fn shared(material: Arc<dyn Material>) -> Shared<dyn Material> {
    Shared::new(material)
}

fn scene_of(balls: Vec<(V, f64, Shared<dyn Material>)>) -> Hittables {
    let mut scene = Hittables::new();
    for (center, radius, material) in balls {
        scene.push(Box::new(Ball(Sphere::new(pack(center), s(radius), material))));
    }
    scene
}

fn matte_ball() -> Hittables {
    scene_of(vec![([0.0, 0.0, -1.0], 0.5, shared(Arc::new(Matte(Lambertian::new(pack([0.5, 0.5, 0.5]))))))])
}

const ORIGIN: V = [0.0, 0.0, 0.0];
const FORWARD: V = [0.0, 0.0, -1.0];

#[test]
fn nothing_is_traced_without_depth() {
    for depth in [0, -1, -10, i32::MIN] {
        let path = trace(&ray(ORIGIN, FORWARD), &matte_ball(), depth);
        assert!(path.bounces.is_empty());
        assert!(matches!(path.end, PathEnd::Exhausted));
        let empty = trace(&ray(ORIGIN, FORWARD), &Hittables::new(), depth);
        assert!(empty.bounces.is_empty());
        assert!(matches!(empty.end, PathEnd::Exhausted));
    }
}

#[test]
fn a_path_without_depth_is_black() {
    let path = trace(&ray(ORIGIN, FORWARD), &matte_ball(), 0);
    let light = path.end.light().unwrap();
    assert_eq!([light.0.to_bits(), light.1.to_bits(), light.2.to_bits()], [0, 0, 0]);
}

#[test]
fn a_ray_escapes_an_empty_scene_at_once() {
    let scene = Hittables::new();
    for direction in [FORWARD, [0.0, 1.0, 0.0], [3.0, -2.0, 0.5], [0.0, 0.0, 0.0]] {
        for depth in [1, 2, 10, i32::MAX] {
            let path = trace(&ray([1.0, 2.0, 3.0], direction), &scene, depth);
            assert!(path.bounces.is_empty());
            match path.end {
                PathEnd::Escaped(last) => {
                    assert_eq!(unpack(last.origin()), [1.0, 2.0, 3.0]);
                    assert_eq!(unpack(last.direction()), direction);
                },
                _ => panic!("the ray did not escape"),
            }
            assert!(path.end.light().is_none());
        }
        assert!(matches!(bounce(&ray([1.0, 2.0, 3.0], direction), &scene), Step::Escaped));
    }
}

#[test]
fn a_ray_that_misses_escapes_at_once() {
    let path = trace(&ray(ORIGIN, [0.0, 1.0, 0.0]), &matte_ball(), 10);
    assert!(path.bounces.is_empty());
    assert!(matches!(path.end, PathEnd::Escaped(_)));
}

#[test]
fn a_scattered_ray_goes_on_from_the_hit() {
    let path = trace(&ray(ORIGIN, FORWARD), &matte_ball(), 10);
    assert_eq!(path.bounces.len(), 1);
    assert_eq!(unpack(&path.bounces[0].hit.point), [0.0, 0.0, -0.5]);
    assert_eq!(f(path.bounces[0].hit.t), 0.5);
    assert_eq!(unpack(&path.bounces[0].hit.normal), [0.0, 0.0, 1.0]);
    assert!(path.bounces[0].hit.is_outside);
    assert_eq!(unpack(&path.bounces[0].attenuation), [0.5, 0.5, 0.5]);
    assert_eq!(unpack(path.bounces[0].ray.origin()), [0.0, 0.0, -0.5]);
    assert_eq!(unpack(path.bounces[0].ray.direction()), [0.0, 1.0, 1.0]);
    match path.end {
        PathEnd::Escaped(last) => assert_eq!(unpack(last.direction()), [0.0, 1.0, 1.0]),
        _ => panic!("the ray did not escape"),
    }
}

#[test]
fn an_absorbed_ray_ends_the_path() {
    let scene = scene_of(vec![([0.0, 0.0, -1.0], 0.5, shared(Arc::new(Soot)))]);
    let path = trace(&ray(ORIGIN, FORWARD), &scene, 10);
    assert!(path.bounces.is_empty());
    assert!(matches!(path.end, PathEnd::Absorbed(_)));
    let light = path.end.light().unwrap();
    assert_eq!(unpack(&light), [0.0, 0.0, 0.0]);
    match bounce(&ray(ORIGIN, FORWARD), &scene) {
        Step::Absorbed(hit) => {
            assert_eq!(unpack(&hit.point), [0.0, 0.0, -0.5]);
            assert_eq!(f(hit.t), 0.5);
            assert_eq!(unpack(&hit.normal), [0.0, 0.0, 1.0]);
            assert!(hit.is_outside);
        },
        _ => panic!("the ray was not absorbed"),
    }
    match path.end {
        PathEnd::Absorbed(hit) => assert_eq!(unpack(&hit.point), [0.0, 0.0, -0.5]),
        _ => panic!("the ray was not absorbed"),
    }
}

#[test]
fn a_path_is_cut_off_at_its_depth() {
    let echo = shared(Arc::new(Echo));
    let scene = scene_of(vec![([0.0, 0.0, -2.0], 0.5, echo.share()), ([0.0, 0.0, 2.0], 0.5, echo)]);
    for depth in [1, 2, 3, 10, 57] {
        let path = trace(&ray(ORIGIN, FORWARD), &scene, depth);
        assert_eq!(path.bounces.len(), depth as usize);
        assert!(matches!(path.end, PathEnd::Exhausted));
        assert_eq!(unpack(&path.end.light().unwrap()), [0.0, 0.0, 0.0]);
        for (i, b) in path.bounces.iter().enumerate() {
            let z = if i % 2 == 0 { -1.5 } else { 1.5 };
            assert_eq!(unpack(b.ray.origin()), [0.0, 0.0, z]);
            assert_eq!(unpack(&b.hit.point), [0.0, 0.0, z]);
            assert!(b.hit.is_outside);
            assert_eq!(unpack(&b.attenuation), [0.5, 0.25, 1.0]);
        }
    }
}

#[test]
fn a_path_may_end_after_some_scatterings() {
    let scene = scene_of(vec![
        ([0.0, 0.0, -2.0], 0.5, shared(Arc::new(Echo))),
        ([0.0, 0.0, 2.0], 0.5, shared(Arc::new(Soot))),
    ]);
    let path = trace(&ray(ORIGIN, FORWARD), &scene, 10);
    assert_eq!(path.bounces.len(), 1);
    assert!(matches!(path.end, PathEnd::Absorbed(_)));
}

#[test]
fn a_surface_is_not_hit_where_the_ray_leaves_it() {
    assert_eq!(f64::from_bits(SELF_HIT_GUARD_BITS), 0.0001);
    let scene = matte_ball();
    let leaving = ray([0.0, 0.0, -0.5], [0.0, 0.0, 1.0]);
    assert!(matches!(bounce(&leaving, &scene), Step::Escaped));
    let entering = ray([0.0, 0.0, -0.5], FORWARD);
    match bounce(&entering, &scene) {
        Step::Scattered(b) => assert_eq!(unpack(b.ray.origin()), [0.0, 0.0, -1.5]),
        _ => panic!("the ray was not scattered"),
    }
}

#[test]
fn a_step_follows_from_what_the_material_did() {
    let hit = Intersection { point: pack([7.0, 8.0, 9.0]), t: s(2.0), normal: pack([0.0, 1.0, 0.0]), is_outside: false };
    match Step::after_hit(hit, None) {
        Step::Absorbed(at) => {
            assert_eq!(unpack(&at.point), [7.0, 8.0, 9.0]);
            assert_eq!(f(at.t), 2.0);
            assert!(!at.is_outside);
        },
        _ => panic!("the ray was not absorbed"),
    }
    let scattered = Some((pack([0.1, 0.2, 0.3]), ray([1.0, 2.0, 3.0], [4.0, 5.0, 6.0])));
    match Step::after_hit(hit, scattered) {
        Step::Scattered(b) => {
            assert_eq!(unpack(&b.hit.point), [7.0, 8.0, 9.0]);
            assert_eq!(unpack(&b.hit.normal), [0.0, 1.0, 0.0]);
            assert_eq!(unpack(&b.attenuation), [0.1, 0.2, 0.3]);
            assert_eq!(unpack(b.ray.origin()), [1.0, 2.0, 3.0]);
            assert_eq!(unpack(b.ray.direction()), [4.0, 5.0, 6.0]);
        },
        _ => panic!("the ray was not scattered"),
    }
}

#[test]
fn light_enters_only_where_a_ray_escaped() {
    assert!(PathEnd::Escaped(ray(ORIGIN, FORWARD)).light().is_none());
    let hit = Intersection { point: pack([7.0, 8.0, 9.0]), t: s(2.0), normal: pack([0.0, 1.0, 0.0]), is_outside: true };
    assert_eq!(unpack(&PathEnd::Absorbed(hit).light().unwrap()), [0.0, 0.0, 0.0]);
    assert_eq!(unpack(&PathEnd::Exhausted.light().unwrap()), [0.0, 0.0, 0.0]);
}

#[allow(deprecated)]
fn byte_of(level: f64) -> u8 {
    (256.0 * image::math::utils::clamp(level, 0.0, 0.999)).floor() as u8
}

#[test]
fn quantize_gives_known_bytes() {
    assert_eq!(f64::from_bits(BRIGHTEST_BITS), 0.999);
    assert_eq!(quantize(s(0.0)), 0);
    assert_eq!(quantize(s(-0.0)), 0);
    assert_eq!(quantize(s(0.00390624)), 0);
    assert_eq!(quantize(s(0.00390625)), 1);
    assert_eq!(quantize(s(0.25)), 64);
    assert_eq!(quantize(s(0.5)), 128);
    assert_eq!(quantize(s(0.7071067811865476)), 181);
    assert_eq!(quantize(s(0.998)), 255);
    assert_eq!(quantize(s(0.999)), 255);
    assert_eq!(quantize(s(0.99609374)), 254);
    assert_eq!(quantize(s(0.99609375)), 255);
}

#[test]
fn quantize_brings_the_level_into_range_first() {
    assert_eq!(quantize(s(1.0)), 255);
    assert_eq!(quantize(s(2.0)), 255);
    assert_eq!(quantize(s(1e300)), 255);
    assert_eq!(quantize(s(f64::INFINITY)), 255);
    assert_eq!(quantize(s(-0.000001)), 0);
    assert_eq!(quantize(s(-3.0)), 0);
    assert_eq!(quantize(s(f64::NEG_INFINITY)), 0);
    assert_eq!(quantize(s(f64::NAN)), 0);
    assert_eq!(quantize(s(-f64::NAN)), 0);
}

#[test]
fn quantize_is_the_floor_of_256_times_the_clamped_level() {
    let mut levels = vec![
        f64::from_bits(1),
        f64::from_bits(0x000f_ffff_ffff_ffff),
        f64::MIN_POSITIVE,
        1e-300,
        1e-20,
        f64::EPSILON,
        0.999,
        f64::from_bits(BRIGHTEST_BITS - 1),
        f64::from_bits(BRIGHTEST_BITS + 1),
        1.0,
        f64::MAX,
        f64::INFINITY,
        f64::NAN,
    ];
    for k in 0..=256 {
        let edge = k as f64 / 256.0;
        levels.push(edge);
        levels.push(f64::from_bits(edge.to_bits() + 1));
        if k > 0 {
            levels.push(f64::from_bits(edge.to_bits() - 1));
        }
    }
    for i in 0..=6000 {
        levels.push(i as f64 / 4000.0);
        levels.push((i as f64 / 6000.0).sqrt());
    }
    for level in levels {
        assert_eq!(quantize(s(level)), byte_of(level), "{:?}", level);
        assert_eq!(quantize(s(-level)), byte_of(-level), "{:?}", -level);
    }
}

#[test]
fn to_color_quantizes_each_channel() {
    assert_eq!(to_color(&pack([0.0, 0.5, 1.0])), [0, 128, 255]);
    assert_eq!(to_color(&pack([0.25, -1.0, f64::NAN])), [64, 0, 0]);
    assert_eq!(to_color(&pack([0.9, 0.1, 0.7])), [byte_of(0.9), byte_of(0.1), byte_of(0.7)]);
}

fn sky(direction: V) -> V {
    let y = direction[1] / dot(direction, direction).sqrt();
    let t = 0.5 * (y + 1.0);
    [(1.0 - t) * 1.0 + t * 0.3, (1.0 - t) * 1.0 + t * 0.5, (1.0 - t) * 1.0 + t * 1.0]
}

fn colour(path: &Path) -> V {
    let mut c = match path.end.light() {
        Some(light) => unpack(&light),
        None => match path.end {
            PathEnd::Escaped(last) => sky(unpack(last.direction())),
            _ => unreachable!(),
        },
    };
    for b in path.bounces.iter().rev() {
        let a = unpack(&b.attenuation);
        c = [a[0] * c[0], a[1] * c[1], a[2] * c[2]];
    }
    c
}

#[test]
fn one_matte_sphere_under_the_sky() {
    let expected: [[[u8; 3]; 5]; 3] = [
        [[191, 212, 255], [107, 132, 181], [108, 133, 181], [152, 175, 221], [192, 212, 255]],
        [[206, 221, 255], [114, 137, 181], [114, 137, 181], [114, 137, 181], [206, 221, 255]],
        [[219, 230, 255], [180, 193, 221], [121, 141, 181], [123, 142, 181], [219, 230, 255]],
    ];
    let expected_levels: [[f64; 3]; 3] = [
        [0.7493299294342242, 0.8287233482660886, 1.0],
        [0.4487380524688681, 0.5354342961783137, 0.7071067811865476],
        [0.8593629366304439, 0.9017857905504184, 1.0],
    ];
    let scene = matte_ball();
    let (width, height) = (5usize, 3usize);
    let lower_left = [-1.0, -0.5, -1.0];
    let horizontal = [2.0, 0.0, 0.0];
    let vertical = [0.0, 1.0, 0.0];
    let jitter = [(0.25, 0.25), (0.75, 0.75)];
    let mut image = [[[0u8; 3]; 5]; 3];
    let mut levels = [[[0.0f64; 3]; 5]; 3];
    for y in 0..height {
        let row = height - 1 - y;
        for col in 0..width {
            let mut sum = [0.0, 0.0, 0.0];
            for (du, dv) in jitter {
                let u = (col as f64 + du) / width as f64;
                let v = (row as f64 + dv) / height as f64;
                let mut direction = [0.0; 3];
                for i in 0..3 {
                    direction[i] = lower_left[i] + u * horizontal[i] + v * vertical[i] - ORIGIN[i];
                }
                let c = colour(&trace(&ray(ORIGIN, direction), &scene, 10));
                sum = [sum[0] + c[0], sum[1] + c[1], sum[2] + c[2]];
            }
            let n = jitter.len() as f64;
            let level = [(sum[0] / n).sqrt(), (sum[1] / n).sqrt(), (sum[2] / n).sqrt()];
            levels[y][col] = level;
            image[y][col] = to_color(&pack(level));
        }
    }
    assert_eq!(image, expected);
    let probes = [levels[0][0], levels[1][2], levels[2][4]];
    for (probe, want) in probes.iter().zip(expected_levels.iter()) {
        for i in 0..3 {
            assert!((probe[i] - want[i]).abs() < 1e-12, "{} is not {}", probe[i], want[i]);
        }
    }
}

#[test]
fn a_radius_next_to_nothing_is_a_point() {
    for radius in [0.0, -0.0, 1e-300, 0.0000001, -0.0000001, 0.00000009] {
        assert!(is_point(s(radius)), "{}", radius);
    }
    for radius in [0.00000011, -0.00000011, 0.5, 1.0, -1.0, f64::INFINITY, f64::NAN] {
        assert!(!is_point(s(radius)), "{}", radius);
    }
}

#[test]
fn a_draw_selects_the_finish() {
    assert_eq!(choose_finish(s(0.0)), Finish::Diffuse);
    assert_eq!(choose_finish(s(0.5)), Finish::Diffuse);
    assert_eq!(choose_finish(s(0.7999999)), Finish::Diffuse);
    assert_eq!(choose_finish(s(0.8)), Finish::Metal);
    assert_eq!(choose_finish(s(0.9)), Finish::Metal);
    assert_eq!(choose_finish(s(0.9499999)), Finish::Metal);
    assert_eq!(choose_finish(s(0.95)), Finish::Glass);
    assert_eq!(choose_finish(s(0.9999999)), Finish::Glass);
    assert_eq!(choose_finish(s(f64::NAN)), Finish::Glass);
}

#[test]
fn a_small_sphere_keeps_clear_of_the_reserved_place() {
    assert!(keeps_clear(s(0.9000001)));
    assert!(keeps_clear(s(5.0)));
    assert!(!keeps_clear(s(0.9)));
    assert!(!keeps_clear(s(0.5)));
    assert!(!keeps_clear(s(0.0)));
    assert!(!keeps_clear(s(f64::NAN)));
}
