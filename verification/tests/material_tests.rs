use raytracer::hittable::HitRecord;
use raytracer::material::{Dielectric, Lambertian, Material, Materials, Metal};
use raytracer::scalar::Scalar;
use raytracer::vec3::Vec3;

fn s(x: f64) -> Scalar {
    Scalar::from_bits(x.to_bits())
}

fn f(x: Scalar) -> f64 {
    f64::from_bits(x.to_bits())
}

fn v(x: f64, y: f64, z: f64) -> Vec3 {
    Vec3::vec3(s(x), s(y), s(z))
}

fn a(x: Vec3) -> [f64; 3] {
    [f(x.x()), f(x.y()), f(x.z())]
}

fn hit_at(p: Vec3, normal: Vec3) -> HitRecord {
    let mut rec = HitRecord::default();
    rec.set_p(&p);
    rec.set_normal(&normal);
    rec.set_t(&s(2.0));
    rec.set_front_face(&true);
    rec
}

#[test]
fn constructors_and_getters() {
    let l = Lambertian::new(v(0.1, 0.2, 0.3));
    assert_eq!(a(l.get_albedo()), [0.1, 0.2, 0.3]);
    let m = Metal::new(v(0.4, 0.5, 0.6), s(0.25));
    assert_eq!(a(m.get_albedo()), [0.4, 0.5, 0.6]);
    assert_eq!(f(m.get_fuzz()), 0.25);
    let d = Dielectric::new(s(1.5));
    assert_eq!(f(d.get_ir()), 1.5);
}

#[test]
fn default_material_is_black_and_diffuse() {
    match Materials::default() {
        Materials::LAMBERTIAN(l) => assert_eq!(a(l.get_albedo()), [0.0, 0.0, 0.0]),
        _ => panic!("the default material is diffuse"),
    }
}

#[test]
fn lambertian_scatters_along_the_candidate() {
    let l = Lambertian::new(v(0.1, 0.2, 0.3));
    let rec = hit_at(v(1.0, 2.0, 3.0), v(0.0, 1.0, 0.0));
    let (attenuation, scattered) = l.scatter(&rec, v(0.5, 1.5, -0.5)).unwrap();
    assert_eq!(a(attenuation), [0.1, 0.2, 0.3]);
    assert_eq!(a(scattered.origin()), [1.0, 2.0, 3.0]);
    assert_eq!(a(scattered.direction()), [0.5, 1.5, -0.5]);
    assert_eq!(f(scattered.time()), 0.0);
}

#[test]
fn lambertian_falls_back_to_the_normal() {
    let l = Lambertian::new(v(0.1, 0.2, 0.3));
    let rec = hit_at(v(1.0, 2.0, 3.0), v(0.0, 1.0, 0.0));
    let (attenuation, scattered) = l.scatter(&rec, v(1e-9, -1e-9, 0.0)).unwrap();
    assert_eq!(a(attenuation), [0.1, 0.2, 0.3]);
    assert_eq!(a(scattered.origin()), [1.0, 2.0, 3.0]);
    assert_eq!(a(scattered.direction()), [0.0, 1.0, 0.0]);
    let (_, kept) = l.scatter(&rec, v(1e-9, 1e-8, 0.0)).unwrap();
    assert_eq!(a(kept.direction()), [1e-9, 1e-8, 0.0]);
}

#[test]
fn metal_scatters_even_into_the_surface() {
    let m = Metal::new(v(0.4, 0.5, 0.6), s(1.0));
    let rec = hit_at(v(1.0, 2.0, 3.0), v(0.0, 1.0, 0.0));
    let (attenuation, scattered) = m.scatter(&rec, v(0.5, -0.5, 0.0)).unwrap();
    assert_eq!(a(attenuation), [0.4, 0.5, 0.6]);
    assert_eq!(a(scattered.origin()), [1.0, 2.0, 3.0]);
    assert_eq!(a(scattered.direction()), [0.5, -0.5, 0.0]);
    assert_eq!(f(scattered.time()), 0.0);
}

#[test]
fn dielectric_absorbs_nothing() {
    let d = Dielectric::new(s(1.5));
    let rec = hit_at(v(1.0, 2.0, 3.0), v(0.0, 1.0, 0.0));
    let (attenuation, scattered) = d.scatter(&rec, v(0.0, -1.0, 0.0)).unwrap();
    assert_eq!(a(attenuation), [1.0, 1.0, 1.0]);
    assert_eq!(a(scattered.origin()), [1.0, 2.0, 3.0]);
    assert_eq!(a(scattered.direction()), [0.0, -1.0, 0.0]);
    assert_eq!(f(scattered.time()), 0.0);
}

#[test]
fn dielectric_cannot_refract_beyond_the_critical_angle() {
    assert!(Dielectric::cannot_refract(s(1.0000001)));
    assert!(Dielectric::cannot_refract(s(1.5)));
    assert!(!Dielectric::cannot_refract(s(1.0)));
    assert!(!Dielectric::cannot_refract(s(0.3)));
    assert!(!Dielectric::cannot_refract(s(f64::NAN)));
}

#[test]
fn dielectric_reflects_when_the_reflectance_beats_the_draw() {
    assert!(Dielectric::reflects(s(0.5), s(0.25)));
    assert!(!Dielectric::reflects(s(0.5), s(0.5)));
    assert!(!Dielectric::reflects(s(0.04), s(0.5)));
    assert!(Dielectric::reflects(s(1.0), s(0.999999)));
    assert!(!Dielectric::reflects(s(0.0), s(0.0)));
}

struct Soot;

impl Material for Soot {}

#[test]
fn material_that_says_nothing_absorbs() {
    let rec = hit_at(v(1.0, 2.0, 3.0), v(0.0, 1.0, 0.0));
    assert!(Soot.scatter(&rec, v(0.0, 1.0, 0.0)).is_none());
}

#[test]
fn materials_hand_the_hit_to_the_material_they_name() {
    let rec = hit_at(v(1.0, 2.0, 3.0), v(0.0, 1.0, 0.0));
    let tiny = v(1e-9, 0.0, 0.0);
    let diffuse = Materials::LAMBERTIAN(Lambertian::new(v(0.1, 0.2, 0.3)));
    let (attenuation, scattered) = diffuse.scatter(&rec, tiny).unwrap();
    assert_eq!(a(attenuation), [0.1, 0.2, 0.3]);
    assert_eq!(a(scattered.direction()), [0.0, 1.0, 0.0]);
    let metal = Materials::METAL(Metal::new(v(0.4, 0.5, 0.6), s(0.0)));
    let (attenuation, scattered) = metal.scatter(&rec, tiny).unwrap();
    assert_eq!(a(attenuation), [0.4, 0.5, 0.6]);
    assert_eq!(a(scattered.direction()), [1e-9, 0.0, 0.0]);
    let glass = Materials::DIELECTRIC(Dielectric::new(s(1.5)));
    let (attenuation, scattered) = glass.scatter(&rec, tiny).unwrap();
    assert_eq!(a(attenuation), [1.0, 1.0, 1.0]);
    assert_eq!(a(scattered.direction()), [1e-9, 0.0, 0.0]);
    assert_eq!(a(scattered.origin()), [1.0, 2.0, 3.0]);
}

fn dot(u: [f64; 3], w: [f64; 3]) -> f64 {
    u[0] * w[0] + u[1] * w[1] + u[2] * w[2]
}

fn unit(u: [f64; 3]) -> [f64; 3] {
    let k = 1.0 / dot(u, u).sqrt();
    [k * u[0], k * u[1], k * u[2]]
}

fn reflect(u: [f64; 3], n: [f64; 3]) -> [f64; 3] {
    let k = 2.0 * dot(u, n);
    [u[0] - k * n[0], u[1] - k * n[1], u[2] - k * n[2]]
}

fn refract(u: [f64; 3], n: [f64; 3], ratio: f64) -> [f64; 3] {
    let cos_theta = f64::min(dot([-u[0], -u[1], -u[2]], n), 1.0);
    let perp = [
        ratio * (u[0] + cos_theta * n[0]),
        ratio * (u[1] + cos_theta * n[1]),
        ratio * (u[2] + cos_theta * n[2]),
    ];
    let k = -f64::sqrt(f64::abs(1.0 - dot(perp, perp)));
    [perp[0] + k * n[0], perp[1] + k * n[1], perp[2] + k * n[2]]
}

fn reflectance(cosine: f64, ratio: f64) -> f64 {
    let r0 = (1.0 - ratio) / (1.0 + ratio);
    let r0 = r0 * r0;
    r0 + (1.0 - r0) * (1.0 - cosine).powf(5.0)
}

fn through_glass(
    ir: f64,
    direction: [f64; 3],
    normal: [f64; 3],
    front_face: bool,
    draw: f64,
) -> ([f64; 3], [f64; 3], [f64; 3]) {
    let d = Dielectric::new(s(ir));
    let mut rec = hit_at(v(0.0, 0.0, 1.0), v(normal[0], normal[1], normal[2]));
    rec.set_front_face(&front_face);
    let ratio = f(d.refraction_ratio(front_face, s(1.0 / ir)));
    let u = unit(direction);
    let cos_theta = f64::min(dot([-u[0], -u[1], -u[2]], normal), 1.0);
    let sin_theta = f64::sqrt(1.0 - cos_theta * cos_theta);
    let mirrored = reflect(u, normal);
    let bent = refract(u, normal, ratio);
    let (attenuation, scattered) = d
        .refract_or_reflect(
            &rec,
            s(ratio * sin_theta),
            s(reflectance(cos_theta, ratio)),
            s(draw),
            v(mirrored[0], mirrored[1], mirrored[2]),
            v(bent[0], bent[1], bent[2]),
        )
        .unwrap();
    (a(attenuation), a(scattered.origin()), a(scattered.direction()))
}

#[test]
fn refraction_ratio_goes_by_the_side_of_the_hit() {
    let d = Dielectric::new(s(1.5));
    assert_eq!(f(d.refraction_ratio(true, s(1.0 / 1.5))), 1.0 / 1.5);
    assert_eq!(f(d.refraction_ratio(false, s(1.0 / 1.5))), 1.5);
    assert_eq!(f(d.refraction_ratio(true, s(0.25))), 0.25);
}

#[test]
fn dielectric_direction_is_reflected_or_refracted() {
    let mirrored = v(1.0, 2.0, 3.0);
    let bent = v(4.0, 5.0, 6.0);
    let pick = |rts: f64, reflectance: f64, draw: f64| {
        a(Dielectric::direction(s(rts), s(reflectance), s(draw), mirrored, bent))
    };
    assert_eq!(pick(1.2, 0.0, 0.999), [1.0, 2.0, 3.0]);
    assert_eq!(pick(1.2, 0.0, 0.0), [1.0, 2.0, 3.0]);
    assert_eq!(pick(1.0000001, 0.04, 0.5), [1.0, 2.0, 3.0]);
    assert_eq!(pick(1.0, 0.04, 0.5), [4.0, 5.0, 6.0]);
    assert_eq!(pick(0.5, 0.3, 0.2), [1.0, 2.0, 3.0]);
    assert_eq!(pick(0.5, 0.3, 0.3), [4.0, 5.0, 6.0]);
    assert_eq!(pick(0.5, 0.3, 0.9), [4.0, 5.0, 6.0]);
    assert_eq!(pick(0.0, 0.0, 0.0), [4.0, 5.0, 6.0]);
    assert_eq!(pick(f64::NAN, f64::NAN, 0.5), [4.0, 5.0, 6.0]);
    assert_eq!(pick(f64::NAN, 0.6, 0.5), [1.0, 2.0, 3.0]);
}

#[test]
fn glass_of_index_one_lets_a_head_on_ray_through_unbent() {
    for draw in [0.0, 1e-300, 0.25, 0.5, 0.999999999] {
        let (attenuation, origin, direction) =
            through_glass(1.0, [0.0, 0.0, -1.0], [0.0, 0.0, 1.0], true, draw);
        assert_eq!(attenuation, [1.0, 1.0, 1.0]);
        assert_eq!(origin, [0.0, 0.0, 1.0]);
        assert_eq!(direction, [0.0, 0.0, -1.0]);
    }
}

#[test]
fn ray_that_cannot_leave_the_glass_is_reflected() {
    for draw in [0.0, 0.25, 0.5, 0.999999999] {
        let (attenuation, _, direction) =
            through_glass(1.5, [4.0, -3.0, 0.0], [0.0, 1.0, 0.0], false, draw);
        assert_eq!(attenuation, [1.0, 1.0, 1.0]);
        assert!((direction[0] - 0.8).abs() < 1e-12);
        assert!((direction[1] - 0.6).abs() < 1e-12);
        assert_eq!(direction[2], 0.0);
    }
}

#[test]
fn ray_that_enters_the_glass_at_the_same_angle_may_refract() {
    let (_, _, direction) = through_glass(1.5, [4.0, -3.0, 0.0], [0.0, 1.0, 0.0], true, 0.999);
    assert!(direction[1] < 0.0);
    let (_, _, direction) = through_glass(1.5, [4.0, -3.0, 0.0], [0.0, 1.0, 0.0], true, 0.0);
    assert!(direction[1] > 0.0);
}
