//! The refractive material: Snell's law and the scatter decision.

use raytrace::fx::{fdiv, fsqrt, fx, Float};
use raytrace::hitable::HitRecord;
use raytrace::material::dielectric::refract;
use raytrace::material::{Dielectric, Material};
use raytrace::ray::Ray;
use raytrace::rng::SampleRng;
use raytrace::vec3::dir::dir;
use raytrace::vec3::pos::{pos, Pos};

/// The fixed-point representation quantizes each operation, so a computed
/// direction may drift a few units from the exact one.
const TOL: Float = 48;

fn assert_close(a: Float, b: Float) {
    assert!((a - b).abs() <= TOL, "{} differs from {} by more than {}", a, b, TOL);
}

/// A generator whose next uniform draw exceeds `floor`, so that a
/// dielectric scatter with a small Schlick reflectance chooses refraction.
fn rng_drawing_above(floor: Float) -> SampleRng {
    let mut seed: u64 = 0;
    loop {
        let mut probe = SampleRng::new(seed);
        if probe.next_unit() > floor {
            return SampleRng::new(seed);
        }
        seed += 1;
    }
}

#[test]
fn test_schlick_at_grazing() {
    // a grazing angle (cosine zero) reflects fully: r0 + (1 - r0) == 1
    let ri = fx(3) / 2;
    assert_eq!(raytrace::fx::SCALE, raytrace::material::dielectric::schlick(0, ri));
}

#[test]
fn test_refract_no_change() {
    let v1 = dir(fx(1), fx(1), fx(0));
    let n = dir(fx(0), fx(-1), fx(0));
    let v2 = v1.unit_vector();
    let refracted = refract(v1, n, fx(1));
    assert!(refracted.is_some());

    let r = refracted.unwrap();
    assert_close(v2.x(), r.x());
    assert_close(v2.y(), r.y());
    assert_close(v2.z(), r.z());
}

#[test]
fn test_refract() {
    let half = fx(1) / 2;
    let s3h = fdiv(fsqrt(fx(3)), fx(2));
    let v1 = dir(half, s3h, fx(0));
    let v2 = dir(fx(1), fx(1), fx(0)).unit_vector();
    let n = dir(fx(0), fx(-1), fx(0));

    let refracted = refract(v1, n, fsqrt(fx(2)));
    assert!(refracted.is_some());

    let r = refracted.unwrap();
    assert_close(v2.x(), r.x());
    assert_close(v2.y(), r.y());
    assert_close(v2.z(), r.z());
}

#[test]
fn test_dielectric_refract_entering() {
    let r_in = Ray::new(Pos::zero(), dir(fx(1), fx(1), fx(0)).unit_vector(), 0);
    let mat = Material::Dielectric(Dielectric::new(fsqrt(fx(2))));
    let rec = HitRecord {
        t: fx(1),
        p: pos(fx(1), fx(1), fx(0)),
        normal: dir(fx(0), fx(-1), fx(0)),
        mat: &mat,
    };

    let mut rng = rng_drawing_above(fx(1) / 4);
    let scatter = mat.scatter(&mut rng, &r_in, &rec);
    assert!(scatter.is_some());
    let scattered = scatter.unwrap().scattered.direction();

    let half = fx(1) / 2;
    let s3h = fdiv(fsqrt(fx(3)), fx(2));
    let v2 = dir(half, s3h, fx(0));
    assert_close(v2.x(), scattered.x());
    assert_close(v2.y(), scattered.y());
    assert_close(v2.z(), scattered.z());
}

#[test]
fn test_dielectric_refract_exiting() {
    let half = fx(1) / 2;
    let s3h = fdiv(fsqrt(fx(3)), fx(2));
    let r_in = Ray::new(Pos::zero(), dir(half, s3h, fx(0)), 0);
    let mat = Material::Dielectric(Dielectric::new(fsqrt(fx(2))));
    let rec = HitRecord {
        t: fx(1),
        p: pos(half, s3h, fx(0)),
        normal: dir(fx(0), fx(1), fx(0)),
        mat: &mat,
    };

    let mut rng = rng_drawing_above(fx(1) / 4);
    let scatter = mat.scatter(&mut rng, &r_in, &rec);
    assert!(scatter.is_some());
    let scattered = scatter.unwrap().scattered.direction();

    let v2 = dir(fx(1), fx(1), fx(0)).unit_vector();
    assert_close(v2.x(), scattered.x());
    assert_close(v2.y(), scattered.y());
    assert_close(v2.z(), scattered.z());
}

#[test]
fn test_total_internal_reflection_reflects() {
    // a grazing exit from the denser medium: refraction is impossible, so
    // the ray must reflect
    let nine_tenths = fx(9) / 10;
    let steep = dir(nine_tenths, fx(1) / 4, fx(0)).unit_vector();
    let r_in = Ray::new(Pos::zero(), steep, 0);
    let mat = Material::Dielectric(Dielectric::new(fx(2)));
    let rec = HitRecord {
        t: fx(1),
        p: pos(steep.x(), steep.y(), steep.z()),
        normal: dir(fx(0), fx(1), fx(0)),
        mat: &mat,
    };
    let mut rng = SampleRng::new(7);
    let scatter = mat.scatter(&mut rng, &r_in, &rec);
    assert!(scatter.is_some());
    let d = scatter.unwrap().scattered.direction();
    // mirrored about the normal: the horizontal component survives, the
    // vertical one flips
    let expected = raytrace::material::reflect(steep, dir(fx(0), fx(1), fx(0)));
    assert_eq!(expected.x(), d.x());
    assert_eq!(expected.y(), d.y());
    assert_eq!(expected.z(), d.z());
}
