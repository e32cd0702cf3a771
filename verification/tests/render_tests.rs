//! The sphere protocol, the hierarchy against a brute-force scan, and the
//! full render pipeline.

use raytrace::camera::Camera;
use raytrace::fx::{fmul, fx, Float, SCALE};
use raytrace::hitable::stats::{Category, Stats};
use raytrace::hitable::{Hitable, PlainHitableFactory, TracingHitableFactory};
use raytrace::material::{lambertian, metal, Material};
use raytrace::pixbuf::as_u8;
use raytrace::ray::Ray;
use raytrace::render::render;
use raytrace::rng::SampleRng;
use raytrace::scene::Scene;
use raytrace::settings::Settings;
use raytrace::texture::{checker, constant_texture, noise_texture, Texture};
use raytrace::vec3::col::{col, Col};
use raytrace::vec3::dir::dir;
use raytrace::vec3::pos::{pos, Pos};

fn grey() -> Material {
    lambertian(constant_texture(col(SCALE / 2, SCALE / 2, SCALE / 2)))
}

fn sphere_positions() -> Vec<(Float, Float, Float, Float)> {
    vec![
        (fx(0), fx(0), fx(-3), fx(1)),
        (fx(2), fx(1), fx(-4), fx(1)),
        (fx(-2), fx(0), fx(-2), fx(1) / 2),
        (fx(1), fx(-1), fx(-6), fx(2)),
        (fx(-1), fx(2), fx(-5), fx(1)),
        (fx(0), fx(-101), fx(-3), fx(100)),
        (fx(3), fx(0), fx(-2), fx(1) / 4),
        (fx(-3), fx(-1), fx(-7), fx(3) / 2),
    ]
}

fn make_spheres() -> Vec<Hitable> {
    let f = PlainHitableFactory;
    sphere_positions()
        .into_iter()
        .map(|(x, y, z, r)| f.sphere(pos(x, y, z), r, grey()))
        .collect()
}

#[test]
fn test_sphere_hit_on_surface() {
    let f = PlainHitableFactory;
    let s = f.sphere(pos(fx(0), fx(0), fx(-2)), fx(1), grey());
    let ray = Ray::new(Pos::zero(), dir(fx(0), fx(0), fx(-1)), 0);
    let mut stats = Stats::new();
    let rec = s.hit(&mut stats, &ray, 66, i64::MAX).expect("must hit");
    // the parameter lies strictly inside the window, and the hit point
    // sits on the sphere within the fixed-point tolerance
    assert!(66 < rec.t && rec.t < i64::MAX);
    assert!((rec.t - fx(1)).abs() <= 4);
    let to_center = rec.p.sub(pos(fx(0), fx(0), fx(-2)));
    assert!((to_center.squared_length() - fx(1)).abs() <= 16);
    // the normal points from the centre through the hit point
    assert!((rec.normal.z() - fx(1)).abs() <= 16);
}

#[test]
fn test_sphere_miss_outside_window() {
    let f = PlainHitableFactory;
    let s = f.sphere(pos(fx(0), fx(0), fx(-2)), fx(1), grey());
    let ray = Ray::new(Pos::zero(), dir(fx(0), fx(0), fx(-1)), 0);
    let mut stats = Stats::new();
    // the whole sphere lies beyond the window's far end
    assert!(s.hit(&mut stats, &ray, 66, SCALE / 2).is_none());
    // and a ray pointing away misses entirely
    let away = Ray::new(Pos::zero(), dir(fx(0), fx(0), fx(1)), 0);
    assert!(s.hit(&mut stats, &away, 66, i64::MAX).is_none());
}

#[test]
fn test_hierarchy_matches_scan() {
    let f = PlainHitableFactory;
    let tree = f.bounding_hierarchy(make_spheres(), 0, fx(1));
    let scan = f.hitable_list(make_spheres());

    let mut rng = SampleRng::new(2024);
    let mut hits: u32 = 0;
    for _ in 0..64 {
        let ox = rng.next_unit() * 8 - fx(4);
        let oy = rng.next_unit() * 8 - fx(4);
        let dx = rng.next_unit() * 2 - SCALE;
        let dy = rng.next_unit() * 2 - SCALE;
        let ray = Ray::new(pos(ox, oy, fx(1)), dir(dx, dy, fx(-2)), 0);
        let mut s1 = Stats::new();
        let mut s2 = Stats::new();
        let from_tree = tree.hit(&mut s1, &ray, 66, i64::MAX);
        let from_scan = scan.hit(&mut s2, &ray, 66, i64::MAX);
        match (from_tree, from_scan) {
            (Some(a), Some(b)) => {
                assert_eq!(a.t, b.t);
                assert_eq!(a.p, b.p);
                assert_eq!(a.normal, b.normal);
                hits += 1;
            },
            (None, None) => {},
            _ => panic!("hierarchy and scan disagree on whether the ray hits"),
        }
    }
    assert!(hits > 0, "no sampled ray hit the scene");
}

#[test]
fn test_tracing_factory_counts() {
    let f = TracingHitableFactory;
    let s = f.sphere(pos(fx(0), fx(0), fx(-2)), fx(1), grey());
    let mut stats = Stats::new();
    let hit_ray = Ray::new(Pos::zero(), dir(fx(0), fx(0), fx(-1)), 0);
    let miss_ray = Ray::new(Pos::zero(), dir(fx(0), fx(1), fx(0)), 0);
    assert!(s.hit(&mut stats, &hit_ray, 66, i64::MAX).is_some());
    assert!(s.hit(&mut stats, &miss_ray, 66, i64::MAX).is_none());
    assert!(s.hit(&mut stats, &hit_ray, 66, i64::MAX).is_some());
    let rec = stats.entry(Category::Sphere);
    assert_eq!(2, rec.hits);
    assert_eq!(1, rec.misses);
    assert_eq!(0, stats.entry(Category::List).hits);
}

fn one_sphere_scene() -> Scene {
    let f = PlainHitableFactory;
    let ground = f.sphere(
        pos(fx(0), -fx(201) / 2, fx(-1)),
        fx(100),
        lambertian(constant_texture(col(SCALE / 2, SCALE * 7 / 10, SCALE / 4))),
    );
    let ball = f.sphere(
        pos(fx(0), fx(0), fx(-1)),
        fx(1) / 2,
        lambertian(constant_texture(col(SCALE * 9 / 10, SCALE / 10, SCALE / 10))),
    );
    let world = f.hitable_list(vec![ball, ground]);
    let camera = Camera::new(
        Pos::zero(),
        pos(fx(0), fx(0), fx(-1)),
        dir(fx(0), fx(1), fx(0)),
        fx(1),
        fx(2),
        fx(0),
        fx(1),
        0,
        0,
    );
    Scene::new(camera, world)
}

#[test]
fn test_fixed_seed_reproducible() {
    let settings = Settings { width: 8, height: 6, samples: 3, depth: 5 };
    let a = render(&settings, &one_sphere_scene(), 42);
    let b = render(&settings, &one_sphere_scene(), 42);
    assert_eq!(a.pixels, b.pixels);
}

#[test]
fn test_end_to_end_gradient_and_silhouette() {
    let settings = Settings { width: 40, height: 20, samples: 4, depth: 10 };
    let scene = one_sphere_scene();
    let img = render(&settings, &scene, 7);

    // sky pixels: the top corners show the white-to-blue gradient, with
    // blue the strongest channel
    for (x, y) in [(1usize, 0usize), (38, 0), (20, 0)] {
        let c = img.get(x, y);
        assert!(c.b() > 0);
        assert!(c.b() >= c.r() && c.b() >= c.g(), "sky pixel is not sky-like");
    }
    // and the gradient really falls towards the horizon: the top sky is
    // bluer than a lower sky pixel
    assert!(img.get(20, 0).b() >= img.get(1, 7).b());

    // the sphere's silhouette: the image centre is red-dominated
    let center = img.get(20, 10);
    assert!(center.r() > center.b(), "sphere silhouette is not red-dominated");
}

#[test]
fn test_more_samples_reduce_variance() {
    let scene = one_sphere_scene();
    let few = Settings { width: 10, height: 6, samples: 2, depth: 6 };
    let many = Settings { width: 10, height: 6, samples: 16, depth: 6 };
    let runs: u64 = 8;

    let spread = |settings: &Settings| -> i128 {
        let mut total: i128 = 0;
        for (x, y) in [(5usize, 3usize), (2, 2), (7, 4)] {
            let mut values: Vec<i128> = Vec::new();
            for seed in 0..runs {
                let img = render(settings, &scene, 1000 + seed);
                let c = img.get(x, y);
                values.push(c.r() as i128 + c.g() as i128 + c.b() as i128);
            }
            let mean: i128 = values.iter().sum::<i128>() / runs as i128;
            total += values.iter().map(|v| (v - mean) * (v - mean)).sum::<i128>();
        }
        total
    };

    assert!(spread(&many) <= spread(&few), "more samples did not reduce variance");
}

#[test]
fn test_metal_reflects_off_normal() {
    let m = metal(col(SCALE, SCALE, SCALE), 0);
    let f = PlainHitableFactory;
    let s = f.sphere(pos(fx(0), fx(0), fx(-2)), fx(1), m);
    let ray = Ray::new(Pos::zero(), dir(fx(0), fx(0), fx(-1)), 0);
    let mut stats = Stats::new();
    let rec = s.hit(&mut stats, &ray, 66, i64::MAX).expect("must hit");
    let mut rng = SampleRng::new(5);
    let scatter = rec.mat.scatter(&mut rng, &ray, &rec).expect("head-on metal must scatter");
    // a head-on ray on a fuzzless mirror bounces straight back
    assert!((scatter.scattered.direction().z() - fx(1)).abs() <= 32);
    assert!(scatter.scattered.direction().x().abs() <= 32);
}

#[test]
fn test_tracing_changes_no_pixels() {
    // the stats decorator is strictly additive: a traced scene renders the
    // same image as the plain one, and only the counters differ
    let settings = Settings { width: 12, height: 8, samples: 2, depth: 6 };

    let plain = {
        let f = PlainHitableFactory;
        let world = f.hitable_list(vec![
            f.sphere(pos(fx(0), fx(0), fx(-1)), fx(1) / 2, grey()),
            f.sphere(pos(fx(0), -fx(201) / 2, fx(-1)), fx(100), grey()),
        ]);
        Scene::new(one_sphere_scene().camera, world)
    };
    let traced = {
        let f = TracingHitableFactory;
        let world = f.hitable_list(vec![
            f.sphere(pos(fx(0), fx(0), fx(-1)), fx(1) / 2, grey()),
            f.sphere(pos(fx(0), -fx(201) / 2, fx(-1)), fx(100), grey()),
        ]);
        Scene::new(one_sphere_scene().camera, world)
    };

    let a = render(&settings, &plain, 9);
    let (stats, b) = raytrace::render::render_with_stats(&settings, &traced, 9);
    assert_eq!(a.pixels, b.pixels);
    let rec = stats.entry(Category::Sphere);
    assert!(rec.hits + rec.misses > 0, "the traced render counted nothing");
    assert!(stats.entry(Category::List).hits + stats.entry(Category::List).misses > 0);
}

#[test]
fn test_negative_radius_sphere_has_inward_normal() {
    // a negative radius turns the surface inside out, the hollow-sphere
    // convention: the hit stands, with the normal flipped inward
    let f = PlainHitableFactory;
    let s = f.sphere(pos(fx(0), fx(0), fx(-2)), -fx(1), grey());
    let ray = Ray::new(Pos::zero(), dir(fx(0), fx(0), fx(-1)), 0);
    let mut stats = Stats::new();
    let rec = s.hit(&mut stats, &ray, 66, i64::MAX).expect("must hit");
    assert!((rec.t - fx(1)).abs() <= 4);
    assert!((rec.normal.z() + fx(1)).abs() <= 16);
}

#[test]
fn test_metal_absorbs_wrong_side() {
    // a reflected ray that lands below the surface it came from is
    // absorbed: reflecting (0,0,1) about the normal (0,0,1) points inward
    let m = metal(col(SCALE, SCALE, SCALE), 0);
    let rec = raytrace::hitable::HitRecord {
        t: fx(1),
        p: pos(fx(0), fx(0), fx(0)),
        normal: dir(fx(0), fx(0), fx(1)),
        mat: &m,
    };
    let ray = Ray::new(pos(fx(0), fx(0), fx(-1)), dir(fx(0), fx(0), fx(1)), 0);
    let mut rng = SampleRng::new(11);
    assert!(m.scatter(&mut rng, &ray, &rec).is_none());
}

#[test]
fn test_depth_zero_is_black() {
    // an exhausted depth budget terminates the path as black before the
    // world is queried, even where the ray would miss into the sky
    let f = PlainHitableFactory;
    let world = f.hitable_list(vec![f.sphere(pos(fx(0), fx(0), fx(-2)), fx(1), grey())]);
    let up = Ray::new(Pos::zero(), dir(fx(0), fx(1), fx(0)), 0);
    let towards = Ray::new(Pos::zero(), dir(fx(0), fx(0), fx(-1)), 0);
    let mut stats = Stats::new();
    let mut rng = SampleRng::new(1);
    assert_eq!(Col::zero(), raytrace::render::colour(&mut stats, &up, &world, 0, &mut rng));
    assert_eq!(Col::zero(), raytrace::render::colour(&mut stats, &towards, &world, 0, &mut rng));
    // and the generator is untouched by a terminated path
    assert_eq!(SampleRng::new(1), rng);
}

#[test]
fn test_background_gradient_formula() {
    // a straight-up miss takes the pure sky colour, with no randomness
    let f = PlainHitableFactory;
    let world = f.hitable_list(vec![f.sphere(pos(fx(0), fx(0), fx(-50)), fx(1), grey())]);
    let up = Ray::new(Pos::zero(), dir(fx(0), fx(1), fx(0)), 0);
    let mut stats = Stats::new();
    let mut rng = SampleRng::new(3);
    let c = raytrace::render::colour(&mut stats, &up, &world, 10, &mut rng);
    assert_eq!(col(SCALE / 2, 45875, SCALE), c);
    // and a straight-down miss blends half white, half blue
    let down = Ray::new(pos(fx(0), fx(10), fx(0)), dir(fx(0), fx(-1), fx(0)), 0);
    let c2 = raytrace::render::colour(&mut stats, &down, &world, 10, &mut rng);
    assert!(c2.r() > c.r() && c2.b() == SCALE);
}

#[test]
fn test_ray_point_at() {
    let r = Ray::new(pos(fx(1), fx(2), fx(3)), dir(fx(1), fx(0), fx(-1)), 0);
    assert_eq!(pos(fx(3), fx(2), fx(1)), r.point_at(fx(2)));
    assert_eq!(pos(fx(1), fx(2), fx(3)), r.origin());
    assert_eq!(dir(fx(1), fx(0), fx(-1)), r.direction());
    assert_eq!(0, r.time());
}

#[test]
fn test_as_u8_ranges() {
    assert_eq!(0, as_u8(0));
    assert_eq!(0, as_u8(-fx(1)));
    assert_eq!(128, as_u8(SCALE / 2));
    assert_eq!(255, as_u8(SCALE));
    assert_eq!(255, as_u8(fx(7)));
    assert_eq!(63, as_u8(SCALE / 4 - 1));
}

#[test]
fn test_checker_alternates() {
    let red = col(SCALE, 0, 0);
    let blue = col(0, 0, SCALE);
    let t = checker(constant_texture(red), constant_texture(blue));
    // near the origin the sine product is positive: the even texture
    let even_point = pos(fx(1) / 20, fx(1) / 20, fx(1) / 20);
    assert_eq!(blue, t.value(0, 0, &even_point));
    // one coordinate shifted past pi/10 flips the sign: the odd texture
    let odd_point = pos(fx(7) / 20, fx(1) / 20, fx(1) / 20);
    assert_eq!(red, t.value(0, 0, &odd_point));
}

#[test]
fn test_noise_texture_is_stable() {
    let t = noise_texture(fx(2));
    let p = pos(fx(1) / 3, fx(5) / 7, fx(-2) / 3);
    let first = t.value(0, 0, &p);
    for _ in 0..4 {
        assert_eq!(first, t.value(0, 0, &p));
    }
    match &t {
        Texture::Noise(n) => {
            assert_eq!(256, n.data.ranvec.len());
            assert_eq!(256, n.data.perm_x.len());
        },
        _ => panic!("noise_texture must build a noise texture"),
    }
}

#[test]
fn test_rng_streams_differ() {
    let mut a = SampleRng::new(1);
    let mut b = SampleRng::new(2);
    let mut same = true;
    for _ in 0..8 {
        if a.next_u64() != b.next_u64() {
            same = false;
        }
    }
    assert!(!same, "different seeds must give different streams");
    let mut c = SampleRng::new(1);
    let mut d = SampleRng::new(1);
    for _ in 0..8 {
        assert_eq!(c.next_u64(), d.next_u64());
        let u = d.state;
        assert!(u == c.state);
    }
}

#[test]
fn test_pixbuf_merge_is_symmetric() {
    let mut a = raytrace::pixbuf::Pixbuf::new(2, 2);
    let mut b = raytrace::pixbuf::Pixbuf::new(2, 2);
    a.put(0, 0, col(fx(1), fx(2), fx(3)));
    a.put(1, 1, col(fx(4), 0, 0));
    b.put(0, 0, col(fx(5), fx(1), 0));
    b.put(0, 1, col(0, fx(2), fx(2)));
    let mut ab = raytrace::pixbuf::Pixbuf::new(2, 2);
    ab.add_assign(&a);
    ab.add_assign(&b);
    let mut ba = raytrace::pixbuf::Pixbuf::new(2, 2);
    ba.add_assign(&b);
    ba.add_assign(&a);
    assert_eq!(ab.pixels, ba.pixels);
    assert_eq!(Col(raytrace::vec3::Vec3 { x: fx(6), y: fx(3), z: fx(3) }), ab.get(0, 0));
}

#[test]
fn test_gamma_image() {
    let mut p = raytrace::pixbuf::Pixbuf::new(1, 1);
    p.put(0, 0, col(SCALE / 4, SCALE, 0));
    let img = p.as_image();
    let c = img.get(0, 0);
    // the square roots of a quarter and of one
    assert_eq!(SCALE / 2, c.r());
    assert_eq!(SCALE, c.g());
    assert_eq!(0, c.b());
    assert_eq!(fmul(c.r(), c.r()), SCALE / 4);
}
