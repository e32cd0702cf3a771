//! Bounding boxes: the surrounding merge and the slab test.

use raytrace::fx::fx;
use raytrace::hitable::bounding_box::BoundingBox;
use raytrace::ray::Ray;
use raytrace::vec3::dir::dir;
use raytrace::vec3::pos::pos;

#[test]
fn test_bounding_box_creation() {
    let b0 = BoundingBox::new(pos(fx(0), fx(10), fx(20)), pos(fx(100), fx(200), fx(300)));
    let b1 = BoundingBox::new(pos(fx(5), fx(7), fx(2)), pos(fx(400), fx(100), fx(60)));
    let b = BoundingBox::surrounding(b0, b1);
    assert!(BoundingBox::new(pos(fx(0), fx(7), fx(2)), pos(fx(400), fx(200), fx(300))) == b);
}

#[test]
fn test_bounding_box_hit_with_axis_aligned_rays() {
    let b = BoundingBox::new(pos(fx(0), fx(0), fx(0)), pos(fx(10), fx(10), fx(10)));

    // x
    assert!(b.hit(&Ray::new(pos(fx(-2), fx(5), fx(4)), dir(fx(1), 0, 0), 0), fx(0), fx(10)));
    assert!(!b.hit(&Ray::new(pos(fx(-2), fx(15), fx(4)), dir(fx(1), 0, 0), 0), fx(0), fx(10)));

    assert!(b.hit(&Ray::new(pos(fx(7), fx(5), fx(6)), dir(fx(-1), 0, 0), 0), fx(0), fx(10)));
    assert!(!b.hit(&Ray::new(pos(fx(7), fx(5), fx(26)), dir(fx(-1), 0, 0), 0), fx(0), fx(10)));

    // y
    assert!(b.hit(&Ray::new(pos(fx(5), fx(-1), fx(7)), dir(0, fx(1), 0), 0), fx(0), fx(10)));
    assert!(!b.hit(&Ray::new(pos(fx(55), fx(-1), fx(7)), dir(0, fx(1), 0), 0), fx(0), fx(10)));

    assert!(b.hit(&Ray::new(pos(fx(5), fx(8), fx(3)), dir(0, fx(-1), 0), 0), fx(0), fx(10)));
    assert!(!b.hit(&Ray::new(pos(fx(5), fx(8), fx(33)), dir(0, fx(-1), 0), 0), fx(0), fx(10)));

    // z
    assert!(b.hit(&Ray::new(pos(fx(5), fx(5), fx(-1)), dir(0, 0, fx(1)), 0), fx(0), fx(10)));
    assert!(!b.hit(&Ray::new(pos(fx(5), fx(75), fx(-1)), dir(0, 0, fx(1)), 0), fx(0), fx(10)));

    assert!(b.hit(&Ray::new(pos(fx(5), fx(5), fx(6)), dir(0, 0, fx(-1)), 0), fx(0), fx(10)));
    assert!(!b.hit(&Ray::new(pos(fx(35), fx(5), fx(6)), dir(0, 0, fx(-1)), 0), fx(0), fx(10)));
}

#[test]
fn test_parallel_ray_outside_slab_misses() {
    // a ray parallel to an axis whose origin lies outside that axis's slab
    // misses, on either side of the slab and however near the plane
    let b = BoundingBox::new(pos(fx(0), fx(0), fx(0)), pos(fx(10), fx(10), fx(10)));
    // one fixed-point unit below the near plane
    assert!(!b.hit(&Ray::new(pos(-1, fx(5), fx(5)), dir(0, fx(1), 0), 0), fx(0), i64::MAX));
    // one fixed-point unit beyond the far plane
    assert!(!b.hit(&Ray::new(pos(fx(10) + 1, fx(5), fx(5)), dir(0, fx(1), 0), 0), fx(0), i64::MAX));
    // well outside on both sides
    assert!(!b.hit(&Ray::new(pos(fx(-2), fx(5), fx(5)), dir(0, 0, fx(1)), 0), fx(0), fx(10)));
    assert!(!b.hit(&Ray::new(pos(fx(5), fx(12), fx(5)), dir(fx(1), 0, 0), 0), fx(0), fx(10)));
    // on the boundary planes the ray grazes the box and still counts
    assert!(b.hit(&Ray::new(pos(fx(0), fx(5), fx(5)), dir(0, fx(1), 0), 0), fx(0), fx(10)));
    assert!(b.hit(&Ray::new(pos(fx(10), fx(5), fx(5)), dir(0, fx(1), 0), 0), fx(0), fx(10)));
}

#[test]
fn test_surrounding_contains_both() {
    let b0 = BoundingBox::new(pos(fx(-3), fx(1), fx(0)), pos(fx(2), fx(4), fx(9)));
    let b1 = BoundingBox::new(pos(fx(-1), fx(-5), fx(3)), pos(fx(7), fx(2), fx(5)));
    let s = BoundingBox::surrounding(b0, b1);
    for inner in [b0, b1] {
        assert!(s.min.x() <= inner.min.x() && s.min.y() <= inner.min.y());
        assert!(s.min.z() <= inner.min.z());
        assert!(inner.max.x() <= s.max.x() && inner.max.y() <= s.max.y());
        assert!(inner.max.z() <= s.max.z());
    }
    // and it is tight: each face is set by one of the two boxes
    assert_eq!(s.min.x(), fx(-3));
    assert_eq!(s.min.y(), fx(-5));
    assert_eq!(s.min.z(), fx(0));
    assert_eq!(s.max.x(), fx(7));
    assert_eq!(s.max.y(), fx(4));
    assert_eq!(s.max.z(), fx(9));
}
