//! Camera construction.

use raytrace::camera::Camera;
use raytrace::fx::fx;
use raytrace::vec3::dir::dir;
use raytrace::vec3::pos::{pos, Pos};

#[test]
fn test_camera_creation() {
    // a quarter-turn vertical field of view: the tangent of half of it is
    // one
    let cam = Camera::new(
        Pos::zero(),
        pos(fx(0), fx(0), fx(-1)),
        dir(fx(0), fx(1), fx(0)),
        fx(1),
        fx(2),
        fx(0),
        fx(1),
        0,
        0,
    );
    assert_eq!(Pos::zero(), cam.origin);
    assert_eq!(pos(fx(-2), fx(-1), fx(-1)), cam.lower_left_corner);
    assert_eq!(dir(fx(4), fx(0), fx(0)), cam.horizontal);
    assert_eq!(dir(fx(0), fx(2), fx(0)), cam.vertical);
}
