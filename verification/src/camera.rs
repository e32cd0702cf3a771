//! The camera: a ray source over an image plane.
//!
//! The core consumes the camera as an opaque ray source; it is kept here in
//! fixed point so that ray generation carries the same exact contracts as
//! the rest of the pipeline.  The constructor takes the tangent of half the
//! vertical field of view directly (`half_height`), as the library has no
//! trigonometry: a quarter-turn field of view gives one.

use crate::fx::{fadd, fdiv, fmul, fsub, fx_add, fx_div, fx_mul, fx_sub, Float, SCALE};
use crate::material::SAMPLE_RETRIES;
use crate::ray::Ray;
use crate::rng::{spec_rng_state, spec_rng_unit, SampleRng};
use crate::vec3::dir::{dir, Dir};
use crate::vec3::pos::Pos;
use crate::vec3::{v_add, v_cross, v_scale, v_sqlen, v_sub, v_unit, Vec3};
use vstd::prelude::*;

verus! {

/// A camera: image-plane frame, origin, lens radius and shutter interval.
#[derive(Clone, Copy, Debug, PartialEq, Eq, Structural)]
pub struct Camera {
    pub lower_left_corner: Pos,
    pub horizontal: Dir,
    pub vertical: Dir,
    pub origin: Pos,
    pub u: Dir,
    pub v: Dir,
    pub lens_radius: Float,
    pub time0: Float,
    pub time1: Float,
}

/// The camera that `Camera::new` builds.
pub open spec fn spec_camera(
    look_from: Pos,
    look_at: Pos,
    up: Dir,
    half_height: int,
    aspect: int,
    aperture: int,
    focus_dist: int,
    t0: Float,
    t1: Float,
) -> Camera {
    let s = SCALE as int;
    let half_width = fx_mul(aspect, half_height);
    let w = v_unit(v_sub(look_from.0, look_at.0));
    let u = v_unit(v_cross(up.0, w));
    let v = v_cross(w, u);
    Camera {
        lower_left_corner: Pos(
            v_sub(
                look_from.0,
                v_scale(
                    v_add(v_add(v_scale(u, half_width), v_scale(v, half_height)), w),
                    focus_dist,
                ),
            ),
        ),
        horizontal: Dir(v_scale(u, fx_mul(fx_mul(2 * s, half_width), focus_dist))),
        vertical: Dir(v_scale(v, fx_mul(fx_mul(2 * s, half_height), focus_dist))),
        origin: look_from,
        u: Dir(u),
        v: Dir(v),
        lens_radius: fx_div(aperture, 2 * s) as i64,
        time0: t0,
        time1: t1,
    }
}

/// The point that rejection sampling of the unit disk yields from the
/// generator state `s` with the given retry budget, and the state after.
pub open spec fn spec_unit_disk_point(s: u64, tries: nat) -> (Dir, u64)
    decreases tries,
{
    let r1 = spec_rng_unit(s);
    let s1 = spec_rng_state(s);
    let r2 = spec_rng_unit(s1);
    let s2 = spec_rng_state(s1);
    let p = Dir(
        Vec3 {
            x: fx_sub(fx_mul(2 * (SCALE as int), r1 as int), SCALE as int) as i64,
            y: fx_sub(fx_mul(2 * (SCALE as int), r2 as int), SCALE as int) as i64,
            z: 0i64,
        },
    );
    if v_sqlen(p.0) < SCALE {
        (p, s2)
    } else if tries == 0 {
        (Dir(Vec3 { x: 0i64, y: 0i64, z: 0i64 }), s2)
    } else {
        spec_unit_disk_point(s2, (tries - 1) as nat)
    }
}

/// The ray that `get_ray` casts from the generator state `s`, and the
/// state after: a lens-disk draw for depth of field, then a shutter-time
/// draw.
pub open spec fn spec_get_ray(c: Camera, u: Float, v: Float, s: u64) -> (Ray, u64) {
    let dp = spec_unit_disk_point(s, SAMPLE_RETRIES as nat);
    let rd = v_scale(dp.0.0, c.lens_radius as int);
    let offset = v_add(v_scale(c.u.0, rd.x as int), v_scale(c.v.0, rd.y as int));
    let s2 = spec_rng_state(dp.1);
    let time = fx_add(
        c.time0 as int,
        fx_mul(spec_rng_unit(dp.1) as int, fx_sub(c.time1 as int, c.time0 as int)),
    );
    (
        Ray {
            a: Pos(v_add(c.origin.0, offset)),
            b: Dir(
                v_sub(
                    v_add(
                        v_add(
                            v_sub(c.lower_left_corner.0, c.origin.0),
                            v_scale(c.horizontal.0, u as int),
                        ),
                        v_scale(c.vertical.0, v as int),
                    ),
                    offset,
                ),
            ),
            time: time as i64,
        },
        s2,
    )
}

/// One rejection-sampling attempt tower over the unit disk.
fn sample_in_unit_disk(rng: &mut SampleRng, tries: u64) -> (d: Dir)
    ensures
        d == spec_unit_disk_point(old(rng).state, tries as nat).0,
        final(rng).state == spec_unit_disk_point(old(rng).state, tries as nat).1,
    decreases tries,
{
    let r1 = rng.next_unit();
    let r2 = rng.next_unit();
    let two: Float = 2 * SCALE;
    let p = dir(fsub(fmul(two, r1), SCALE), fsub(fmul(two, r2), SCALE), 0);
    if p.squared_length() < SCALE {
        p
    } else if tries == 0 {
        Dir::zero()
    } else {
        sample_in_unit_disk(rng, tries - 1)
    }
}

/// A pseudo-random point strictly inside the unit disk of the lens plane.
fn random_in_unit_disk(rng: &mut SampleRng) -> (d: Dir)
    ensures
        d == spec_unit_disk_point(old(rng).state, SAMPLE_RETRIES as nat).0,
        final(rng).state == spec_unit_disk_point(old(rng).state, SAMPLE_RETRIES as nat).1,
{
    sample_in_unit_disk(rng, SAMPLE_RETRIES)
}

impl Camera {
    /// A camera looking from `look_from` at `look_at`.  `half_height` is
    /// the tangent of half the vertical field of view; `aspect` widens it;
    /// `aperture` and `focus_dist` give the lens; `t0` and `t1` bound the
    /// shutter interval.
    pub fn new(
        look_from: Pos,
        look_at: Pos,
        up: Dir,
        half_height: Float,
        aspect: Float,
        aperture: Float,
        focus_dist: Float,
        t0: Float,
        t1: Float,
    ) -> (c: Camera)
        ensures
            c == spec_camera(
                look_from,
                look_at,
                up,
                half_height as int,
                aspect as int,
                aperture as int,
                focus_dist as int,
                t0,
                t1,
            ),
    {
        let two: Float = 2 * SCALE;
        let half_width = fmul(aspect, half_height);
        let w = look_from.sub(look_at).unit_vector();
        let u = up.cross(w).unit_vector();
        let v = w.cross(u);
        Camera {
            lower_left_corner: look_from.sub_dir(
                u.scale(half_width).add(v.scale(half_height)).add(w).scale(focus_dist),
            ),
            horizontal: u.scale(fmul(fmul(two, half_width), focus_dist)),
            vertical: v.scale(fmul(fmul(two, half_height), focus_dist)),
            origin: look_from,
            u,
            v,
            lens_radius: fdiv(aperture, two),
            time0: t0,
            time1: t1,
        }
    }

    /// The ray towards normalized image-plane coordinates `(u, v)`, with a
    /// lens-disk draw for depth of field and a shutter-time draw for motion
    /// blur.
    pub fn get_ray(&self, u: Float, v: Float, rng: &mut SampleRng) -> (r: Ray)
        ensures
            r == spec_get_ray(*self, u, v, old(rng).state).0,
            final(rng).state == spec_get_ray(*self, u, v, old(rng).state).1,
    {
        let rd = random_in_unit_disk(rng).scale(self.lens_radius);
        let offset = self.u.scale(rd.x()).add(self.v.scale(rd.y()));
        let time = fadd(self.time0, fmul(rng.next_unit(), fsub(self.time1, self.time0)));
        Ray::new(
            self.origin.offset(offset),
            self.lower_left_corner.sub(self.origin).add(self.horizontal.scale(u)).add(
                self.vertical.scale(v),
            ).sub(offset),
            time,
        )
    }
}

} // verus!
