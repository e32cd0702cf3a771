//! The moving-sphere primitive: a sphere whose centre moves linearly over
//! a shutter interval.

use crate::fx::{fadd, fdiv, fmul, fneg, fsqrt, fsub, fx_div, fx_sub, Float};
use crate::hitable::bounding_box::{spec_surrounding, BoundingBox};
use crate::hitable::sphere::{spec_quadratic_hit, spec_surface_record};
use crate::hitable::stats::Stats;
use crate::hitable::{HitRecord, HitView};
use crate::material::Material;
use crate::ray::Ray;
use crate::vec3::dir::dir;
use crate::vec3::pos::Pos;
use crate::vec3::{v_add, v_scale, v_sub, Vec3};
use vstd::prelude::*;

verus! {

/// A sphere whose centre moves linearly from `center0` at `time0` to
/// `center1` at `time1`.
#[derive(Debug)]
pub struct MovingSphere {
    pub center0: Pos,
    pub center1: Pos,
    pub time0: Float,
    pub time1: Float,
    pub radius: Float,
    pub mat: Material,
}

/// The centre at `time`, interpolated linearly between the two keyed
/// centres.
pub open spec fn spec_center(s: MovingSphere, time: int) -> Pos {
    let frac = fx_div(fx_sub(time, s.time0 as int), fx_sub(s.time1 as int, s.time0 as int));
    Pos(v_add(s.center0.0, v_scale(v_sub(s.center1.0, s.center0.0), frac)))
}

/// What a query on a moving sphere returns: the sphere is intersected at
/// the centre it has at the ray's time.
pub open spec fn spec_moving_sphere_hit(s: MovingSphere, r: Ray, t_min: int, t_max: int) -> Option<
    HitView,
> {
    let center = spec_center(s, r.time as int);
    match spec_quadratic_hit(center, s.radius as int, r, t_min, t_max) {
        Some(t) => Some(spec_surface_record(center, s.radius as int, s.mat, r, t)),
        None => None,
    }
}

/// The box of the centre at one time, spanned by the radius on every axis.
pub open spec fn spec_center_bbox(s: MovingSphere, time: int) -> BoundingBox {
    let c = spec_center(s, time);
    let half = Vec3 { x: s.radius, y: s.radius, z: s.radius };
    BoundingBox { min: Pos(v_sub(c.0, half)), max: Pos(v_add(c.0, half)) }
}

/// The bounding box over a time interval: the union of the boxes swept at
/// its two ends, so the bound is valid for the whole shutter interval.
pub open spec fn spec_moving_sphere_bbox(s: MovingSphere, t0: int, t1: int) -> BoundingBox {
    spec_surrounding(spec_center_bbox(s, t0), spec_center_bbox(s, t1))
}

impl MovingSphere {
    /// A moving sphere from its two keyed centres, times, radius and
    /// material.
    pub fn new(cen0: Pos, cen1: Pos, t0: Float, t1: Float, radius: Float, mat: Material) -> (s:
        MovingSphere)
        ensures
            s == (MovingSphere {
                center0: cen0,
                center1: cen1,
                time0: t0,
                time1: t1,
                radius,
                mat,
            }),
    {
        MovingSphere { center0: cen0, center1: cen1, time0: t0, time1: t1, radius, mat }
    }

    /// The centre at `time`.
    fn center(&self, time: Float) -> (c: Pos)
        ensures
            c == spec_center(*self, time as int),
    {
        let frac = fdiv(fsub(time, self.time0), fsub(self.time1, self.time0));
        self.center0.offset(self.center1.sub(self.center0).scale(frac))
    }

    /// The hit record for this sphere met at parameter `t`.
    fn hit_record<'a>(&'a self, r: &Ray, t: Float) -> (rec: HitRecord<'a>)
        ensures
            crate::hitable::record_view(rec) == spec_surface_record(
                spec_center(*self, r.time as int),
                self.radius as int,
                self.mat,
                *r,
                t as int,
            ),
    {
        let center = self.center(r.time());
        let p = r.point_at(t);
        HitRecord { t, p, normal: p.sub(center).scale_div(self.radius), mat: &self.mat }
    }

    /// The nearest intersection with the ray inside `(t_min, t_max)`,
    /// against the centre at the ray's time.
    pub fn hit<'a>(&'a self, _c: &mut Stats, ray: &Ray, t_min: Float, t_max: Float) -> (res:
        Option<HitRecord<'a>>)
        ensures
            crate::hitable::hit_view(res) == spec_moving_sphere_hit(
                *self,
                *ray,
                t_min as int,
                t_max as int,
            ),
            *final(_c) == *old(_c),
    {
        let oc = ray.origin().sub(self.center(ray.time()));
        let a = ray.direction().squared_length();
        let b = oc.0.dot(ray.direction().0);
        let c = fsub(oc.squared_length(), fmul(self.radius, self.radius));
        let disc = fsub(fmul(b, b), fmul(a, c));
        if disc > 0 {
            let root = fsqrt(disc);
            let t = fdiv(fsub(fneg(b), root), a);
            if t_min < t && t < t_max {
                return Some(self.hit_record(ray, t));
            }
            let t = fdiv(fadd(fneg(b), root), a);
            if t_min < t && t < t_max {
                return Some(self.hit_record(ray, t));
            }
        }
        None
    }

    /// The bounding box over `(t0, t1)`: the union of the boxes at the two
    /// interval ends.
    pub fn bounding_box(&self, t0: Float, t1: Float) -> (bb: BoundingBox)
        ensures
            bb == spec_moving_sphere_bbox(*self, t0 as int, t1 as int),
    {
        let half = dir(self.radius, self.radius, self.radius);
        let c0 = self.center(t0);
        let c1 = self.center(t1);
        let b0 = BoundingBox::new(c0.sub_dir(half), c0.offset(half));
        let b1 = BoundingBox::new(c1.sub_dir(half), c1.offset(half));
        BoundingBox::surrounding(b0, b1)
    }
}

} // verus!
