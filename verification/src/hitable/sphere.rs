//! The sphere primitive.

use crate::fx::{fadd, fdiv, fmul, fneg, fsqrt, fsub, fx_add, fx_div, fx_mul, fx_neg, fx_sqrt, fx_sub, Float};
use crate::hitable::bounding_box::BoundingBox;
use crate::hitable::stats::Stats;
use crate::hitable::{HitRecord, HitView};
use crate::material::Material;
use crate::ray::{ray_at, Ray};
use crate::vec3::dir::{dir, Dir};
use crate::vec3::pos::Pos;
use crate::vec3::{v_add, v_dot, v_scale_div, v_sqlen, v_sub, Vec3};
use vstd::prelude::*;

verus! {

/// A sphere with a centre, a radius and a material.
#[derive(Debug)]
pub struct Sphere {
    pub center: Pos,
    pub radius: Float,
    pub mat: Material,
}

/// The parameter at which a ray first meets the sphere `(center, radius)`
/// inside the open window `(t_min, t_max)`: the nearer root of the
/// fixed-point quadratic if it lies in the window, else the farther root if
/// that one does, else nothing.
pub open spec fn spec_quadratic_hit(center: Pos, radius: int, r: Ray, t_min: int, t_max: int) -> Option<int> {
    let oc = v_sub(r.a.0, center.0);
    let a = v_sqlen(r.b.0);
    let b = v_dot(oc, r.b.0);
    let c = fx_sub(v_sqlen(oc), fx_mul(radius, radius));
    let disc = fx_sub(fx_mul(b, b), fx_mul(a, c));
    if disc > 0 {
        let root = fx_sqrt(disc);
        let near = fx_div(fx_sub(fx_neg(b), root), a);
        if t_min < near && near < t_max {
            Some(near)
        } else {
            let far = fx_div(fx_add(fx_neg(b), root), a);
            if t_min < far && far < t_max {
                Some(far)
            } else {
                None
            }
        }
    } else {
        None
    }
}

/// The hit record for a sphere surface met at parameter `t`: the point on
/// the ray, and the normal `(point - center) / radius`, which faces outward
/// only for a positive radius and is not sign-corrected against the ray.
pub open spec fn spec_surface_record(center: Pos, radius: int, mat: Material, r: Ray, t: int) -> HitView {
    let p = ray_at(r, t);
    HitView {
        t: t as i64,
        p,
        normal: Dir(v_scale_div(v_sub(p.0, center.0), radius)),
        mat,
    }
}

/// What a query on a sphere returns.
pub open spec fn spec_sphere_hit(s: Sphere, r: Ray, t_min: int, t_max: int) -> Option<HitView> {
    match spec_quadratic_hit(s.center, s.radius as int, r, t_min, t_max) {
        Some(t) => Some(spec_surface_record(s.center, s.radius as int, s.mat, r, t)),
        None => None,
    }
}

/// The box spanned by the centre plus and minus the radius on every axis.
pub open spec fn spec_sphere_bbox(s: Sphere) -> BoundingBox {
    let half = Vec3 { x: s.radius, y: s.radius, z: s.radius };
    BoundingBox { min: Pos(v_sub(s.center.0, half)), max: Pos(v_add(s.center.0, half)) }
}

impl Sphere {
    /// A sphere from centre, radius and material.
    pub fn new(center: Pos, radius: Float, mat: Material) -> (s: Sphere)
        ensures
            s == (Sphere { center, radius, mat }),
    {
        Sphere { center, radius, mat }
    }

    /// The hit record for this sphere met at parameter `t`.
    fn hit_record<'a>(&'a self, r: &Ray, t: Float) -> (rec: HitRecord<'a>)
        ensures
            crate::hitable::record_view(rec) == spec_surface_record(
                self.center,
                self.radius as int,
                self.mat,
                *r,
                t as int,
            ),
    {
        let p = r.point_at(t);
        HitRecord { t, p, normal: p.sub(self.center).scale_div(self.radius), mat: &self.mat }
    }

    /// The nearest intersection with the ray inside `(t_min, t_max)`,
    /// solving the quadratic `|origin + t dir - center|^2 = radius^2`.
    pub fn hit<'a>(&'a self, _c: &mut Stats, ray: &Ray, t_min: Float, t_max: Float) -> (res:
        Option<HitRecord<'a>>)
        ensures
            crate::hitable::hit_view(res) == spec_sphere_hit(*self, *ray, t_min as int, t_max as int),
            *final(_c) == *old(_c),
    {
        let oc = ray.origin().sub(self.center);
        let a = ray.direction().squared_length();
        let b = oc.0.dot(ray.direction().0);
        let c = fsub(oc.squared_length(), fmul(self.radius, self.radius));
        let disc = fsub(fmul(b, b), fmul(a, c));
        if disc > 0 {
            let root = fsqrt(disc);
            let t = fdiv(fsub(fneg(b), root), a);
            if t_min < t && t < t_max {
                return Some(self.hit_record(ray, t));
            }
            let t = fdiv(fadd(fneg(b), root), a);
            if t_min < t && t < t_max {
                return Some(self.hit_record(ray, t));
            }
        }
        None
    }

    /// The bounding box: the centre plus and minus the radius on every
    /// axis, at any time.
    pub fn bounding_box(&self, _t0: Float, _t1: Float) -> (bb: BoundingBox)
        ensures
            bb == spec_sphere_bbox(*self),
    {
        let half = dir(self.radius, self.radius, self.radius);
        BoundingBox::new(self.center.sub_dir(half), self.center.offset(half))
    }
}

} // verus!
