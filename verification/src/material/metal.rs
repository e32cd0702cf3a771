//! The reflective material.

use crate::fx::Float;
use crate::hitable::HitRecord;
use crate::material::{
    random_in_unit_sphere, reflect, spec_reflect, spec_unit_sphere_point, Metal, Scatter,
    SAMPLE_RETRIES,
};
use crate::ray::Ray;
use crate::rng::SampleRng;
use crate::vec3::col::Col;
use crate::vec3::dir::Dir;
use crate::vec3::pos::Pos;
use crate::vec3::{v_add, v_dot, v_scale, v_unit};
use vstd::prelude::*;

verus! {

/// What a metal scatter returns: the unit incoming direction mirrored about
/// the normal, blurred by `fuzz` times a random point in the unit sphere;
/// nothing when the blurred direction ends up on the far side of the
/// normal, which models absorption at grazing angles.
pub open spec fn spec_metal_scatter(m: Metal, s: u64, r_in: Ray, p: Pos, normal: Dir) -> (
    Option<Scatter>,
    u64,
) {
    let reflected = spec_reflect(Dir(v_unit(r_in.b.0)), normal);
    let pr = spec_unit_sphere_point(s, SAMPLE_RETRIES as nat);
    let d = Dir(v_add(reflected.0, v_scale(pr.0.0, m.fuzz as int)));
    let scattered = Ray { a: p, b: d, time: r_in.time };
    if v_dot(d.0, normal.0) > 0 {
        (Some(Scatter { attenuation: m.albedo, scattered }), pr.1)
    } else {
        (None, pr.1)
    }
}

impl Metal {
    /// A reflective material with the given fuzz radius.
    pub fn new(albedo: Col, fuzz: Float) -> (m: Metal)
        ensures
            m == (Metal { albedo, fuzz }),
    {
        Metal { albedo, fuzz }
    }

    /// Mirrors the unit incoming direction about the normal and blurs it by
    /// the fuzz radius; absorbs the ray when the result leaves the surface
    /// on the wrong side.
    pub fn scatter(&self, rng: &mut SampleRng, r_in: &Ray, rec: &HitRecord) -> (res: Option<
        Scatter,
    >)
        ensures
            res == spec_metal_scatter(*self, old(rng).state, *r_in, rec.p, rec.normal).0,
            final(rng).state == spec_metal_scatter(
                *self,
                old(rng).state,
                *r_in,
                rec.p,
                rec.normal,
            ).1,
    {
        let reflected = reflect(r_in.direction().unit_vector(), rec.normal);
        let rv = random_in_unit_sphere(rng);
        let scattered = Ray::new(rec.p, reflected.add(rv.scale(self.fuzz)), r_in.time());
        let attenuation = self.albedo;
        if scattered.direction().dot(rec.normal) > 0 {
            Some(Scatter { scattered, attenuation })
        } else {
            None
        }
    }
}

} // verus!
