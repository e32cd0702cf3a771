//! The diffuse material.

use crate::hitable::HitRecord;
use crate::material::{random_in_unit_sphere, spec_unit_sphere_point, Lambertian, Scatter, SAMPLE_RETRIES};
use crate::ray::Ray;
use crate::rng::SampleRng;
use crate::texture::{spec_tex_value, Texture};
use crate::vec3::dir::Dir;
use crate::vec3::pos::Pos;
use crate::vec3::{v_add, v_sub};
use vstd::prelude::*;

verus! {

/// What a diffuse scatter returns: it always continues, towards the
/// normal's side perturbed by a random point in the unit sphere, and
/// attenuates by the texture's colour at the hit point.
pub open spec fn spec_lambertian_scatter(l: Lambertian, s: u64, r_in: Ray, p: Pos, normal: Dir) -> (
    Option<Scatter>,
    u64,
) {
    let pr = spec_unit_sphere_point(s, SAMPLE_RETRIES as nat);
    let target = Pos(v_add(v_add(p.0, normal.0), pr.0.0));
    let scattered = Ray { a: p, b: Dir(v_sub(target.0, p.0)), time: r_in.time };
    (
        Some(Scatter { attenuation: spec_tex_value(l.albedo, 0, 0, p), scattered }),
        pr.1,
    )
}

impl Lambertian {
    /// A diffuse material over a texture.
    pub fn new(albedo: Texture) -> (m: Lambertian)
        ensures
            m == (Lambertian { albedo }),
    {
        Lambertian { albedo }
    }

    /// Always scatters: towards the normal's side, perturbed by a random
    /// point in the unit sphere, attenuated by the texture at the hit.
    pub fn scatter(&self, rng: &mut SampleRng, r_in: &Ray, rec: &HitRecord) -> (res: Option<
        Scatter,
    >)
        ensures
            res == spec_lambertian_scatter(*self, old(rng).state, *r_in, rec.p, rec.normal).0,
            final(rng).state == spec_lambertian_scatter(
                *self,
                old(rng).state,
                *r_in,
                rec.p,
                rec.normal,
            ).1,
    {
        let rv = random_in_unit_sphere(rng);
        let target = rec.p.offset(rec.normal).offset(rv);
        let scattered = Ray::new(rec.p, target.sub(rec.p), r_in.time());
        let attenuation = self.albedo.value(0, 0, &rec.p);
        Some(Scatter { scattered, attenuation })
    }
}

} // verus!
