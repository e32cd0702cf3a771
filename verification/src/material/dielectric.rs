//! The refractive material.

use crate::fx::{fadd, fdiv, fmul, fneg, fsqrt, fsub, fx_add, fx_div, fx_mul, fx_neg, fx_sqrt, fx_sub, Float, SCALE};
use crate::hitable::HitRecord;
use crate::material::{reflect, spec_reflect, Dielectric, Scatter};
use crate::ray::Ray;
use crate::rng::{spec_rng_state, spec_rng_unit, SampleRng};
use crate::vec3::col::{col, Col};
use crate::vec3::dir::Dir;
use crate::vec3::pos::Pos;
use crate::vec3::{v_dot, v_len, v_neg, v_scale, v_sub, v_unit, Vec3};
use vstd::prelude::*;

verus! {

/// What refraction by Snell's law returns: the bent direction, or nothing
/// under total internal reflection (a nonpositive discriminant
/// `1 - (ni/nt)^2 (1 - cos^2)`).
pub open spec fn spec_refract(v: Dir, n: Dir, ni_over_nt: int) -> Option<Dir> {
    let uv = v_unit(v.0);
    let dt = v_dot(uv, n.0);
    let disc = fx_sub(
        SCALE as int,
        fx_mul(fx_mul(ni_over_nt, ni_over_nt), fx_sub(SCALE as int, fx_mul(dt, dt))),
    );
    if disc > 0 {
        Some(
            Dir(
                v_sub(
                    v_scale(v_sub(uv, v_scale(n.0, dt)), ni_over_nt),
                    v_scale(n.0, fx_sqrt(disc)),
                ),
            ),
        )
    } else {
        None
    }
}

/// The Schlick approximation of Fresnel reflectance:
/// `r0 + (1 - r0) (1 - cos)^5` with `r0 = ((1 - n) / (1 + n))^2`.
pub open spec fn spec_schlick(cosine: int, ref_idx: int) -> int {
    let r0 = fx_div(fx_sub(SCALE as int, ref_idx), fx_add(SCALE as int, ref_idx));
    let r0sq = fx_mul(r0, r0);
    let a = fx_sub(SCALE as int, cosine);
    let a2 = fx_mul(a, a);
    let a4 = fx_mul(a2, a2);
    let a5 = fx_mul(a4, a);
    fx_add(r0sq, fx_mul(fx_sub(SCALE as int, r0sq), a5))
}

/// What a dielectric scatter returns: always a continued ray.  The outward
/// normal and index ratio depend on whether the ray enters or exits the
/// medium; if refraction is possible the ray still reflects with the
/// Schlick probability, decided by one uniform draw, and under total
/// internal reflection it reflects without drawing.
pub open spec fn spec_dielectric_scatter(m: Dielectric, s: u64, r_in: Ray, p: Pos, normal: Dir) -> (
    Option<Scatter>,
    u64,
) {
    let attenuation = Col(Vec3 { x: SCALE, y: SCALE, z: SCALE });
    let d_dot_n = v_dot(r_in.b.0, normal.0);
    let len = v_len(r_in.b.0);
    let outward = if d_dot_n > 0 {
        Dir(v_neg(normal.0))
    } else {
        normal
    };
    let ni_over_nt = if d_dot_n > 0 {
        m.ref_idx as int
    } else {
        fx_div(SCALE as int, m.ref_idx as int)
    };
    let cosine = if d_dot_n > 0 {
        fx_div(fx_mul(m.ref_idx as int, d_dot_n), len)
    } else {
        fx_div(fx_neg(d_dot_n), len)
    };
    let reflected = spec_reflect(r_in.b, normal);
    let reflection = Some(
        Scatter { attenuation, scattered: Ray { a: p, b: reflected, time: r_in.time } },
    );
    match spec_refract(r_in.b, outward, ni_over_nt) {
        Some(refracted) => {
            let prob = spec_schlick(cosine, m.ref_idx as int);
            if spec_rng_unit(s) > prob {
                (
                    Some(
                        Scatter {
                            attenuation,
                            scattered: Ray { a: p, b: refracted, time: r_in.time },
                        },
                    ),
                    spec_rng_state(s),
                )
            } else {
                (reflection, spec_rng_state(s))
            }
        },
        None => (reflection, s),
    }
}

/// The refracted direction by Snell's law, or nothing under total internal
/// reflection.
pub fn refract(v: Dir, n: Dir, ni_over_nt: Float) -> (r: Option<Dir>)
    ensures
        r == spec_refract(v, n, ni_over_nt as int),
{
    let uv = v.unit_vector();
    let dt = uv.dot(n);
    let disc = fsub(SCALE, fmul(fmul(ni_over_nt, ni_over_nt), fsub(SCALE, fmul(dt, dt))));
    if disc > 0 {
        Some(uv.sub(n.scale(dt)).scale(ni_over_nt).sub(n.scale(fsqrt(disc))))
    } else {
        None
    }
}

/// The Schlick approximation of Fresnel reflectance.
pub fn schlick(cosine: Float, ref_idx: Float) -> (r: Float)
    ensures
        r as int == spec_schlick(cosine as int, ref_idx as int),
{
    let r0 = fdiv(fsub(SCALE, ref_idx), fadd(SCALE, ref_idx));
    let r0sq = fmul(r0, r0);
    let a = fsub(SCALE, cosine);
    let a2 = fmul(a, a);
    let a4 = fmul(a2, a2);
    let a5 = fmul(a4, a);
    fadd(r0sq, fmul(fsub(SCALE, r0sq), a5))
}

impl Dielectric {
    /// A refractive material with the given refractive index.
    pub fn new(ri: Float) -> (m: Dielectric)
        ensures
            m == (Dielectric { ref_idx: ri }),
    {
        Dielectric { ref_idx: ri }
    }

    /// Always scatters: refracts where Snell's law allows it, still
    /// reflecting with the Schlick probability, and reflects outright under
    /// total internal reflection.
    pub fn scatter(&self, rng: &mut SampleRng, r_in: &Ray, rec: &HitRecord) -> (res: Option<
        Scatter,
    >)
        ensures
            res == spec_dielectric_scatter(*self, old(rng).state, *r_in, rec.p, rec.normal).0,
            final(rng).state == spec_dielectric_scatter(
                *self,
                old(rng).state,
                *r_in,
                rec.p,
                rec.normal,
            ).1,
    {
        let attenuation = col(SCALE, SCALE, SCALE);
        let d_dot_n = r_in.direction().dot(rec.normal);
        let (outward_normal, ni_over_nt, cosine) = if d_dot_n > 0 {
            (
                rec.normal.neg(),
                self.ref_idx,
                fdiv(fmul(self.ref_idx, d_dot_n), r_in.direction().length()),
            )
        } else {
            (
                rec.normal,
                fdiv(SCALE, self.ref_idx),
                fdiv(fneg(d_dot_n), r_in.direction().length()),
            )
        };
        match refract(r_in.direction(), outward_normal, ni_over_nt) {
            Some(refracted) => {
                let reflect_prob = schlick(cosine, self.ref_idx);
                let draw = rng.next_unit();
                if draw > reflect_prob {
                    return Some(
                        Scatter { attenuation, scattered: Ray::new(rec.p, refracted, r_in.time()) },
                    );
                }
            },
            None => {},
        }
        let reflected = reflect(r_in.direction(), rec.normal);
        Some(Scatter { attenuation, scattered: Ray::new(rec.p, reflected, r_in.time()) })
    }
}

} // verus!
