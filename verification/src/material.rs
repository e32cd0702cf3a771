//! The material scattering model.
//!
//! A material decides whether a ray that hit a surface continues, and if so
//! in which direction and with which per-channel attenuation.  The three
//! variants are diffuse ([`Lambertian`]), reflective with a fuzz radius
//! ([`Metal`]) and refractive with a Fresnel-style reflectance
//! ([`Dielectric`]).

pub mod dielectric;
pub mod lambertian;
pub mod metal;

use crate::fx::{fmul, fsub, fx_mul, fx_sub, Float, SCALE};
use crate::hitable::HitRecord;
use crate::material::dielectric::spec_dielectric_scatter;
use crate::material::lambertian::spec_lambertian_scatter;
use crate::material::metal::spec_metal_scatter;
use crate::ray::Ray;
use crate::rng::{spec_rng_state, spec_rng_unit, SampleRng};
use crate::texture::Texture;
use crate::vec3::col::Col;
use crate::vec3::dir::{dir, Dir};
use crate::vec3::pos::Pos;
use crate::vec3::{v_dot, v_scale, v_sqlen, v_sub, Vec3};
use vstd::prelude::*;

verus! {

/// How many rejection-sampling draws a point-in-sphere sample may take
/// before it falls back to the centre.
pub const SAMPLE_RETRIES: u64 = 64;

/// A continued path: the new ray and the colour attenuation to apply.
#[derive(Clone, Copy, Debug, PartialEq, Eq, Structural)]
pub struct Scatter {
    pub attenuation: Col,
    pub scattered: Ray,
}

/// A diffuse material: scatters about the surface normal and attenuates by
/// its texture.
#[derive(Debug)]
pub struct Lambertian {
    pub albedo: Texture,
}

/// A reflective material: mirrors the incoming direction, blurred by a fuzz
/// radius.
#[derive(Clone, Copy, Debug, PartialEq, Eq, Structural)]
pub struct Metal {
    pub albedo: Col,
    pub fuzz: Float,
}

/// A refractive material with the given refractive index.
#[derive(Clone, Copy, Debug, PartialEq, Eq, Structural)]
pub struct Dielectric {
    pub ref_idx: Float,
}

/// A surface material: one of the three scattering models.
#[derive(Debug)]
pub enum Material {
    Lambertian(Lambertian),
    Metal(Metal),
    Dielectric(Dielectric),
}

/// A diffuse material over a texture.
pub fn lambertian(albedo: Texture) -> (m: Material)
    ensures
        m == Material::Lambertian(Lambertian { albedo }),
{
    Material::Lambertian(Lambertian::new(albedo))
}

/// A reflective material with the given fuzz radius.
pub fn metal(albedo: Col, fuzz: Float) -> (m: Material)
    ensures
        m == Material::Metal(Metal { albedo, fuzz }),
{
    Material::Metal(Metal::new(albedo, fuzz))
}

/// A refractive material with the given refractive index.
pub fn dielectric(ri: Float) -> (m: Material)
    ensures
        m == Material::Dielectric(Dielectric { ref_idx: ri }),
{
    Material::Dielectric(Dielectric::new(ri))
}

/// The point that rejection sampling of the unit sphere yields from the
/// generator state `s` with the given retry budget, and the state after:
/// three draws make a point of the cube `[-1, 1)^3`, kept if it falls
/// strictly inside the unit sphere; when the budget runs out, the centre.
pub open spec fn spec_unit_sphere_point(s: u64, tries: nat) -> (Dir, u64)
    decreases tries,
{
    let r1 = spec_rng_unit(s);
    let s1 = spec_rng_state(s);
    let r2 = spec_rng_unit(s1);
    let s2 = spec_rng_state(s1);
    let r3 = spec_rng_unit(s2);
    let s3 = spec_rng_state(s2);
    let p = Dir(
        Vec3 {
            x: fx_sub(fx_mul(2 * (SCALE as int), r1 as int), SCALE as int) as i64,
            y: fx_sub(fx_mul(2 * (SCALE as int), r2 as int), SCALE as int) as i64,
            z: fx_sub(fx_mul(2 * (SCALE as int), r3 as int), SCALE as int) as i64,
        },
    );
    if v_sqlen(p.0) < SCALE {
        (p, s3)
    } else if tries == 0 {
        (Dir(Vec3 { x: 0i64, y: 0i64, z: 0i64 }), s3)
    } else {
        spec_unit_sphere_point(s3, (tries - 1) as nat)
    }
}

/// One rejection-sampling attempt tower with an explicit retry budget.
fn sample_in_unit_sphere(rng: &mut SampleRng, tries: u64) -> (d: Dir)
    ensures
        d == spec_unit_sphere_point(old(rng).state, tries as nat).0,
        final(rng).state == spec_unit_sphere_point(old(rng).state, tries as nat).1,
    decreases tries,
{
    let r1 = rng.next_unit();
    let r2 = rng.next_unit();
    let r3 = rng.next_unit();
    let two: Float = 2 * SCALE;
    let p = dir(
        fsub(fmul(two, r1), SCALE),
        fsub(fmul(two, r2), SCALE),
        fsub(fmul(two, r3), SCALE),
    );
    if p.squared_length() < SCALE {
        p
    } else if tries == 0 {
        Dir::zero()
    } else {
        sample_in_unit_sphere(rng, tries - 1)
    }
}

/// A pseudo-random point strictly inside the unit sphere (the centre in
/// the astronomically unlikely case that every retry landed outside).
pub fn random_in_unit_sphere(rng: &mut SampleRng) -> (d: Dir)
    ensures
        d == spec_unit_sphere_point(old(rng).state, SAMPLE_RETRIES as nat).0,
        final(rng).state == spec_unit_sphere_point(old(rng).state, SAMPLE_RETRIES as nat).1,
{
    sample_in_unit_sphere(rng, SAMPLE_RETRIES)
}

/// The incoming direction mirrored about the normal: `v - 2 (v . n) n`.
pub open spec fn spec_reflect(v: Dir, n: Dir) -> Dir {
    Dir(v_sub(v.0, v_scale(n.0, fx_mul(2 * (SCALE as int), v_dot(v.0, n.0)))))
}

/// The incoming direction mirrored about the normal.
pub fn reflect(v: Dir, n: Dir) -> (r: Dir)
    ensures
        r == spec_reflect(v, n),
{
    let two: Float = 2 * SCALE;
    v.sub(n.scale(fmul(two, v.dot(n))))
}

/// What a material's scatter decision returns from the generator state
/// `s`, and the state after.
pub open spec fn spec_scatter(m: Material, s: u64, r_in: Ray, p: Pos, normal: Dir) -> (
    Option<Scatter>,
    u64,
) {
    match m {
        Material::Lambertian(l) => spec_lambertian_scatter(l, s, r_in, p, normal),
        Material::Metal(mm) => spec_metal_scatter(mm, s, r_in, p, normal),
        Material::Dielectric(d) => spec_dielectric_scatter(d, s, r_in, p, normal),
    }
}

impl Material {
    /// The material's decision for a ray that hit a surface: the continued
    /// ray and attenuation, or nothing when the path is absorbed.
    pub fn scatter(&self, rng: &mut SampleRng, r_in: &Ray, rec: &HitRecord) -> (res: Option<
        Scatter,
    >)
        ensures
            res == spec_scatter(*self, old(rng).state, *r_in, rec.p, rec.normal).0,
            final(rng).state == spec_scatter(*self, old(rng).state, *r_in, rec.p, rec.normal).1,
    {
        match self {
            Material::Lambertian(l) => l.scatter(rng, r_in, rec),
            Material::Metal(m) => m.scatter(rng, r_in, rec),
            Material::Dielectric(d) => d.scatter(rng, r_in, rec),
        }
    }
}

} // verus!
