//! Texture evaluation: mapping a surface point to a colour.
//!
//! A texture is a pure function of the surface coordinates and the hit
//! point.  The three variants are a constant colour, a three-dimensional
//! checkerboard that alternates two sub-textures, and a procedural noise
//! texture over a precomputed lattice (see [`perlin`]).

pub mod perlin;

use crate::fx::{ediv, fmul, fx_add, fx_mul, Float, SCALE};
use crate::texture::perlin::{spec_noise, NoiseTexture};
use crate::vec3::col::Col;
use crate::vec3::pos::Pos;
use crate::vec3::{v_scale, Vec3};
use vstd::prelude::*;

verus! {

/// The fixed-point value nearest to pi.
pub const PI_FX: i64 = 205887;

/// A texture: constant, checkered, or procedural noise.
#[derive(Debug)]
pub enum Texture {
    Constant(Col),
    Checker(Box<Texture>, Box<Texture>),
    Noise(NoiseTexture),
}

/// The checker cell index of one scaled coordinate: the floor of
/// `10 * c / pi`, with `pi` rounded to the nearest fixed-point unit.
pub open spec fn checker_cell(c: int) -> int {
    fx_mul(c, 10 * SCALE) / (PI_FX as int)
}

/// Whether one scaled coordinate lies exactly on a checker cell boundary.
pub open spec fn checker_on_boundary(c: int) -> bool {
    fx_mul(c, 10 * SCALE) % (PI_FX as int) == 0
}

/// Whether the three-dimensional checker pattern selects the odd sub-texture
/// at `p`.  The real-valued pattern takes the sign of
/// `sin(10 x) * sin(10 y) * sin(10 z)`; the sign of `sin(v)` alternates with
/// the parity of `floor(v / pi)`, so the product is negative exactly when an
/// odd number of the three cell indices is odd and no factor is zero (a
/// coordinate on a cell boundary makes the product zero, which selects the
/// even sub-texture).
pub open spec fn checker_is_odd(p: Pos) -> bool {
    if checker_on_boundary(p.0.x as int) || checker_on_boundary(p.0.y as int)
        || checker_on_boundary(p.0.z as int) {
        false
    } else {
        ((checker_cell(p.0.x as int) % 2 != 0) != (checker_cell(p.0.y as int) % 2 != 0)) != (
        checker_cell(p.0.z as int) % 2 != 0)
    }
}

/// What the noise texture evaluates to at `p`: the grey colour
/// `0.5 * (1 + noise(scale * p))` in every channel.
pub open spec fn spec_noise_value(n: NoiseTexture, p: Pos) -> Col {
    let sp = Pos(v_scale(p.0, n.scale as int));
    let g = fx_mul(fx_add(SCALE as int, spec_noise(n.data, sp)), (SCALE as int) / 2) as i64;
    Col(Vec3 { x: g, y: g, z: g })
}

/// What a texture evaluates to at surface coordinates `(u, v)` and point `p`.
pub open spec fn spec_tex_value(t: Texture, u: int, v: int, p: Pos) -> Col
    decreases t,
{
    match t {
        Texture::Constant(c) => c,
        Texture::Checker(odd, even) => if checker_is_odd(p) {
            spec_tex_value(*odd, u, v, p)
        } else {
            spec_tex_value(*even, u, v, p)
        },
        Texture::Noise(n) => spec_noise_value(n, p),
    }
}

/// A texture of one constant colour.
pub fn constant_texture(colour: Col) -> (t: Texture)
    ensures
        t == Texture::Constant(colour),
{
    Texture::Constant(colour)
}

/// A three-dimensional checkerboard alternating two sub-textures.
pub fn checker(odd: Texture, even: Texture) -> (t: Texture)
    ensures
        t == Texture::Checker(Box::new(odd), Box::new(even)),
{
    Texture::Checker(Box::new(odd), Box::new(even))
}

/// A procedural noise texture over a fresh lattice.
pub fn noise_texture(scale: Float) -> (t: Texture)
    ensures
        ({
            &&& t matches Texture::Noise(n)
            &&& n.scale == scale
            &&& n.data.ranvec@.len() == 256
            &&& n.data.perm_x@.len() == 256
            &&& n.data.perm_y@.len() == 256
            &&& n.data.perm_z@.len() == 256
        }),
{
    Texture::Noise(NoiseTexture::new(scale))
}

impl Texture {
    /// The colour of the texture at surface coordinates `(u, v)` and hit
    /// point `p`.
    pub fn value(&self, u: Float, v: Float, p: &Pos) -> (c: Col)
        ensures
            c == spec_tex_value(*self, u as int, v as int, *p),
        decreases *self,
    {
        match self {
            Texture::Constant(c) => *c,
            Texture::Checker(odd, even) => {
                if checker_sines_negative(p) {
                    odd.value(u, v, p)
                } else {
                    even.value(u, v, p)
                }
            },
            Texture::Noise(n) => n.value(u, v, p),
        }
    }
}

/// Whether the checker sine product is negative at `p`.
fn checker_sines_negative(p: &Pos) -> (r: bool)
    ensures
        r == checker_is_odd(*p),
{
    let (cx, bx) = checker_coord(p.0.x);
    let (cy, by) = checker_coord(p.0.y);
    let (cz, bz) = checker_coord(p.0.z);
    if bx || by || bz {
        false
    } else {
        ((cx != 0) != (cy != 0)) != (cz != 0)
    }
}

/// One coordinate's checker cell parity and whether it lies on a boundary.
fn checker_coord(c: Float) -> (r: (i64, bool))
    ensures
        r.0 as int == checker_cell(c as int) % 2,
        r.1 == checker_on_boundary(c as int),
{
    let s = fmul(c, 10 * SCALE);
    let (q, rem) = ediv(s, PI_FX);
    let (_half, par) = ediv(q, 2);
    (par, rem == 0)
}

} // verus!
