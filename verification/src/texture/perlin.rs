//! Procedural noise over a precomputed pseudo-random lattice.
//!
//! The lattice holds 256 pseudo-random directions and one shuffled index
//! table per axis, built once at scene construction and shared read-only
//! from then on.  Evaluation interpolates the lattice directions over the
//! fractional cell of the query point, so for a fixed lattice the noise is
//! an exact function of the point.

use crate::fx::{ediv, fadd, fmul, fsub, fx_add, fx_mul, fx_sub, Float, SCALE};
use crate::texture::spec_noise_value;
use crate::vec3::col::{col, Col};
use crate::vec3::dir::{dir, Dir};
use crate::vec3::pos::Pos;
use crate::vec3::{v_dot, Vec3};
use rand::Rng;
use rand::seq::SliceRandom;
use vstd::prelude::*;

verus! {

/// The immutable noise lattice: 256 pseudo-random unit directions and one
/// shuffled index table per axis.
#[derive(Debug)]
pub struct PerlinData {
    pub ranvec: Vec<Dir>,
    pub perm_x: Vec<u8>,
    pub perm_y: Vec<u8>,
    pub perm_z: Vec<u8>,
}

/// A procedural noise texture: the lattice and a frequency scale.
#[derive(Debug)]
pub struct NoiseTexture {
    pub scale: Float,
    pub data: PerlinData,
}

/// The index table entry at `i`, or zero outside the table.
pub open spec fn perm_at(t: Seq<u8>, i: int) -> u8 {
    if 0 <= i < t.len() {
        t[i]
    } else {
        0
    }
}

/// The lattice direction at `i`, or the zero direction outside the table.
pub open spec fn grad_at(d: PerlinData, i: int) -> Dir {
    if 0 <= i < d.ranvec@.len() {
        d.ranvec@[i]
    } else {
        Dir(Vec3 { x: 0i64, y: 0i64, z: 0i64 })
    }
}

/// A lattice coordinate for cell `i` offset by `di`, wrapped to the table:
/// negative cells clamp to zero, as the evaluator casts the floor to an
/// unsigned index.
pub open spec fn lattice_index(i: int, di: int) -> int {
    ((if i < 0 {
        0
    } else {
        i
    }) % 256 + di) % 256
}

/// The lattice direction at the corner `(i + di, j + dj, k + dk)`.
pub open spec fn spec_corner(d: PerlinData, i: int, j: int, k: int, di: int, dj: int, dk: int) -> Dir {
    let px = perm_at(d.perm_x@, lattice_index(i, di));
    let py = perm_at(d.perm_y@, lattice_index(j, dj));
    let pz = perm_at(d.perm_z@, lattice_index(k, dk));
    grad_at(d, (px ^ py ^ pz) as int)
}

/// The smoothstep fade `f * f * (3 - 2 f)` of a fractional coordinate.
pub open spec fn spec_fade(f: int) -> int {
    fx_mul(fx_mul(f, f), fx_sub(3 * (SCALE as int), fx_mul(2 * (SCALE as int), f)))
}

/// The interpolation weight of one corner along one axis: `s` is the corner
/// selector (zero or one on the fixed-point scale) and `f` the faded
/// fractional coordinate.
pub open spec fn corner_weight(s: int, f: int) -> int {
    fx_add(fx_mul(s, f), fx_mul(fx_sub(SCALE as int, s), fx_sub(SCALE as int, f)))
}

/// One corner's contribution: the corner direction dotted with the offset
/// from the corner, damped by the three axis weights.
pub open spec fn corner_term(g: Dir, u: int, v: int, w: int, su: int, sv: int, sw: int, uu: int, vv: int, ww: int) -> int {
    let offset = Vec3 {
        x: fx_sub(u, su) as i64,
        y: fx_sub(v, sv) as i64,
        z: fx_sub(w, sw) as i64,
    };
    fx_mul(
        fx_mul(fx_mul(v_dot(g.0, offset), corner_weight(su, uu)), corner_weight(sv, vv)),
        corner_weight(sw, ww),
    )
}

/// Trilinear interpolation of the eight corner directions `c` (in
/// lexicographic corner order) over the fractional cell `(u, v, w)`.
pub open spec fn spec_perlin_interp(c: Seq<Dir>, u: int, v: int, w: int) -> int {
    let s = SCALE as int;
    let uu = spec_fade(u);
    let vv = spec_fade(v);
    let ww = spec_fade(w);
    fx_add(
        fx_add(
            fx_add(
                fx_add(
                    fx_add(
                        fx_add(
                            fx_add(
                                corner_term(c[0], u, v, w, 0, 0, 0, uu, vv, ww),
                                corner_term(c[1], u, v, w, 0, 0, s, uu, vv, ww),
                            ),
                            corner_term(c[2], u, v, w, 0, s, 0, uu, vv, ww),
                        ),
                        corner_term(c[3], u, v, w, 0, s, s, uu, vv, ww),
                    ),
                    corner_term(c[4], u, v, w, s, 0, 0, uu, vv, ww),
                ),
                corner_term(c[5], u, v, w, s, 0, s, uu, vv, ww),
            ),
            corner_term(c[6], u, v, w, s, s, 0, uu, vv, ww),
        ),
        corner_term(c[7], u, v, w, s, s, s, uu, vv, ww),
    )
}

/// The eight corner directions of the cell `(i, j, k)`, in lexicographic
/// corner order.
pub open spec fn corner_seq(d: PerlinData, i: int, j: int, k: int) -> Seq<Dir> {
    seq![
        spec_corner(d, i, j, k, 0, 0, 0),
        spec_corner(d, i, j, k, 0, 0, 1),
        spec_corner(d, i, j, k, 0, 1, 0),
        spec_corner(d, i, j, k, 0, 1, 1),
        spec_corner(d, i, j, k, 1, 0, 0),
        spec_corner(d, i, j, k, 1, 0, 1),
        spec_corner(d, i, j, k, 1, 1, 0),
        spec_corner(d, i, j, k, 1, 1, 1),
    ]
}

/// The noise value at `p`: the query point's cell is found by floor
/// division, and the eight surrounding lattice directions are interpolated
/// over the fractional position within the cell.
pub open spec fn spec_noise(d: PerlinData, p: Pos) -> int {
    let s = SCALE as int;
    let i = (p.0.x as int) / s;
    let j = (p.0.y as int) / s;
    let k = (p.0.z as int) / s;
    let u = (p.0.x as int) % s;
    let v = (p.0.y as int) % s;
    let w = (p.0.z as int) % s;
    spec_perlin_interp(corner_seq(d, i, j, k), u, v, w)
}

/// Relies on rand::seq::SliceRandom::shuffle with rand::thread_rng: the
/// slice afterwards holds the same values, rearranged in place.
#[verifier::external_body]
fn shuffle_bytes(v: &mut Vec<u8>)
    ensures
        final(v)@.to_multiset() == old(v)@.to_multiset(),
        final(v)@.len() == old(v)@.len(),
{
    v.shuffle(&mut rand::thread_rng());
}

/// Relies on rand::Rng::gen with rand::thread_rng: one 32-bit draw.
#[verifier::external_body]
fn random_u32() -> u32 {
    rand::thread_rng().gen()
}

/// One shuffled table of the byte values `0` to `255`.
fn generate_perm() -> (v: Vec<u8>)
    ensures
        v@.len() == 256,
        v@.to_multiset() == Seq::<u8>::new(256, |i: int| i as u8).to_multiset(),
{
    let mut v: Vec<u8> = Vec::new();
    let mut i: usize = 0;
    while i < 256
        invariant
            i <= 256,
            v@.len() == i,
            forall|k: int| 0 <= k < i ==> v@[k] == k as u8,
        decreases 256 - i,
    {
        v.push(i as u8);
        i += 1;
    }
    proof {
        assert(v@ =~= Seq::<u8>::new(256, |i: int| i as u8));
    }
    shuffle_bytes(&mut v);
    v
}

/// One pseudo-random fixed-point value, spread over `[-1, 1)`.
fn random_signed_unit() -> (r: Float) {
    let draw = random_u32() % (SCALE as u32);
    fadd(-SCALE, fmul(2 * SCALE, draw as i64))
}

impl PerlinData {
    /// A fresh lattice: 256 pseudo-random unit directions and one shuffled
    /// index table per axis, each a permutation of the byte values.
    pub fn new() -> (d: PerlinData)
        ensures
            d.ranvec@.len() == 256,
            d.perm_x@.len() == 256,
            d.perm_y@.len() == 256,
            d.perm_z@.len() == 256,
            d.perm_x@.to_multiset() == Seq::<u8>::new(256, |i: int| i as u8).to_multiset(),
            d.perm_y@.to_multiset() == Seq::<u8>::new(256, |i: int| i as u8).to_multiset(),
            d.perm_z@.to_multiset() == Seq::<u8>::new(256, |i: int| i as u8).to_multiset(),
    {
        let mut ranvec: Vec<Dir> = Vec::new();
        let mut i: usize = 0;
        while i < 256
            invariant
                ranvec@.len() == i,
                i <= 256,
            decreases 256 - i,
        {
            let v = dir(random_signed_unit(), random_signed_unit(), random_signed_unit());
            ranvec.push(v.unit_vector());
            i += 1;
        }
        PerlinData {
            ranvec,
            perm_x: generate_perm(),
            perm_y: generate_perm(),
            perm_z: generate_perm(),
        }
    }
}

/// One corner's lattice direction, by wrapped table lookups.
fn corner(d: &PerlinData, i: i64, j: i64, k: i64, di: usize, dj: usize, dk: usize) -> (g: Dir)
    requires
        di < 2,
        dj < 2,
        dk < 2,
    ensures
        g == spec_corner(*d, i as int, j as int, k as int, di as int, dj as int, dk as int),
{
    let px = lookup(&d.perm_x, i, di);
    let py = lookup(&d.perm_y, j, dj);
    let pz = lookup(&d.perm_z, k, dk);
    let idx = (px ^ py ^ pz) as usize;
    if idx < d.ranvec.len() {
        d.ranvec[idx]
    } else {
        Dir::zero()
    }
}

/// One wrapped table lookup along one axis.
fn lookup(t: &Vec<u8>, i: i64, di: usize) -> (r: u8)
    requires
        di < 2,
    ensures
        r == perm_at(t@, lattice_index(i as int, di as int)),
{
    let base: usize = if i < 0 {
        0
    } else {
        (i as u64 % 256) as usize
    };
    let idx = (base + di) % 256;
    proof {
        assert(base as int == (if i < 0 { 0int } else { i as int }) % 256) by {
            if i >= 0 {
                assert(i as u64 as int == i as int);
            }
        };
    }
    if idx < t.len() {
        t[idx]
    } else {
        0
    }
}

/// Trilinear interpolation of eight corner directions over the fractional
/// cell `(u, v, w)`, in the order of [`corner_seq`].
pub fn perlin_interp(c: &Vec<Dir>, u: Float, v: Float, w: Float) -> (r: Float)
    requires
        c@.len() == 8,
    ensures
        r as int == spec_perlin_interp(c@, u as int, v as int, w as int),
{
    let uu = fade(u);
    let vv = fade(v);
    let ww = fade(w);
    let s = SCALE;
    let mut accum = term(c[0], u, v, w, 0, 0, 0, uu, vv, ww);
    accum = fadd(accum, term(c[1], u, v, w, 0, 0, s, uu, vv, ww));
    accum = fadd(accum, term(c[2], u, v, w, 0, s, 0, uu, vv, ww));
    accum = fadd(accum, term(c[3], u, v, w, 0, s, s, uu, vv, ww));
    accum = fadd(accum, term(c[4], u, v, w, s, 0, 0, uu, vv, ww));
    accum = fadd(accum, term(c[5], u, v, w, s, 0, s, uu, vv, ww));
    accum = fadd(accum, term(c[6], u, v, w, s, s, 0, uu, vv, ww));
    accum = fadd(accum, term(c[7], u, v, w, s, s, s, uu, vv, ww));
    accum
}

/// The smoothstep fade of one fractional coordinate.
fn fade(f: Float) -> (r: Float)
    ensures
        r as int == spec_fade(f as int),
{
    fmul(fmul(f, f), fsub(3 * SCALE, fmul(2 * SCALE, f)))
}

/// One corner's contribution to the interpolated noise.
fn term(g: Dir, u: Float, v: Float, w: Float, su: Float, sv: Float, sw: Float, uu: Float, vv: Float, ww: Float) -> (r: Float)
    ensures
        r as int == corner_term(
            g,
            u as int,
            v as int,
            w as int,
            su as int,
            sv as int,
            sw as int,
            uu as int,
            vv as int,
            ww as int,
        ),
{
    let offset = dir(fsub(u, su), fsub(v, sv), fsub(w, sw));
    let d = g.dot(offset);
    fmul(fmul(fmul(d, weight(su, uu)), weight(sv, vv)), weight(sw, ww))
}

/// The interpolation weight of one corner along one axis.
fn weight(s: Float, f: Float) -> (r: Float)
    ensures
        r as int == corner_weight(s as int, f as int),
{
    fadd(fmul(s, f), fmul(fsub(SCALE, s), fsub(SCALE, f)))
}

/// The noise value at a point, from the precomputed lattice.
pub fn noise(d: &PerlinData, p: &Pos) -> (r: Float)
    ensures
        r as int == spec_noise(*d, *p),
{
    let (i, u) = ediv(p.0.x, SCALE);
    let (j, v) = ediv(p.0.y, SCALE);
    let (k, w) = ediv(p.0.z, SCALE);
    let mut c: Vec<Dir> = Vec::new();
    c.push(corner(d, i, j, k, 0, 0, 0));
    c.push(corner(d, i, j, k, 0, 0, 1));
    c.push(corner(d, i, j, k, 0, 1, 0));
    c.push(corner(d, i, j, k, 0, 1, 1));
    c.push(corner(d, i, j, k, 1, 0, 0));
    c.push(corner(d, i, j, k, 1, 0, 1));
    c.push(corner(d, i, j, k, 1, 1, 0));
    c.push(corner(d, i, j, k, 1, 1, 1));
    proof {
        assert(c@ =~= corner_seq(*d, i as int, j as int, k as int));
    }
    perlin_interp(&c, u, v, w)
}

impl NoiseTexture {
    /// A noise texture over a fresh lattice.
    pub fn new(scale: Float) -> (t: NoiseTexture)
        ensures
            t.scale == scale,
            t.data.ranvec@.len() == 256,
            t.data.perm_x@.len() == 256,
            t.data.perm_y@.len() == 256,
            t.data.perm_z@.len() == 256,
    {
        NoiseTexture { scale, data: PerlinData::new() }
    }

    /// The noise colour at `p`: `0.5 * (1 + noise(scale * p))` in every
    /// channel.
    pub fn value(&self, _u: Float, _v: Float, p: &Pos) -> (c: Col)
        ensures
            c == spec_noise_value(*self, *p),
    {
        let sp = Pos(p.0.scale(self.scale));
        let n = noise(&self.data, &sp);
        let g = fmul(fadd(SCALE, n), 32768);
        col(g, g, g)
    }
}

} // verus!
