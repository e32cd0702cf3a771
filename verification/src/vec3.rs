//! Three-component fixed-point vectors.
//!
//! `Vec3` carries the arithmetic; [`col::Col`], [`dir::Dir`] and
//! [`pos::Pos`] wrap it so that colours, directions and positions cannot be
//! mixed up.  Every operation is specified exactly by a spec function over
//! the fixed-point semantics of [`crate::fx`].

pub mod col;
pub mod dir;
pub mod parse;
pub mod pos;

use crate::fx::{
    fadd, fdiv, fmul, fneg, fsqrt, fsub, fx_add, fx_div, fx_mul, fx_neg, fx_sqrt, fx_sub, Float,
};
use vstd::prelude::*;

verus! {

/// A vector of three fixed-point components.
#[derive(Clone, Copy, Debug, PartialEq, Eq, Structural)]
pub struct Vec3 {
    pub x: Float,
    pub y: Float,
    pub z: Float,
}

/// Componentwise saturating sum.
pub open spec fn v_add(a: Vec3, b: Vec3) -> Vec3 {
    Vec3 {
        x: fx_add(a.x as int, b.x as int) as i64,
        y: fx_add(a.y as int, b.y as int) as i64,
        z: fx_add(a.z as int, b.z as int) as i64,
    }
}

/// Componentwise saturating difference.
pub open spec fn v_sub(a: Vec3, b: Vec3) -> Vec3 {
    Vec3 {
        x: fx_sub(a.x as int, b.x as int) as i64,
        y: fx_sub(a.y as int, b.y as int) as i64,
        z: fx_sub(a.z as int, b.z as int) as i64,
    }
}

/// Componentwise negation.
pub open spec fn v_neg(a: Vec3) -> Vec3 {
    Vec3 {
        x: fx_neg(a.x as int) as i64,
        y: fx_neg(a.y as int) as i64,
        z: fx_neg(a.z as int) as i64,
    }
}

/// Componentwise fixed-point product.
pub open spec fn v_mul(a: Vec3, b: Vec3) -> Vec3 {
    Vec3 {
        x: fx_mul(a.x as int, b.x as int) as i64,
        y: fx_mul(a.y as int, b.y as int) as i64,
        z: fx_mul(a.z as int, b.z as int) as i64,
    }
}

/// Componentwise fixed-point quotient.
pub open spec fn v_div(a: Vec3, b: Vec3) -> Vec3 {
    Vec3 {
        x: fx_div(a.x as int, b.x as int) as i64,
        y: fx_div(a.y as int, b.y as int) as i64,
        z: fx_div(a.z as int, b.z as int) as i64,
    }
}

/// Every component multiplied by the scalar `t`.
pub open spec fn v_scale(a: Vec3, t: int) -> Vec3 {
    Vec3 {
        x: fx_mul(a.x as int, t) as i64,
        y: fx_mul(a.y as int, t) as i64,
        z: fx_mul(a.z as int, t) as i64,
    }
}

/// Every component divided by the scalar `t`.
pub open spec fn v_scale_div(a: Vec3, t: int) -> Vec3 {
    Vec3 {
        x: fx_div(a.x as int, t) as i64,
        y: fx_div(a.y as int, t) as i64,
        z: fx_div(a.z as int, t) as i64,
    }
}

/// The fixed-point dot product, summed left to right.
pub open spec fn v_dot(a: Vec3, b: Vec3) -> int {
    fx_add(
        fx_add(fx_mul(a.x as int, b.x as int), fx_mul(a.y as int, b.y as int)),
        fx_mul(a.z as int, b.z as int),
    )
}

/// The squared length: the dot product of a vector with itself.
pub open spec fn v_sqlen(a: Vec3) -> int {
    v_dot(a, a)
}

/// The fixed-point length.
pub open spec fn v_len(a: Vec3) -> int {
    fx_sqrt(v_sqlen(a))
}

/// The vector divided by its own length.
pub open spec fn v_unit(a: Vec3) -> Vec3 {
    v_scale_div(a, v_len(a))
}

/// The fixed-point cross product.
pub open spec fn v_cross(a: Vec3, b: Vec3) -> Vec3 {
    Vec3 {
        x: fx_sub(fx_mul(a.y as int, b.z as int), fx_mul(a.z as int, b.y as int)) as i64,
        y: fx_sub(fx_mul(a.z as int, b.x as int), fx_mul(a.x as int, b.z as int)) as i64,
        z: fx_sub(fx_mul(a.x as int, b.y as int), fx_mul(a.y as int, b.x as int)) as i64,
    }
}

/// A squared length is never negative.
pub proof fn lemma_sqlen_nonneg(a: Vec3)
    ensures
        v_sqlen(a) >= 0,
{
    assert(a.x as int * a.x as int >= 0) by (nonlinear_arith);
    assert(a.y as int * a.y as int >= 0) by (nonlinear_arith);
    assert(a.z as int * a.z as int >= 0) by (nonlinear_arith);
    crate::fx::lemma_tdiv_sign(a.x as int * a.x as int, crate::fx::SCALE as int);
    crate::fx::lemma_tdiv_sign(a.y as int * a.y as int, crate::fx::SCALE as int);
    crate::fx::lemma_tdiv_sign(a.z as int * a.z as int, crate::fx::SCALE as int);
}

impl Vec3 {
    /// The origin vector.
    pub fn zero() -> (r: Vec3)
        ensures
            r == (Vec3 { x: 0i64, y: 0i64, z: 0i64 }),
    {
        Vec3 { x: 0, y: 0, z: 0 }
    }

    /// A vector from its three components.
    pub fn new(e0: Float, e1: Float, e2: Float) -> (r: Vec3)
        ensures
            r == (Vec3 { x: e0, y: e1, z: e2 }),
    {
        Vec3 { x: e0, y: e1, z: e2 }
    }

    /// Componentwise sum.
    pub fn add(self, o: Vec3) -> (r: Vec3)
        ensures
            r == v_add(self, o),
    {
        Vec3 { x: fadd(self.x, o.x), y: fadd(self.y, o.y), z: fadd(self.z, o.z) }
    }

    /// Componentwise difference.
    pub fn sub(self, o: Vec3) -> (r: Vec3)
        ensures
            r == v_sub(self, o),
    {
        Vec3 { x: fsub(self.x, o.x), y: fsub(self.y, o.y), z: fsub(self.z, o.z) }
    }

    /// Componentwise negation.
    pub fn neg(self) -> (r: Vec3)
        ensures
            r == v_neg(self),
    {
        Vec3 { x: fneg(self.x), y: fneg(self.y), z: fneg(self.z) }
    }

    /// Componentwise product.
    pub fn mul(self, o: Vec3) -> (r: Vec3)
        ensures
            r == v_mul(self, o),
    {
        Vec3 { x: fmul(self.x, o.x), y: fmul(self.y, o.y), z: fmul(self.z, o.z) }
    }

    /// Componentwise quotient.
    pub fn div(self, o: Vec3) -> (r: Vec3)
        ensures
            r == v_div(self, o),
    {
        Vec3 { x: fdiv(self.x, o.x), y: fdiv(self.y, o.y), z: fdiv(self.z, o.z) }
    }

    /// Every component multiplied by `t`.
    pub fn scale(self, t: Float) -> (r: Vec3)
        ensures
            r == v_scale(self, t as int),
    {
        Vec3 { x: fmul(self.x, t), y: fmul(self.y, t), z: fmul(self.z, t) }
    }

    /// Every component divided by `t`.
    pub fn scale_div(self, t: Float) -> (r: Vec3)
        ensures
            r == v_scale_div(self, t as int),
    {
        Vec3 { x: fdiv(self.x, t), y: fdiv(self.y, t), z: fdiv(self.z, t) }
    }

    /// The dot product.
    pub fn dot(self, o: Vec3) -> (r: Float)
        ensures
            r as int == v_dot(self, o),
    {
        fadd(fadd(fmul(self.x, o.x), fmul(self.y, o.y)), fmul(self.z, o.z))
    }

    /// The squared length.
    pub fn squared_length(self) -> (r: Float)
        ensures
            r as int == v_sqlen(self),
    {
        self.dot(self)
    }

    /// The length.
    pub fn length(self) -> (r: Float)
        ensures
            r as int == v_len(self),
    {
        fsqrt(self.squared_length())
    }

    /// The vector divided by its own length.
    pub fn unit_vector(self) -> (r: Vec3)
        ensures
            r == v_unit(self),
    {
        let l = self.length();
        self.scale_div(l)
    }

    /// Replaces the vector by the unit vector in the same direction.
    pub fn make_unit_vector(&mut self)
        ensures
            *final(self) == v_unit(*old(self)),
    {
        *self = self.unit_vector();
    }

    /// The cross product.
    pub fn cross(self, o: Vec3) -> (r: Vec3)
        ensures
            r == v_cross(self, o),
    {
        Vec3 {
            x: fsub(fmul(self.y, o.z), fmul(self.z, o.y)),
            y: fsub(fmul(self.z, o.x), fmul(self.x, o.z)),
            z: fsub(fmul(self.x, o.y), fmul(self.y, o.x)),
        }
    }
}

} // verus!
