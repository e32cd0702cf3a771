//! Direction vectors.

use crate::fx::Float;
use crate::vec3::{v_add, v_cross, v_dot, v_len, v_neg, v_scale, v_scale_div, v_sqlen, v_sub, v_unit, Vec3};
use vstd::prelude::*;

verus! {

/// A direction (or displacement) in space.
#[derive(Clone, Copy, Debug, PartialEq, Eq, Structural)]
pub struct Dir(pub Vec3);

/// A direction from its three components.
pub fn dir(x: Float, y: Float, z: Float) -> (r: Dir)
    ensures
        r.0 == (Vec3 { x, y, z }),
{
    Dir(Vec3::new(x, y, z))
}

impl Dir {
    /// The zero direction.
    pub fn zero() -> (r: Dir)
        ensures
            r.0 == (Vec3 { x: 0i64, y: 0i64, z: 0i64 }),
    {
        Dir(Vec3::zero())
    }

    /// A direction from its three components.
    pub fn new(x: Float, y: Float, z: Float) -> (r: Dir)
        ensures
            r.0 == (Vec3 { x, y, z }),
    {
        Dir(Vec3::new(x, y, z))
    }

    /// The first component.
    pub fn x(self) -> (r: Float)
        ensures
            r == self.0.x,
    {
        self.0.x
    }

    /// The second component.
    pub fn y(self) -> (r: Float)
        ensures
            r == self.0.y,
    {
        self.0.y
    }

    /// The third component.
    pub fn z(self) -> (r: Float)
        ensures
            r == self.0.z,
    {
        self.0.z
    }

    /// Componentwise sum.
    pub fn add(self, o: Dir) -> (r: Dir)
        ensures
            r.0 == v_add(self.0, o.0),
    {
        Dir(self.0.add(o.0))
    }

    /// Componentwise difference.
    pub fn sub(self, o: Dir) -> (r: Dir)
        ensures
            r.0 == v_sub(self.0, o.0),
    {
        Dir(self.0.sub(o.0))
    }

    /// The opposite direction.
    pub fn neg(self) -> (r: Dir)
        ensures
            r.0 == v_neg(self.0),
    {
        Dir(self.0.neg())
    }

    /// Every component multiplied by `t`.
    pub fn scale(self, t: Float) -> (r: Dir)
        ensures
            r.0 == v_scale(self.0, t as int),
    {
        Dir(self.0.scale(t))
    }

    /// Every component divided by `t`.
    pub fn scale_div(self, t: Float) -> (r: Dir)
        ensures
            r.0 == v_scale_div(self.0, t as int),
    {
        Dir(self.0.scale_div(t))
    }

    /// The dot product.
    pub fn dot(self, o: Dir) -> (r: Float)
        ensures
            r as int == v_dot(self.0, o.0),
    {
        self.0.dot(o.0)
    }

    /// The cross product.
    pub fn cross(self, o: Dir) -> (r: Dir)
        ensures
            r.0 == v_cross(self.0, o.0),
    {
        Dir(self.0.cross(o.0))
    }

    /// The squared length.
    pub fn squared_length(self) -> (r: Float)
        ensures
            r as int == v_sqlen(self.0),
    {
        self.0.squared_length()
    }

    /// The length.
    pub fn length(self) -> (r: Float)
        ensures
            r as int == v_len(self.0),
    {
        self.0.length()
    }

    /// The unit vector in the same direction.
    pub fn unit_vector(self) -> (r: Dir)
        ensures
            r.0 == v_unit(self.0),
    {
        Dir(self.0.unit_vector())
    }

    /// Replaces the direction by its unit vector.
    pub fn make_unit_vector(&mut self)
        ensures
            final(self).0 == v_unit(old(self).0),
    {
        self.0.make_unit_vector();
    }
}

} // verus!
