//! Colours.

use crate::fx::Float;
use crate::vec3::{v_add, v_mul, v_scale, v_scale_div, Vec3};
use vstd::prelude::*;

verus! {

/// A colour with fixed-point red, green and blue channels.
#[derive(Clone, Copy, Debug, PartialEq, Eq, Structural)]
pub struct Col(pub Vec3);

/// A colour from its three channels.
pub fn col(r: Float, g: Float, b: Float) -> (c: Col)
    ensures
        c.0 == (Vec3 { x: r, y: g, z: b }),
{
    Col(Vec3::new(r, g, b))
}

impl Col {
    /// Black, as a spec value.
    pub open spec fn spec_zero() -> Col {
        Col(Vec3 { x: 0i64, y: 0i64, z: 0i64 })
    }

    /// Black.
    pub fn zero() -> (c: Col)
        ensures
            c == Col::spec_zero(),
    {
        Col(Vec3::zero())
    }

    /// A colour from its three channels.
    pub fn new(r: Float, g: Float, b: Float) -> (c: Col)
        ensures
            c.0 == (Vec3 { x: r, y: g, z: b }),
    {
        Col(Vec3::new(r, g, b))
    }

    /// The red channel.
    pub fn r(self) -> (v: Float)
        ensures
            v == self.0.x,
    {
        self.0.x
    }

    /// The green channel.
    pub fn g(self) -> (v: Float)
        ensures
            v == self.0.y,
    {
        self.0.y
    }

    /// The blue channel.
    pub fn b(self) -> (v: Float)
        ensures
            v == self.0.z,
    {
        self.0.z
    }

    /// Channelwise sum.
    pub fn add(self, o: Col) -> (c: Col)
        ensures
            c.0 == v_add(self.0, o.0),
    {
        Col(self.0.add(o.0))
    }

    /// Channelwise product.
    pub fn mul(self, o: Col) -> (c: Col)
        ensures
            c.0 == v_mul(self.0, o.0),
    {
        Col(self.0.mul(o.0))
    }

    /// Every channel multiplied by `t`.
    pub fn scale(self, t: Float) -> (c: Col)
        ensures
            c.0 == v_scale(self.0, t as int),
    {
        Col(self.0.scale(t))
    }

    /// Every channel divided by `t`.
    pub fn scale_div(self, t: Float) -> (c: Col)
        ensures
            c.0 == v_scale_div(self.0, t as int),
    {
        Col(self.0.scale_div(t))
    }
}

} // verus!
