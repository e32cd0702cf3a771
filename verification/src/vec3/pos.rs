//! Positions in space.

use crate::fx::Float;
use crate::vec3::dir::Dir;
use crate::vec3::{v_add, v_sub, Vec3};
use vstd::prelude::*;

verus! {

/// A point in space.
#[derive(Clone, Copy, Debug, PartialEq, Eq, Structural)]
pub struct Pos(pub Vec3);

/// A position from its three components.
pub fn pos(x: Float, y: Float, z: Float) -> (r: Pos)
    ensures
        r.0 == (Vec3 { x, y, z }),
{
    Pos(Vec3::new(x, y, z))
}

impl Pos {
    /// The origin.
    pub fn zero() -> (r: Pos)
        ensures
            r.0 == (Vec3 { x: 0i64, y: 0i64, z: 0i64 }),
    {
        Pos(Vec3::zero())
    }

    /// A position from its three components.
    pub fn new(x: Float, y: Float, z: Float) -> (r: Pos)
        ensures
            r.0 == (Vec3 { x, y, z }),
    {
        Pos(Vec3::new(x, y, z))
    }

    /// The first component.
    pub fn x(self) -> (r: Float)
        ensures
            r == self.0.x,
    {
        self.0.x
    }

    /// The second component.
    pub fn y(self) -> (r: Float)
        ensures
            r == self.0.y,
    {
        self.0.y
    }

    /// The third component.
    pub fn z(self) -> (r: Float)
        ensures
            r == self.0.z,
    {
        self.0.z
    }

    /// The position displaced by a direction.
    pub fn offset(self, d: Dir) -> (r: Pos)
        ensures
            r.0 == v_add(self.0, d.0),
    {
        Pos(self.0.add(d.0))
    }

    /// The displacement from `o` to `self`.
    pub fn sub(self, o: Pos) -> (r: Dir)
        ensures
            r.0 == v_sub(self.0, o.0),
    {
        Dir(self.0.sub(o.0))
    }

    /// The position displaced against a direction.
    pub fn sub_dir(self, d: Dir) -> (r: Pos)
        ensures
            r.0 == v_sub(self.0, d.0),
    {
        Pos(self.0.sub(d.0))
    }
}

} // verus!
