//! Rays: the query primitive for intersection.

use crate::fx::Float;
use crate::vec3::dir::Dir;
use crate::vec3::pos::Pos;
use crate::vec3::{v_add, v_scale};
use vstd::prelude::*;

verus! {

/// A ray: origin, direction, and the shutter time used to interpolate
/// moving geometry.  Immutable once constructed.
#[derive(Clone, Copy, Debug, PartialEq, Eq, Structural)]
pub struct Ray {
    pub a: Pos,
    pub b: Dir,
    pub time: Float,
}

/// The point `origin + t * direction`, in fixed-point arithmetic.
pub open spec fn ray_at(r: Ray, t: int) -> Pos {
    Pos(v_add(r.a.0, v_scale(r.b.0, t)))
}

impl Ray {
    /// A ray from origin, direction and time.
    pub fn new(a: Pos, b: Dir, ti: Float) -> (r: Ray)
        ensures
            r == (Ray { a, b, time: ti }),
    {
        Ray { a, b, time: ti }
    }

    /// The ray's origin.
    pub fn origin(&self) -> (p: Pos)
        ensures
            p == self.a,
    {
        self.a
    }

    /// The ray's direction.
    pub fn direction(&self) -> (d: Dir)
        ensures
            d == self.b,
    {
        self.b
    }

    /// The ray's shutter time.
    pub fn time(&self) -> (t: Float)
        ensures
            t == self.time,
    {
        self.time
    }

    /// The point at parameter `t` along the ray.
    pub fn point_at(&self, t: Float) -> (p: Pos)
        ensures
            p == ray_at(*self, t as int),
    {
        self.a.offset(self.b.scale(t))
    }

    /// The origin, seen as a spec value.
    pub open spec fn spec_origin(self) -> Pos {
        self.a
    }

    /// The direction, seen as a spec value.
    pub open spec fn spec_direction(self) -> Dir {
        self.b
    }

    /// The time, seen as a spec value.
    pub open spec fn spec_time(self) -> Float {
        self.time
    }
}

} // verus!
