//! The ray/primitive intersection protocol.
//!
//! A [`Hitable`] is anything a ray can be tested against: a sphere, a
//! moving sphere, a flat unordered list, a bounding-volume hierarchy node,
//! or a stats-recording wrapper around any of these.  Every intersection
//! query answers the nearest hit within a parametric window, and carries an
//! exact contract: [`spec_hit`] pins the returned hit down to the last
//! fixed-point unit, and [`spec_hit_trace`] pins the instrumentation
//! counters.

pub mod bounding_box;
pub mod equivalence;
pub mod list;
pub mod moving_sphere;
pub mod sphere;
pub mod stats;

use crate::fx::Float;
use crate::hitable::bounding_box::{BoundingBox, BoundingHierarchy, spec_box_hit};
use crate::hitable::list::{spec_list_bbox, spec_list_hit, spec_list_trace, HitableList};
use crate::hitable::moving_sphere::{spec_moving_sphere_bbox, spec_moving_sphere_hit, MovingSphere};
use crate::hitable::sphere::{spec_sphere_bbox, spec_sphere_hit, Sphere};
use crate::hitable::stats::{spec_stats_hit, spec_stats_miss, Category, Stats, StatsRecorder};
use crate::material::Material;
use crate::ray::Ray;
use crate::vec3::dir::Dir;
use crate::vec3::pos::Pos;
use vstd::prelude::*;

verus! {

/// A successful intersection: the parametric distance, the hit point, the
/// surface normal (not sign-corrected against the ray), and the material at
/// the hit point, borrowed from the primitive.
#[derive(Debug)]
pub struct HitRecord<'a> {
    pub t: Float,
    pub p: Pos,
    pub normal: Dir,
    pub mat: &'a Material,
}

/// The value of a hit record, with the material by value: what the
/// intersection contracts speak about.
#[derive(Debug)]
pub struct HitView {
    pub t: Float,
    pub p: Pos,
    pub normal: Dir,
    pub mat: Material,
}

/// The value of a hit record.
pub open spec fn record_view<'a>(r: HitRecord<'a>) -> HitView {
    HitView { t: r.t, p: r.p, normal: r.normal, mat: *r.mat }
}

/// The value of an optional hit record.
pub open spec fn hit_view<'a>(o: Option<HitRecord<'a>>) -> Option<HitView> {
    match o {
        Some(r) => Some(record_view(r)),
        None => None,
    }
}

/// Anything a ray can be tested against.
#[derive(Debug)]
pub enum Hitable {
    Sphere(Sphere),
    MovingSphere(MovingSphere),
    List(HitableList),
    Node(Box<BoundingHierarchy>),
    Traced(Box<StatsRecorder>),
}

/// Of two optional hits, the nearer one; an existing hit beats none, and
/// the first argument is kept when the distances tie.
pub open spec fn better(prev: Option<HitView>, cur: Option<HitView>) -> Option<HitView> {
    match (prev, cur) {
        (Some(p), Some(c)) => if c.t < p.t {
            cur
        } else {
            prev
        },
        (None, _) => cur,
        (_, None) => prev,
    }
}

/// The hit that a query on `h` returns: the nearest intersection within the
/// open window `(t_min, t_max)`, exactly as the fixed-point evaluation
/// computes it.
pub open spec fn spec_hit(h: Hitable, r: Ray, t_min: int, t_max: int) -> Option<HitView>
    decreases h,
{
    match h {
        Hitable::Sphere(s) => spec_sphere_hit(s, r, t_min, t_max),
        Hitable::MovingSphere(s) => spec_moving_sphere_hit(s, r, t_min, t_max),
        Hitable::List(l) => spec_list_hit(l.list@, r, t_min, t_max),
        Hitable::Node(n) => if spec_box_hit(n.bounds, r, t_min, t_max) {
            better(spec_hit(n.left, r, t_min, t_max), spec_hit(n.right, r, t_min, t_max))
        } else {
            None
        },
        Hitable::Traced(w) => spec_hit(w.hitable, r, t_min, t_max),
    }
}

/// The instrumentation counters after a query on `h`: each stats-recording
/// wrapper in the tree counts whether the query below it hit or missed.
pub open spec fn spec_hit_trace(h: Hitable, s: Stats, r: Ray, t_min: int, t_max: int) -> Stats
    decreases h,
{
    match h {
        Hitable::Sphere(_) => s,
        Hitable::MovingSphere(_) => s,
        Hitable::List(l) => spec_list_trace(l.list@, s, r, t_min, t_max),
        Hitable::Node(n) => if spec_box_hit(n.bounds, r, t_min, t_max) {
            spec_hit_trace(
                n.right,
                spec_hit_trace(n.left, s, r, t_min, t_max),
                r,
                t_min,
                t_max,
            )
        } else {
            s
        },
        Hitable::Traced(w) => {
            let inner = spec_hit_trace(w.hitable, s, r, t_min, t_max);
            if spec_hit(w.hitable, r, t_min, t_max) is Some {
                spec_stats_hit(inner, w.category)
            } else {
                spec_stats_miss(inner, w.category)
            }
        },
    }
}

/// The bounding box that `h` reports over the time interval `(t0, t1)`:
/// absent exactly when an empty list stands somewhere in `h`.
pub open spec fn spec_bbox(h: Hitable, t0: int, t1: int) -> Option<BoundingBox>
    decreases h,
{
    match h {
        Hitable::Sphere(s) => Some(spec_sphere_bbox(s)),
        Hitable::MovingSphere(s) => Some(spec_moving_sphere_bbox(s, t0, t1)),
        Hitable::List(l) => spec_list_bbox(l.list@, t0, t1),
        Hitable::Node(n) => Some(n.bounds),
        Hitable::Traced(w) => spec_bbox(w.hitable, t0, t1),
    }
}

/// Whether every part of `h` has a bounding box: no empty list stands
/// anywhere in it.  Only such hitables can enter hierarchy construction.
pub open spec fn has_box(h: Hitable) -> bool
    decreases h,
{
    match h {
        Hitable::Sphere(_) => true,
        Hitable::MovingSphere(_) => true,
        Hitable::List(l) => l.list@.len() > 0 && (forall|i: int|
            0 <= i < l.list@.len() ==> has_box(#[trigger] l.list@[i])),
        Hitable::Node(_) => true,
        Hitable::Traced(w) => has_box(w.hitable),
    }
}

impl Hitable {
    /// The nearest intersection of the ray with this hitable inside the
    /// open window `(t_min, t_max)`, counting outcomes into `c` at each
    /// stats-recording wrapper.
    pub fn hit<'a>(&'a self, c: &mut Stats, r: &Ray, t_min: Float, t_max: Float) -> (res: Option<
        HitRecord<'a>,
    >)
        ensures
            hit_view(res) == spec_hit(*self, *r, t_min as int, t_max as int),
            *final(c) == spec_hit_trace(*self, *old(c), *r, t_min as int, t_max as int),
        decreases *self,
    {
        match self {
            Hitable::Sphere(s) => s.hit(c, r, t_min, t_max),
            Hitable::MovingSphere(s) => s.hit(c, r, t_min, t_max),
            Hitable::List(l) => l.hit(c, r, t_min, t_max),
            Hitable::Node(n) => n.hit(c, r, t_min, t_max),
            Hitable::Traced(w) => w.hit(c, r, t_min, t_max),
        }
    }

    /// The bounding box of this hitable over the time interval `(t0, t1)`,
    /// absent exactly when an empty list stands somewhere in it.
    pub fn bounding_box(&self, t0: Float, t1: Float) -> (res: Option<BoundingBox>)
        ensures
            res == spec_bbox(*self, t0 as int, t1 as int),
            has_box(*self) ==> res is Some,
        decreases *self,
    {
        match self {
            Hitable::Sphere(s) => Some(s.bounding_box(t0, t1)),
            Hitable::MovingSphere(s) => Some(s.bounding_box(t0, t1)),
            Hitable::List(l) => l.bounding_box(t0, t1),
            Hitable::Node(n) => Some(n.bounding_box(t0, t1)),
            Hitable::Traced(w) => w.bounding_box(t0, t1),
        }
    }
}

/// The factory that builds plain hitables, without instrumentation.
pub struct PlainHitableFactory;

impl PlainHitableFactory {
    /// A sphere.
    pub fn sphere(&self, center: Pos, radius: Float, mat: Material) -> (h: Hitable)
        ensures
            h == Hitable::Sphere(Sphere { center, radius, mat }),
    {
        Hitable::Sphere(Sphere::new(center, radius, mat))
    }

    /// A sphere whose centre moves linearly over a time interval.
    pub fn moving_sphere(
        &self,
        cen0: Pos,
        cen1: Pos,
        t0: Float,
        t1: Float,
        radius: Float,
        mat: Material,
    ) -> (h: Hitable)
        ensures
            h == Hitable::MovingSphere(
                MovingSphere { center0: cen0, center1: cen1, time0: t0, time1: t1, radius, mat },
            ),
    {
        Hitable::MovingSphere(MovingSphere::new(cen0, cen1, t0, t1, radius, mat))
    }

    /// A flat unordered collection.
    pub fn hitable_list(&self, list: Vec<Hitable>) -> (h: Hitable)
        ensures
            h matches Hitable::List(l) && l.list == list,
    {
        Hitable::List(HitableList::new(list))
    }

    /// A bounding-volume hierarchy over the list.
    pub fn bounding_hierarchy(&self, list: Vec<Hitable>, time0: Float, time1: Float) -> (h:
        Hitable)
        requires
            list@.len() >= 1,
            forall|i: int| 0 <= i < list@.len() ==> has_box(#[trigger] list@[i]),
            forall|i: int|
                0 <= i < list@.len() ==> crate::hitable::bounding_box::exact_bounds(
                    #[trigger] list@[i],
                    time0 as int,
                    time1 as int,
                ),
        ensures
            has_box(h),
            crate::hitable::bounding_box::exact_bounds(h, time0 as int, time1 as int),
            crate::hitable::bounding_box::well_bounded(h, time0 as int, time1 as int),
            crate::hitable::equivalence::leaves(h).to_multiset()
                == crate::hitable::equivalence::leaves_of_seq(list@).to_multiset(),
            list@.len() == 1 ==> h == list@[0],
            list@.len() >= 2 ==> crate::hitable::bounding_box::built_node(h, false) is Some,
            list@.len() == 2 ==> ({
                &&& crate::hitable::bounding_box::built_node(h, false) matches Some(bn)
                &&& bn.left == list@[0]
                &&& bn.right == list@[1]
            }),
    {
        BoundingHierarchy::build(false, list, time0, time1)
    }
}

/// The factory that wraps every hitable it builds in a stats recorder, so
/// that a render can report hit and miss counts per primitive category.
pub struct TracingHitableFactory;

impl TracingHitableFactory {
    /// A sphere, with its queries counted.
    pub fn sphere(&self, center: Pos, radius: Float, mat: Material) -> (h: Hitable)
        ensures
            h matches Hitable::Traced(w) && w.category == Category::Sphere && w.hitable
                == Hitable::Sphere(Sphere { center, radius, mat }),
    {
        Hitable::Traced(
            Box::new(
                StatsRecorder::new(Category::Sphere, Hitable::Sphere(Sphere::new(center, radius, mat))),
            ),
        )
    }

    /// A moving sphere, with its queries counted.
    pub fn moving_sphere(
        &self,
        cen0: Pos,
        cen1: Pos,
        t0: Float,
        t1: Float,
        radius: Float,
        mat: Material,
    ) -> (h: Hitable)
        ensures
            h matches Hitable::Traced(w) && w.category == Category::MovingSphere && w.hitable
                == Hitable::MovingSphere(
                MovingSphere { center0: cen0, center1: cen1, time0: t0, time1: t1, radius, mat },
            ),
    {
        Hitable::Traced(
            Box::new(
                StatsRecorder::new(
                    Category::MovingSphere,
                    Hitable::MovingSphere(MovingSphere::new(cen0, cen1, t0, t1, radius, mat)),
                ),
            ),
        )
    }

    /// A flat unordered collection, with its queries counted.
    pub fn hitable_list(&self, list: Vec<Hitable>) -> (h: Hitable)
        ensures
            ({
                &&& h matches Hitable::Traced(w)
                &&& w.category == Category::List
                &&& w.hitable matches Hitable::List(l)
                &&& l.list == list
            }),
    {
        Hitable::Traced(
            Box::new(StatsRecorder::new(Category::List, Hitable::List(HitableList::new(list)))),
        )
    }

    /// A bounding-volume hierarchy whose every node counts its queries.
    pub fn bounding_hierarchy(&self, list: Vec<Hitable>, time0: Float, time1: Float) -> (h:
        Hitable)
        requires
            list@.len() >= 1,
            forall|i: int| 0 <= i < list@.len() ==> has_box(#[trigger] list@[i]),
            forall|i: int|
                0 <= i < list@.len() ==> crate::hitable::bounding_box::exact_bounds(
                    #[trigger] list@[i],
                    time0 as int,
                    time1 as int,
                ),
        ensures
            has_box(h),
            crate::hitable::bounding_box::exact_bounds(h, time0 as int, time1 as int),
            crate::hitable::bounding_box::well_bounded(h, time0 as int, time1 as int),
            crate::hitable::equivalence::leaves(h).to_multiset()
                == crate::hitable::equivalence::leaves_of_seq(list@).to_multiset(),
            list@.len() == 1 ==> h == list@[0],
            list@.len() >= 2 ==> crate::hitable::bounding_box::built_node(h, true) is Some,
            list@.len() == 2 ==> ({
                &&& crate::hitable::bounding_box::built_node(h, true) matches Some(bn)
                &&& bn.left == list@[0]
                &&& bn.right == list@[1]
            }),
    {
        BoundingHierarchy::build(true, list, time0, time1)
    }
}

} // verus!
