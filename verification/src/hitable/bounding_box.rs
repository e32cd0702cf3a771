//! Axis-aligned bounding boxes and the bounding-volume hierarchy.
//!
//! A [`BoundingBox`] is a min/max corner pair with a fast slab intersection
//! test and a `surrounding` merge used to build parent bounds bottom-up.
//! [`BoundingHierarchy::build`] partitions a primitive collection into a
//! binary tree by sorting along a randomly drawn axis and splitting at the
//! median; queries prune whole subtrees whose box the ray misses.

use crate::fx::{fdiv, fmul, fsub, fmin, fmax, fx_div, fx_min, fx_max, fx_mul, fx_sub, Float, SCALE};
use crate::hitable::equivalence::{
    leaves, leaves_of_seq, lemma_leaves_node, lemma_leaves_pair, lemma_leaves_single,
    lemma_leaves_split,
};
use crate::hitable::stats::{Category, Stats, StatsRecorder};
use crate::hitable::{
    better, has_box, hit_view, spec_bbox, spec_hit, spec_hit_trace, HitRecord, Hitable,
};
use crate::ray::Ray;
use crate::vec3::pos::Pos;
use crate::vec3::Vec3;
use rand::Rng;
use vstd::prelude::*;

verus! {

broadcast use vstd::seq_lib::group_to_multiset_ensures;

/// An axis-aligned box: a min/max corner pair.  A well-formed box has
/// `min[i] <= max[i]` on every axis; a sphere of negative radius reports a
/// degenerate box, which the slab test then never accepts.
#[derive(Clone, Copy, Debug, PartialEq, Eq, Structural)]
pub struct BoundingBox {
    pub min: Pos,
    pub max: Pos,
}

/// The componentwise min/max merge of two boxes.
pub open spec fn spec_surrounding(b0: BoundingBox, b1: BoundingBox) -> BoundingBox {
    BoundingBox {
        min: Pos(
            Vec3 {
                x: fx_min(b0.min.0.x as int, b1.min.0.x as int) as i64,
                y: fx_min(b0.min.0.y as int, b1.min.0.y as int) as i64,
                z: fx_min(b0.min.0.z as int, b1.min.0.z as int) as i64,
            },
        ),
        max: Pos(
            Vec3 {
                x: fx_max(b0.max.0.x as int, b1.max.0.x as int) as i64,
                y: fx_max(b0.max.0.y as int, b1.max.0.y as int) as i64,
                z: fx_max(b0.max.0.z as int, b1.max.0.z as int) as i64,
            },
        ),
    }
}

/// Whether `outer` contains `inner` entirely, corner by corner.
pub open spec fn box_contains(outer: BoundingBox, inner: BoundingBox) -> bool {
    &&& outer.min.0.x <= inner.min.0.x
    &&& outer.min.0.y <= inner.min.0.y
    &&& outer.min.0.z <= inner.min.0.z
    &&& inner.max.0.x <= outer.max.0.x
    &&& inner.max.0.y <= outer.max.0.y
    &&& inner.max.0.z <= outer.max.0.z
}

/// The surrounding box contains both of its arguments entirely, and it is
/// the tightest such box: any box containing both contains it.
pub proof fn lemma_surrounding_tightest(b0: BoundingBox, b1: BoundingBox)
    ensures
        box_contains(spec_surrounding(b0, b1), b0),
        box_contains(spec_surrounding(b0, b1), b1),
        forall|c: BoundingBox|
            box_contains(c, b0) && box_contains(c, b1) ==> box_contains(
                c,
                spec_surrounding(b0, b1),
            ),
{
}

/// One axis of the slab test: the entry/exit times of the two planes,
/// swapped when the direction is negative, shrink the running window.  A
/// ray parallel to the axis never crosses the slab planes, so a zero
/// direction component leaves the window unchanged when the origin lies
/// within the slab and empties it otherwise — the limit of the entry and
/// exit times as the direction vanishes.
pub open spec fn slab_update(minc: int, maxc: int, o: int, d: int, tmin: int, tmax: int) -> (
    int,
    int,
) {
    if d == 0 {
        if o < minc || o > maxc {
            (tmin, tmin)
        } else {
            (tmin, tmax)
        }
    } else {
        slab_cross(minc, maxc, o, d, tmin, tmax)
    }
}

/// The slab window of an axis the ray crosses: entry and exit times by the
/// reciprocal of the direction component.
pub open spec fn slab_cross(minc: int, maxc: int, o: int, d: int, tmin: int, tmax: int) -> (
    int,
    int,
) {
    let inv = fx_div(SCALE as int, d);
    let ta = fx_mul(fx_sub(minc, o), inv);
    let tb = fx_mul(fx_sub(maxc, o), inv);
    let t0 = if inv < 0 {
        tb
    } else {
        ta
    };
    let t1 = if inv < 0 {
        ta
    } else {
        tb
    };
    ((if t0 > tmin {
        t0
    } else {
        tmin
    }), (if t1 < tmax {
        t1
    } else {
        tmax
    }))
}

/// Whether the ray's parametric window survives the slab test on all three
/// axes: the box is hit exactly when the shrunken window stays nonempty
/// through every axis.
pub open spec fn spec_box_hit(bb: BoundingBox, r: Ray, tmin: int, tmax: int) -> bool {
    let x = slab_update(
        bb.min.0.x as int,
        bb.max.0.x as int,
        r.a.0.x as int,
        r.b.0.x as int,
        tmin,
        tmax,
    );
    if x.1 <= x.0 {
        false
    } else {
        let y = slab_update(
            bb.min.0.y as int,
            bb.max.0.y as int,
            r.a.0.y as int,
            r.b.0.y as int,
            x.0,
            x.1,
        );
        if y.1 <= y.0 {
            false
        } else {
            let z = slab_update(
                bb.min.0.z as int,
                bb.max.0.z as int,
                r.a.0.z as int,
                r.b.0.z as int,
                y.0,
                y.1,
            );
            z.1 > z.0
        }
    }
}

/// A ray parallel to an axis, with its origin outside that axis's slab on
/// either side, misses the box: the window empties on that axis whatever
/// the query window was.
pub proof fn lemma_parallel_outside_slab_misses(bb: BoundingBox, r: Ray, tmin: int, tmax: int)
    requires
        ({
            ||| (r.b.0.x == 0 && (r.a.0.x < bb.min.0.x || r.a.0.x > bb.max.0.x))
            ||| (r.b.0.y == 0 && (r.a.0.y < bb.min.0.y || r.a.0.y > bb.max.0.y))
            ||| (r.b.0.z == 0 && (r.a.0.z < bb.min.0.z || r.a.0.z > bb.max.0.z))
        }),
    ensures
        !spec_box_hit(bb, r, tmin, tmax),
{
}

/// The slab entry time of an axis crossed at unit speed.
pub open spec fn axis_entry(minc: int, maxc: int, o: int, d: int) -> int {
    if d > 0 {
        minc - o
    } else {
        o - maxc
    }
}

/// The slab exit time of an axis crossed at unit speed.
pub open spec fn axis_exit(minc: int, maxc: int, o: int, d: int) -> int {
    if d > 0 {
        maxc - o
    } else {
        o - minc
    }
}

/// Whether the unit-speed slab crossing overlaps the query window.
pub open spec fn slab_window_overlaps(
    minc: int,
    maxc: int,
    o: int,
    d: int,
    tmin: int,
    tmax: int,
) -> bool {
    (if axis_entry(minc, maxc, o, d) > tmin {
        axis_entry(minc, maxc, o, d)
    } else {
        tmin
    }) < (if axis_exit(minc, maxc, o, d) < tmax {
        axis_exit(minc, maxc, o, d)
    } else {
        tmax
    })
}

/// Whether both plane offsets of an axis stay inside the machine range,
/// so the slab times cannot saturate.
pub open spec fn slab_diffs_in_range(minc: int, maxc: int, o: int) -> bool {
    &&& -(i64::MAX as int) <= minc - o <= i64::MAX as int
    &&& -(i64::MAX as int) <= maxc - o <= i64::MAX as int
}

/// At unit speed along an axis, the slab times are exact: the window
/// shrinks exactly to the plane offsets.
proof fn lemma_slab_unit_axis(minc: int, maxc: int, o: int, d: int, tmin: int, tmax: int)
    requires
        d == SCALE as int || d == -(SCALE as int),
        slab_diffs_in_range(minc, maxc, o),
    ensures
        slab_update(minc, maxc, o, d, tmin, tmax).0 == (if axis_entry(minc, maxc, o, d) > tmin {
            axis_entry(minc, maxc, o, d)
        } else {
            tmin
        }),
        slab_update(minc, maxc, o, d, tmin, tmax).1 == (if axis_exit(minc, maxc, o, d) < tmax {
            axis_exit(minc, maxc, o, d)
        } else {
            tmax
        }),
{
    let s = SCALE as int;
    vstd::arithmetic::div_mod::lemma_div_multiples_vanish(s, s);
    if d == s {
        assert(fx_div(s, s) == s);
        crate::fx::lemma_fx_mul_one(fx_sub(minc, o));
        crate::fx::lemma_fx_mul_one(fx_sub(maxc, o));
    } else {
        assert(fx_div(s, -s) == -s);
        crate::fx::lemma_fx_mul_neg_one(fx_sub(minc, o));
        crate::fx::lemma_fx_mul_neg_one(fx_sub(maxc, o));
    }
}

/// For an axis-aligned unit-speed ray that starts inside the other two
/// slabs, the box test is exact: it accepts the ray if and only if the
/// crossing of its own slab overlaps the query window.  In particular
/// every such ray through the box's interior hits, and every such ray
/// whose crossing misses the window is pruned.
pub proof fn lemma_axis_ray_box_test_exact(bb: BoundingBox, r: Ray, tmin: int, tmax: int)
    requires
        ({
            ||| ({
                &&& (r.b.0.x == SCALE || r.b.0.x == -(SCALE as int))
                &&& r.b.0.y == 0
                &&& r.b.0.z == 0
                &&& bb.min.0.y <= r.a.0.y <= bb.max.0.y
                &&& bb.min.0.z <= r.a.0.z <= bb.max.0.z
                &&& slab_diffs_in_range(bb.min.0.x as int, bb.max.0.x as int, r.a.0.x as int)
            })
            ||| ({
                &&& (r.b.0.y == SCALE || r.b.0.y == -(SCALE as int))
                &&& r.b.0.x == 0
                &&& r.b.0.z == 0
                &&& bb.min.0.x <= r.a.0.x <= bb.max.0.x
                &&& bb.min.0.z <= r.a.0.z <= bb.max.0.z
                &&& slab_diffs_in_range(bb.min.0.y as int, bb.max.0.y as int, r.a.0.y as int)
            })
            ||| ({
                &&& (r.b.0.z == SCALE || r.b.0.z == -(SCALE as int))
                &&& r.b.0.x == 0
                &&& r.b.0.y == 0
                &&& bb.min.0.x <= r.a.0.x <= bb.max.0.x
                &&& bb.min.0.y <= r.a.0.y <= bb.max.0.y
                &&& slab_diffs_in_range(bb.min.0.z as int, bb.max.0.z as int, r.a.0.z as int)
            })
        }),
    ensures
        r.b.0.x != 0 ==> spec_box_hit(bb, r, tmin, tmax) == slab_window_overlaps(
            bb.min.0.x as int,
            bb.max.0.x as int,
            r.a.0.x as int,
            r.b.0.x as int,
            tmin,
            tmax,
        ),
        r.b.0.y != 0 ==> spec_box_hit(bb, r, tmin, tmax) == slab_window_overlaps(
            bb.min.0.y as int,
            bb.max.0.y as int,
            r.a.0.y as int,
            r.b.0.y as int,
            tmin,
            tmax,
        ),
        r.b.0.z != 0 ==> spec_box_hit(bb, r, tmin, tmax) == slab_window_overlaps(
            bb.min.0.z as int,
            bb.max.0.z as int,
            r.a.0.z as int,
            r.b.0.z as int,
            tmin,
            tmax,
        ),
{
    if r.b.0.x != 0 {
        lemma_slab_unit_axis(
            bb.min.0.x as int,
            bb.max.0.x as int,
            r.a.0.x as int,
            r.b.0.x as int,
            tmin,
            tmax,
        );
    } else if r.b.0.y != 0 {
        lemma_slab_unit_axis(
            bb.min.0.y as int,
            bb.max.0.y as int,
            r.a.0.y as int,
            r.b.0.y as int,
            tmin,
            tmax,
        );
    } else {
        lemma_slab_unit_axis(
            bb.min.0.z as int,
            bb.max.0.z as int,
            r.a.0.z as int,
            r.b.0.z as int,
            tmin,
            tmax,
        );
    }
}

/// One exec axis of the slab test.
fn axis_update(minc: Float, maxc: Float, o: Float, d: Float, tmin: Float, tmax: Float) -> (r: (
    Float,
    Float,
))
    ensures
        r.0 as int == slab_update(minc as int, maxc as int, o as int, d as int, tmin as int, tmax as int).0,
        r.1 as int == slab_update(minc as int, maxc as int, o as int, d as int, tmin as int, tmax as int).1,
{
    if d == 0 {
        if o < minc || o > maxc {
            return (tmin, tmin);
        }
        return (tmin, tmax);
    }
    let inv = fdiv(SCALE, d);
    let ta = fmul(fsub(minc, o), inv);
    let tb = fmul(fsub(maxc, o), inv);
    let (t0, t1) = if inv < 0 {
        (tb, ta)
    } else {
        (ta, tb)
    };
    let nmin = if t0 > tmin {
        t0
    } else {
        tmin
    };
    let nmax = if t1 < tmax {
        t1
    } else {
        tmax
    };
    (nmin, nmax)
}

impl BoundingBox {
    /// A box from its two corners.
    pub fn new(min: Pos, max: Pos) -> (b: BoundingBox)
        ensures
            b == (BoundingBox { min, max }),
    {
        BoundingBox { min, max }
    }

    /// The componentwise min/max merge of two boxes: the tightest box that
    /// contains both.
    pub fn surrounding(box0: BoundingBox, box1: BoundingBox) -> (b: BoundingBox)
        ensures
            b == spec_surrounding(box0, box1),
    {
        BoundingBox {
            min: Pos(
                Vec3 {
                    x: fmin(box0.min.0.x, box1.min.0.x),
                    y: fmin(box0.min.0.y, box1.min.0.y),
                    z: fmin(box0.min.0.z, box1.min.0.z),
                },
            ),
            max: Pos(
                Vec3 {
                    x: fmax(box0.max.0.x, box1.max.0.x),
                    y: fmax(box0.max.0.y, box1.max.0.y),
                    z: fmax(box0.max.0.z, box1.max.0.z),
                },
            ),
        }
    }

    /// The slab test: whether the ray's window `(t_min, t_max)` survives
    /// shrinking by the entry and exit times of all three axis slabs.
    pub fn hit(&self, r: &Ray, t_min: Float, t_max: Float) -> (res: bool)
        ensures
            res == spec_box_hit(*self, *r, t_min as int, t_max as int),
    {
        let (xmin, xmax) = axis_update(self.min.0.x, self.max.0.x, r.a.0.x, r.b.0.x, t_min, t_max);
        if xmax <= xmin {
            return false;
        }
        let (ymin, ymax) = axis_update(self.min.0.y, self.max.0.y, r.a.0.y, r.b.0.y, xmin, xmax);
        if ymax <= ymin {
            return false;
        }
        let (zmin, zmax) = axis_update(self.min.0.z, self.max.0.z, r.a.0.z, r.b.0.z, ymin, ymax);
        zmax > zmin
    }
}

/// One of the three coordinate axes.
#[derive(Clone, Copy, Debug, PartialEq, Eq, Structural)]
pub enum Axis {
    X,
    Y,
    Z,
}

/// The component of a position along an axis.
pub open spec fn spec_axis_get(a: Axis, v: Pos) -> Float {
    match a {
        Axis::X => v.0.x,
        Axis::Y => v.0.y,
        Axis::Z => v.0.z,
    }
}

impl Axis {
    /// The component of a position along this axis.
    pub fn get(self, v: Pos) -> (r: Float)
        ensures
            r == spec_axis_get(self, v),
    {
        match self {
            Axis::X => v.0.x,
            Axis::Y => v.0.y,
            Axis::Z => v.0.z,
        }
    }
}

/// Relies on rand::Rng::gen_range with rand::thread_rng: one uniform draw
/// from `0..3`, used to pick the split axis.
#[verifier::external_body]
fn random_axis_index() -> (r: u32)
    ensures
        r < 3,
{
    rand::thread_rng().gen_range(0..3)
}

/// One of the three axes, drawn uniformly at random.
fn random_axis() -> (a: Axis) {
    match random_axis_index() {
        0 => Axis::X,
        1 => Axis::Y,
        _ => Axis::Z,
    }
}

/// The sort key of a hitable along an axis: the minimum corner of its
/// bounding box, or zero for a hitable without one (none enters a build).
pub open spec fn spec_key(h: Hitable, axis: Axis, t0: int, t1: int) -> Float {
    match spec_bbox(h, t0, t1) {
        Some(b) => spec_axis_get(axis, b.min),
        None => 0,
    }
}

/// Whether a sequence is ordered by the axis key.
pub open spec fn sorted_by_key(s: Seq<Hitable>, axis: Axis, t0: int, t1: int) -> bool {
    forall|i: int, j: int|
        0 <= i < j < s.len() ==> spec_key(#[trigger] s[i], axis, t0, t1) <= spec_key(
            #[trigger] s[j],
            axis,
            t0,
            t1,
        )
}

/// The axis key of one hitable.
fn sort_key(h: &Hitable, axis: Axis, t0: Float, t1: Float) -> (k: Float)
    ensures
        k == spec_key(*h, axis, t0 as int, t1 as int),
{
    match h.bounding_box(t0, t1) {
        Some(b) => axis.get(b.min),
        None => 0,
    }
}

/// Sorts the hitables by their bounding boxes' minimum corner along the
/// axis, by selection of the least remaining key.
fn sort_by_axis(list: Vec<Hitable>, axis: Axis, t0: Float, t1: Float) -> (out: Vec<Hitable>)
    ensures
        out@.len() == list@.len(),
        out@.to_multiset() == list@.to_multiset(),
        sorted_by_key(out@, axis, t0 as int, t1 as int),
        forall|i: int| 0 <= i < out@.len() ==> list@.contains(#[trigger] out@[i]),
{
    let ghost orig = list@;
    let mut src = list;
    let mut out: Vec<Hitable> = Vec::new();
    while src.len() > 0
        invariant
            out@.to_multiset().add(src@.to_multiset()) =~= orig.to_multiset(),
            out@.len() + src@.len() == orig.len(),
            sorted_by_key(out@, axis, t0 as int, t1 as int),
            forall|i: int, j: int|
                0 <= i < out@.len() && 0 <= j < src@.len() ==> spec_key(
                    #[trigger] out@[i],
                    axis,
                    t0 as int,
                    t1 as int,
                ) <= spec_key(#[trigger] src@[j], axis, t0 as int, t1 as int),
            forall|i: int| 0 <= i < out@.len() ==> orig.contains(#[trigger] out@[i]),
            forall|i: int| 0 <= i < src@.len() ==> orig.contains(#[trigger] src@[i]),
        decreases src@.len(),
    {
        let mut m: usize = 0;
        let mut mk = sort_key(&src[0], axis, t0, t1);
        let mut j: usize = 1;
        while j < src.len()
            invariant
                m < j <= src@.len(),
                src@.len() > 0,
                mk == spec_key(src@[m as int], axis, t0 as int, t1 as int),
                forall|k: int|
                    0 <= k < j ==> mk <= spec_key(#[trigger] src@[k], axis, t0 as int, t1 as int),
            decreases src@.len() - j,
        {
            let k = sort_key(&src[j], axis, t0, t1);
            if k < mk {
                m = j;
                mk = k;
            }
            j += 1;
        }
        let ghost src_before = src@;
        let x = src.remove(m);
        out.push(x);
        proof {
            assert(out@.to_multiset().add(src@.to_multiset()) =~= orig.to_multiset());
            assert(forall|i: int|
                0 <= i < src@.len() ==> src_before.contains(#[trigger] src@[i]));
            assert(forall|i: int|
                0 <= i < out@.len() ==> orig.contains(#[trigger] out@[i]));
        }
    }
    out
}

/// A binary tree node of the bounding-volume hierarchy: its own bound and
/// two children.
#[derive(Debug)]
pub struct BoundingHierarchy {
    pub bounds: BoundingBox,
    pub left: Hitable,
    pub right: Hitable,
}

/// Whether every hierarchy node's bound contains its children's boxes, so
/// that pruning by a node's box can only discard geometry outside it.
pub open spec fn well_bounded(h: Hitable, t0: int, t1: int) -> bool
    decreases h,
{
    match h {
        Hitable::Node(n) => {
            &&& spec_bbox(n.left, t0, t1) matches Some(lb) && box_contains(n.bounds, lb)
            &&& spec_bbox(n.right, t0, t1) matches Some(rb) && box_contains(n.bounds, rb)
            &&& well_bounded(n.left, t0, t1)
            &&& well_bounded(n.right, t0, t1)
        },
        Hitable::Traced(w) => well_bounded(w.hitable, t0, t1),
        _ => true,
    }
}

/// Whether every hierarchy node's bound is exactly the surrounding merge
/// of its children's boxes, as construction computes it.  This implies
/// containment ([`lemma_exact_bounds_well_bounded`]).
pub open spec fn exact_bounds(h: Hitable, t0: int, t1: int) -> bool
    decreases h,
{
    match h {
        Hitable::Node(n) => {
            &&& spec_bbox(n.left, t0, t1) matches Some(lb)
            &&& spec_bbox(n.right, t0, t1) matches Some(rb)
            &&& n.bounds == spec_surrounding(lb, rb)
            &&& exact_bounds(n.left, t0, t1)
            &&& exact_bounds(n.right, t0, t1)
        },
        Hitable::Traced(w) => exact_bounds(w.hitable, t0, t1),
        _ => true,
    }
}

/// A bound that is exactly the merge of its children's boxes contains
/// them: exact bounds imply well-boundedness.
pub proof fn lemma_exact_bounds_well_bounded(h: Hitable, t0: int, t1: int)
    requires
        exact_bounds(h, t0, t1),
    ensures
        well_bounded(h, t0, t1),
    decreases h,
{
    match h {
        Hitable::Node(n) => {
            lemma_exact_bounds_well_bounded(n.left, t0, t1);
            lemma_exact_bounds_well_bounded(n.right, t0, t1);
            let lb = spec_bbox(n.left, t0, t1)->0;
            let rb = spec_bbox(n.right, t0, t1)->0;
            lemma_surrounding_tightest(lb, rb);
        },
        Hitable::Traced(w) => {
            lemma_exact_bounds_well_bounded(w.hitable, t0, t1);
        },
        _ => {
        },
    }
}

/// The hierarchy node a build returns, behind its stats wrapper when
/// tracing: the shape every construction over two or more primitives
/// takes.
pub open spec fn built_node(h: Hitable, traced: bool) -> Option<BoundingHierarchy> {
    match h {
        Hitable::Node(n) => if !traced {
            Some(*n)
        } else {
            None
        },
        Hitable::Traced(w) => if traced && w.category == Category::BoundingBox {
            match w.hitable {
                Hitable::Node(n) => Some(*n),
                _ => None,
            }
        } else {
            None
        },
        _ => None,
    }
}

impl BoundingHierarchy {
    /// The nearest intersection inside `(t_min, t_max)`: nothing when the
    /// node's box rejects the ray, else the nearer of the two children's
    /// hits, probed over the same window.
    pub fn hit<'a>(&'a self, c: &mut Stats, r: &Ray, t_min: Float, t_max: Float) -> (res: Option<
        HitRecord<'a>,
    >)
        ensures
            hit_view(res) == (if spec_box_hit(self.bounds, *r, t_min as int, t_max as int) {
                better(
                    spec_hit(self.left, *r, t_min as int, t_max as int),
                    spec_hit(self.right, *r, t_min as int, t_max as int),
                )
            } else {
                None
            }),
            *final(c) == (if spec_box_hit(self.bounds, *r, t_min as int, t_max as int) {
                spec_hit_trace(
                    self.right,
                    spec_hit_trace(self.left, *old(c), *r, t_min as int, t_max as int),
                    *r,
                    t_min as int,
                    t_max as int,
                )
            } else {
                *old(c)
            }),
        decreases self,
    {
        if self.bounds.hit(r, t_min, t_max) {
            let left = self.left.hit(c, r, t_min, t_max);
            let right = self.right.hit(c, r, t_min, t_max);
            match (&left, &right) {
                (Some(l), Some(rr)) => if l.t <= rr.t {
                    left
                } else {
                    right
                },
                (None, _) => right,
                _ => left,
            }
        } else {
            None
        }
    }

    /// The node's own bound.
    pub fn bounding_box(&self, _t0: Float, _t1: Float) -> (b: BoundingBox)
        ensures
            b == self.bounds,
    {
        self.bounds
    }

    /// Builds a hierarchy over the collection.  One hitable stands alone;
    /// two become the children of a single node; more are sorted by their
    /// bounds along a random axis and split at the median, recursively.
    /// Each node's bound is the surrounding merge of its children's, so
    /// the result is well bounded whatever axes were drawn.  With `traced`,
    /// every built node records its queries under the bounding-box
    /// category.
    pub fn build(traced: bool, list: Vec<Hitable>, time0: Float, time1: Float) -> (h: Hitable)
        requires
            list@.len() >= 1,
            forall|i: int| 0 <= i < list@.len() ==> has_box(#[trigger] list@[i]),
            forall|i: int|
                0 <= i < list@.len() ==> exact_bounds(
                    #[trigger] list@[i],
                    time0 as int,
                    time1 as int,
                ),
        ensures
            has_box(h),
            exact_bounds(h, time0 as int, time1 as int),
            well_bounded(h, time0 as int, time1 as int),
            leaves(h).to_multiset() == leaves_of_seq(list@).to_multiset(),
            list@.len() == 1 ==> h == list@[0],
            list@.len() >= 2 ==> built_node(h, traced) is Some,
            list@.len() == 2 ==> ({
                &&& built_node(h, traced) matches Some(bn)
                &&& bn.left == list@[0]
                &&& bn.right == list@[1]
            }),
        decreases list@.len(),
    {
        let ghost ti0 = time0 as int;
        let ghost ti1 = time1 as int;
        let ghost orig = list@;
        let n = list.len();
        let mut list = list;
        if n == 1 {
            proof {
                assert(list@.last() == list@[0]);
            }
            let h = match list.pop() {
                Some(h) => h,
                None => vstd::pervasive::unreached(),
            };
            proof {
                assert(has_box(h) && exact_bounds(h, ti0, ti1));
                lemma_exact_bounds_well_bounded(h, ti0, ti1);
                lemma_leaves_single(h, orig);
            }
            h
        } else {
            let (left_h, right_h) = if n == 2 {
                proof {
                    assert(list@.last() == list@[1]);
                    assert(list@.drop_last().last() == list@[0]);
                }
                let r = match list.pop() {
                    Some(h) => h,
                    None => vstd::pervasive::unreached(),
                };
                let l = match list.pop() {
                    Some(h) => h,
                    None => vstd::pervasive::unreached(),
                };
                proof {
                    assert(has_box(l) && exact_bounds(l, ti0, ti1));
                    assert(has_box(r) && exact_bounds(r, ti0, ti1));
                    lemma_exact_bounds_well_bounded(l, ti0, ti1);
                    lemma_exact_bounds_well_bounded(r, ti0, ti1);
                    lemma_leaves_pair(l, r, orig);
                }
                (l, r)
            } else {
                let axis = random_axis();
                let mut sorted = sort_by_axis(list, axis, time0, time1);
                proof {
                    assert(forall|i: int|
                        0 <= i < sorted@.len() ==> has_box(#[trigger] sorted@[i]) && exact_bounds(
                            sorted@[i],
                            ti0,
                            ti1,
                        ));
                }
                let ghost pre_split = sorted@;
                let tail = sorted.split_off(n / 2);
                proof {
                    assert(forall|i: int|
                        0 <= i < sorted@.len() ==> sorted@[i] == pre_split[i]);
                    assert(forall|i: int|
                        0 <= i < tail@.len() ==> tail@[i] == pre_split[i + n as int / 2]);
                }
                let l = BoundingHierarchy::build(traced, sorted, time0, time1);
                let rr = BoundingHierarchy::build(traced, tail, time0, time1);
                proof {
                    assert(pre_split =~= sorted@ + tail@);
                    lemma_leaves_split(sorted@, tail@, pre_split, orig);
                }
                (l, rr)
            };
            proof {
                assert(has_box(left_h) && exact_bounds(left_h, ti0, ti1));
                assert(has_box(right_h) && exact_bounds(right_h, ti0, ti1));
                lemma_exact_bounds_well_bounded(left_h, ti0, ti1);
                lemma_exact_bounds_well_bounded(right_h, ti0, ti1);
            }
            let lb = match left_h.bounding_box(time0, time1) {
                Some(b) => b,
                None => vstd::pervasive::unreached(),
            };
            let rb = match right_h.bounding_box(time0, time1) {
                Some(b) => b,
                None => vstd::pervasive::unreached(),
            };
            let bounds = BoundingBox::surrounding(lb, rb);
            proof {
                lemma_surrounding_tightest(lb, rb);
            }
            let node = Hitable::Node(Box::new(BoundingHierarchy { bounds, left: left_h, right: right_h }));
            proof {
                assert(has_box(node));
                assert(well_bounded(node, ti0, ti1));
                assert(exact_bounds(node, ti0, ti1));
                assert(built_node(node, false) matches Some(bn) && bn.left == left_h && bn.right
                    == right_h);
                lemma_leaves_node(node, left_h, right_h, orig);
                if traced {
                    let wrapped = Hitable::Traced(
                        Box::new(StatsRecorder { category: Category::BoundingBox, hitable: node }),
                    );
                    assert(leaves(wrapped) == leaves(node));
                    assert(exact_bounds(wrapped, ti0, ti1));
                    assert(well_bounded(wrapped, ti0, ti1));
                    assert(built_node(wrapped, true) matches Some(bn) && bn.left == left_h
                        && bn.right == right_h);
                }
            }
            if traced {
                Hitable::Traced(Box::new(StatsRecorder::new(Category::BoundingBox, node)))
            } else {
                node
            }
        }
    }
}

} // verus!
