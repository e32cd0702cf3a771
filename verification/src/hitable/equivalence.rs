//! The hierarchy query agrees with a brute-force linear scan.
//!
//! A bounding-volume hierarchy is only an accelerator: pruning by a node's
//! box must never change the answer.  This module states and proves that,
//! for any query on which the boxes are conservative ([`covered`]) and the
//! primitives filter cleanly under a shrunken window ([`shrink_stable`],
//! proved below for the sphere primitives), the hierarchy returns exactly
//! the hit that a linear scan over its leaves returns.  Conservativeness
//! itself is a hypothesis: exact real arithmetic grants it for well-bounded
//! trees, while fixed-point rounding can break it on grazing rays.

use crate::fx::{fx_add, fx_mul, fx_neg, fx_sqrt, fx_sub, lemma_fx_div_monotone, lemma_sqrt_of};
use crate::hitable::bounding_box::spec_box_hit;
use crate::hitable::list::spec_list_hit;
use crate::hitable::moving_sphere::{spec_center, MovingSphere};
use crate::hitable::sphere::{spec_quadratic_hit, Sphere};
use crate::hitable::{better, spec_hit, HitView, Hitable};
use crate::ray::Ray;
use crate::vec3::pos::Pos;
use crate::vec3::{lemma_sqlen_nonneg, v_sqlen, v_sub};
use vstd::prelude::*;

verus! {

/// The primitives at a hierarchy's leaves: nodes are flattened, everything
/// else stands for itself.
pub open spec fn leaves(h: Hitable) -> Seq<Hitable>
    decreases h,
{
    match h {
        Hitable::Node(n) => leaves(n.left) + leaves(n.right),
        Hitable::Traced(w) => if w.hitable is Node {
            leaves(w.hitable)
        } else {
            seq![h]
        },
        _ => seq![h],
    }
}

/// The leaves of each element of a sequence, concatenated: what a
/// hierarchy built over the sequence must keep, as a multiset.
pub open spec fn leaves_of_seq(s: Seq<Hitable>) -> Seq<Hitable>
    decreases s.len(),
{
    if s.len() == 0 {
        Seq::empty()
    } else {
        leaves_of_seq(s.drop_last()) + leaves(s.last())
    }
}

/// Concatenating element sequences concatenates their leaves, as
/// multisets.
pub proof fn lemma_leaves_of_seq_concat(s1: Seq<Hitable>, s2: Seq<Hitable>)
    ensures
        leaves_of_seq(s1 + s2).to_multiset() =~= leaves_of_seq(s1).to_multiset().add(
            leaves_of_seq(s2).to_multiset(),
        ),
    decreases s2.len(),
{
    broadcast use vstd::seq_lib::group_to_multiset_ensures;
    broadcast use vstd::multiset::group_multiset_axioms;

    if s2.len() == 0 {
        assert(s1 + s2 =~= s1);
        assert(leaves_of_seq(s2) =~= Seq::<Hitable>::empty());
    } else {
        assert((s1 + s2).drop_last() =~= s1 + s2.drop_last());
        assert((s1 + s2).last() == s2.last());
        lemma_leaves_of_seq_concat(s1, s2.drop_last());
        vstd::seq_lib::lemma_multiset_commutative(
            leaves_of_seq(s1 + s2.drop_last()),
            leaves(s2.last()),
        );
        vstd::seq_lib::lemma_multiset_commutative(
            leaves_of_seq(s2.drop_last()),
            leaves(s2.last()),
        );
    }
}

/// Removing one element takes exactly its leaves out of the concatenation,
/// as multisets.
proof fn lemma_leaves_ms_remove(s: Seq<Hitable>, j: int)
    requires
        0 <= j < s.len(),
    ensures
        leaves_of_seq(s).to_multiset() =~= leaves_of_seq(s.remove(j)).to_multiset().add(
            leaves(s[j]).to_multiset(),
        ),
    decreases s.len(),
{
    broadcast use vstd::seq_lib::group_to_multiset_ensures;
    broadcast use vstd::multiset::group_multiset_axioms;

    let d = s.drop_last();
    let x = s.last();
    vstd::seq_lib::lemma_multiset_commutative(leaves_of_seq(d), leaves(x));
    if j == s.len() - 1 {
        assert(s.remove(j) =~= d);
    } else {
        lemma_leaves_ms_remove(d, j);
        let dr = d.remove(j);
        assert(s.remove(j).drop_last() =~= dr);
        assert(s.remove(j).last() == x);
        vstd::seq_lib::lemma_multiset_commutative(leaves_of_seq(dr), leaves(x));
    }
}

/// Sequences with the same elements have the same leaves: sorting a build
/// list moves primitives around but loses none.
pub proof fn lemma_leaves_ms_permutation(s1: Seq<Hitable>, s2: Seq<Hitable>)
    requires
        s1.to_multiset() == s2.to_multiset(),
    ensures
        leaves_of_seq(s1).to_multiset() =~= leaves_of_seq(s2).to_multiset(),
    decreases s1.len(),
{
    broadcast use vstd::seq_lib::group_to_multiset_ensures;
    broadcast use vstd::multiset::group_multiset_axioms;

    if s1.len() == 0 {
        assert(s2.to_multiset().len() == 0);
        assert(leaves_of_seq(s2) =~= Seq::<Hitable>::empty());
    } else {
        let x = s1.last();
        let d1 = s1.drop_last();
        assert(s1.remove(s1.len() - 1) =~= d1);
        assert(s1.remove(s1.len() - 1).to_multiset() =~= s1.to_multiset().remove(x));
        assert(s1.contains(x)) by {
            assert(s1[s1.len() - 1] == x);
        }
        assert(s2.to_multiset().count(x) > 0);
        assert(s2.contains(x));
        let j = choose|j: int| 0 <= j < s2.len() && s2[j] == x;
        let d2 = s2.remove(j);
        assert(d2.to_multiset() =~= s2.to_multiset().remove(x));
        assert(d1.to_multiset() =~= d2.to_multiset());
        lemma_leaves_ms_permutation(d1, d2);
        lemma_leaves_ms_remove(s2, j);
        vstd::seq_lib::lemma_multiset_commutative(leaves_of_seq(d1), leaves(x));
    }
}

/// The leaves of a one-element sequence are the element's leaves.
pub proof fn lemma_leaves_single(e: Hitable, s: Seq<Hitable>)
    requires
        s.len() == 1,
        s[0] == e,
    ensures
        leaves_of_seq(s).to_multiset() =~= leaves(e).to_multiset(),
{
    assert(s.drop_last() =~= Seq::<Hitable>::empty());
    assert(s.last() == e);
    assert(leaves_of_seq(Seq::<Hitable>::empty()) =~= Seq::<Hitable>::empty());
    assert(leaves_of_seq(s) =~= Seq::<Hitable>::empty() + leaves(e));
    assert(Seq::<Hitable>::empty() + leaves(e) =~= leaves(e));
}

/// The leaves of a two-element sequence are the elements' leaves, as
/// multisets.
pub proof fn lemma_leaves_pair(e0: Hitable, e1: Hitable, s: Seq<Hitable>)
    requires
        s.len() == 2,
        s[0] == e0,
        s[1] == e1,
    ensures
        leaves(e0).to_multiset().add(leaves(e1).to_multiset()) =~= leaves_of_seq(s).to_multiset(),
{
    broadcast use vstd::multiset::group_multiset_axioms;

    assert(s.drop_last() =~= seq![e0]);
    assert(s.last() == e1);
    lemma_leaves_single(e0, seq![e0]);
    assert(leaves_of_seq(s) =~= leaves_of_seq(seq![e0]) + leaves(e1));
    vstd::seq_lib::lemma_multiset_commutative(leaves_of_seq(seq![e0]), leaves(e1));
}

/// Splitting a permutation of the build list in two splits its leaves, as
/// multisets.
pub proof fn lemma_leaves_split(
    first: Seq<Hitable>,
    second: Seq<Hitable>,
    whole: Seq<Hitable>,
    orig: Seq<Hitable>,
)
    requires
        whole == first + second,
        whole.to_multiset() == orig.to_multiset(),
    ensures
        leaves_of_seq(first).to_multiset().add(leaves_of_seq(second).to_multiset())
            =~= leaves_of_seq(orig).to_multiset(),
{
    broadcast use vstd::multiset::group_multiset_axioms;

    lemma_leaves_of_seq_concat(first, second);
    lemma_leaves_ms_permutation(whole, orig);
}

/// A node over two children holds exactly the children's leaves.
pub proof fn lemma_leaves_node(node: Hitable, left: Hitable, right: Hitable, orig: Seq<Hitable>)
    requires
        node matches Hitable::Node(n) && n.left == left && n.right == right,
        leaves(left).to_multiset().add(leaves(right).to_multiset()) =~= leaves_of_seq(
            orig,
        ).to_multiset(),
    ensures
        leaves(node).to_multiset() =~= leaves_of_seq(orig).to_multiset(),
{
    broadcast use vstd::multiset::group_multiset_axioms;

    vstd::seq_lib::lemma_multiset_commutative(leaves(left), leaves(right));
    assert(leaves(node) == leaves(left) + leaves(right));
}

/// The nearest hit among a sequence of primitives, each queried over the
/// full window; an earlier primitive keeps a tie.
pub open spec fn best_hit(s: Seq<Hitable>, r: Ray, t0: int, t1: int) -> Option<HitView>
    decreases s,
{
    if s.len() == 0 {
        None
    } else {
        better(best_hit(s.drop_last(), r, t0, t1), spec_hit(s.last(), r, t0, t1))
    }
}

/// Whether every box of `h` is conservative for this query: a node whose
/// leaves hold a hit inside the window passes its own slab test.
pub open spec fn covered(h: Hitable, r: Ray, t0: int, t1: int) -> bool
    decreases h,
{
    match h {
        Hitable::Node(n) => {
            &&& (best_hit(leaves(h), r, t0, t1) is Some ==> spec_box_hit(n.bounds, r, t0, t1))
            &&& covered(n.left, r, t0, t1)
            &&& covered(n.right, r, t0, t1)
        },
        Hitable::Traced(w) => covered(w.hitable, r, t0, t1),
        _ => true,
    }
}

/// An optional hit kept only when strictly nearer than `w`.
pub open spec fn hit_filter(o: Option<HitView>, w: int) -> Option<HitView> {
    match o {
        Some(hv) => if (hv.t as int) < w {
            o
        } else {
            None
        },
        None => None,
    }
}

/// Whether shrinking the window's far end filters the hit of `h` exactly:
/// the shrunken query returns the full query's hit when it is still inside
/// the smaller window, and nothing otherwise.
pub open spec fn shrink_stable(h: Hitable, r: Ray, t0: int, t1: int) -> bool {
    forall|w: int|
        t0 < w <= t1 ==> #[trigger] spec_hit(h, r, t0, w) == hit_filter(
            spec_hit(h, r, t0, t1),
            w,
        )
}

/// Choosing the nearer of optional hits is associative.
proof fn lemma_better_assoc(a: Option<HitView>, b: Option<HitView>, c: Option<HitView>)
    ensures
        better(better(a, b), c) == better(a, better(b, c)),
{
}

/// The best over a concatenation is the better of the two bests.
proof fn lemma_best_concat(s1: Seq<Hitable>, s2: Seq<Hitable>, r: Ray, t0: int, t1: int)
    ensures
        best_hit(s1 + s2, r, t0, t1) == better(
            best_hit(s1, r, t0, t1),
            best_hit(s2, r, t0, t1),
        ),
    decreases s2.len(),
{
    if s2.len() == 0 {
        assert(s1 + s2 =~= s1);
    } else {
        assert((s1 + s2).drop_last() =~= s1 + s2.drop_last());
        assert((s1 + s2).last() == s2.last());
        lemma_best_concat(s1, s2.drop_last(), r, t0, t1);
        lemma_better_assoc(
            best_hit(s1, r, t0, t1),
            best_hit(s2.drop_last(), r, t0, t1),
            spec_hit(s2.last(), r, t0, t1),
        );
    }
}

/// A hit returned by any hitable lies strictly inside the query window.
pub proof fn lemma_hit_in_window(h: Hitable, r: Ray, t0: int, t1: int)
    ensures
        spec_hit(h, r, t0, t1) matches Some(hv) ==> t0 < hv.t < t1,
    decreases h,
{
    match h {
        Hitable::Sphere(_) => {
        },
        Hitable::MovingSphere(_) => {
        },
        Hitable::List(l) => {
            lemma_list_hit_in_window(l.list@, r, t0, t1);
        },
        Hitable::Node(n) => {
            lemma_hit_in_window(n.left, r, t0, t1);
            lemma_hit_in_window(n.right, r, t0, t1);
        },
        Hitable::Traced(w) => {
            lemma_hit_in_window(w.hitable, r, t0, t1);
        },
    }
}

/// A hit returned by a linear scan lies strictly inside the query window.
pub proof fn lemma_list_hit_in_window(s: Seq<Hitable>, r: Ray, t0: int, t1: int)
    ensures
        spec_list_hit(s, r, t0, t1) matches Some(hv) ==> t0 < hv.t < t1,
    decreases s,
{
    if s.len() > 0 {
        lemma_list_hit_in_window(s.drop_last(), r, t0, t1);
        let prev = spec_list_hit(s.drop_last(), r, t0, t1);
        let w = match prev {
            Some(hv) => hv.t as int,
            None => t1,
        };
        lemma_hit_in_window(s.last(), r, t0, w);
    }
}

/// The hierarchy query equals the best over its leaves, given conservative
/// boxes: pruning discards only subtrees without a hit in the window, and
/// combining children keeps the nearer hit exactly as the fold over the
/// concatenated leaves does.
pub proof fn lemma_hierarchy_hit_is_best(h: Hitable, r: Ray, t0: int, t1: int)
    requires
        covered(h, r, t0, t1),
    ensures
        spec_hit(h, r, t0, t1) == best_hit(leaves(h), r, t0, t1),
    decreases h,
{
    match h {
        Hitable::Node(n) => {
            lemma_hierarchy_hit_is_best(n.left, r, t0, t1);
            lemma_hierarchy_hit_is_best(n.right, r, t0, t1);
            lemma_best_concat(leaves(n.left), leaves(n.right), r, t0, t1);
        },
        Hitable::Traced(w) => {
            if w.hitable is Node {
                lemma_hierarchy_hit_is_best(w.hitable, r, t0, t1);
            } else {
                lemma_singleton_best(h, r, t0, t1);
            }
        },
        _ => {
            lemma_singleton_best(h, r, t0, t1);
        },
    }
}

/// The best over a single primitive is that primitive's hit.
proof fn lemma_singleton_best(h: Hitable, r: Ray, t0: int, t1: int)
    ensures
        best_hit(seq![h], r, t0, t1) == spec_hit(h, r, t0, t1),
{
    assert(seq![h].drop_last() =~= Seq::<Hitable>::empty());
    assert(best_hit(Seq::<Hitable>::empty(), r, t0, t1) == None::<HitView>);
    assert(seq![h].last() == h);
    assert(better(None, spec_hit(h, r, t0, t1)) == spec_hit(h, r, t0, t1));
}

/// The linear scan equals the best over the same primitives, for
/// window-stable primitives: shrinking the window to the closest hit so
/// far filters later hits exactly.
pub proof fn lemma_scan_is_best(s: Seq<Hitable>, r: Ray, t0: int, t1: int)
    requires
        forall|i: int| 0 <= i < s.len() ==> shrink_stable(#[trigger] s[i], r, t0, t1),
    ensures
        spec_list_hit(s, r, t0, t1) == best_hit(s, r, t0, t1),
    decreases s.len(),
{
    if s.len() > 0 {
        assert(forall|i: int|
            0 <= i < s.drop_last().len() ==> shrink_stable(#[trigger] s.drop_last()[i], r, t0, t1));
        lemma_scan_is_best(s.drop_last(), r, t0, t1);
        lemma_list_hit_in_window(s.drop_last(), r, t0, t1);
        lemma_hit_in_window(s.last(), r, t0, t1);
        let prev = spec_list_hit(s.drop_last(), r, t0, t1);
        match prev {
            Some(p) => {
                assert(shrink_stable(s.last(), r, t0, t1));
                assert(spec_hit(s.last(), r, t0, p.t as int) == hit_filter(
                    spec_hit(s.last(), r, t0, t1),
                    p.t as int,
                ));
            },
            None => {
                if t0 < t1 {
                    assert(shrink_stable(s.last(), r, t0, t1));
                    assert(spec_hit(s.last(), r, t0, t1 as int) == hit_filter(
                        spec_hit(s.last(), r, t0, t1),
                        t1,
                    ));
                }
            },
        }
    }
}

/// The hierarchy query returns the same hit as a brute-force linear scan
/// over its leaves, whenever the boxes are conservative for the query and
/// the leaves are window-stable.
pub proof fn lemma_hierarchy_matches_scan(h: Hitable, r: Ray, t0: int, t1: int)
    requires
        covered(h, r, t0, t1),
        forall|i: int|
            0 <= i < leaves(h).len() ==> shrink_stable(#[trigger] leaves(h)[i], r, t0, t1),
    ensures
        spec_hit(h, r, t0, t1) == spec_list_hit(leaves(h), r, t0, t1),
{
    lemma_hierarchy_hit_is_best(h, r, t0, t1);
    lemma_scan_is_best(leaves(h), r, t0, t1);
}

/// Whether a hitable is a sphere primitive, possibly behind a
/// stats-recording wrapper: the leaves a scene's hierarchy is built over.
pub open spec fn is_sphere_primitive(h: Hitable) -> bool {
    match h {
        Hitable::Sphere(_) => true,
        Hitable::MovingSphere(_) => true,
        Hitable::Traced(w) => w.hitable is Sphere || w.hitable is MovingSphere,
        _ => false,
    }
}

/// The hierarchy query over sphere primitives returns the same hit as a
/// brute-force linear scan over its leaves, whenever the boxes are
/// conservative for the query: sphere primitives are window-stable, so no
/// further hypothesis is needed.
pub proof fn lemma_sphere_hierarchy_matches_scan(h: Hitable, r: Ray, t0: int, t1: int)
    requires
        covered(h, r, t0, t1),
        forall|i: int|
            0 <= i < leaves(h).len() ==> is_sphere_primitive(#[trigger] leaves(h)[i]),
    ensures
        spec_hit(h, r, t0, t1) == spec_list_hit(leaves(h), r, t0, t1),
{
    assert forall|i: int| 0 <= i < leaves(h).len() implies shrink_stable(
        #[trigger] leaves(h)[i],
        r,
        t0,
        t1,
    ) by {
        let e = leaves(h)[i];
        match e {
            Hitable::Sphere(s) => lemma_sphere_shrink_stable(s, r, t0, t1),
            Hitable::MovingSphere(s) => lemma_moving_sphere_shrink_stable(s, r, t0, t1),
            Hitable::Traced(w) => {
                match w.hitable {
                    Hitable::Sphere(s) => {
                        lemma_sphere_shrink_stable(s, r, t0, t1);
                        lemma_traced_shrink_stable(e, r, t0, t1);
                    },
                    Hitable::MovingSphere(s) => {
                        lemma_moving_sphere_shrink_stable(s, r, t0, t1);
                        lemma_traced_shrink_stable(e, r, t0, t1);
                    },
                    _ => {
                    },
                }
            },
            _ => {
            },
        }
    }
    lemma_hierarchy_matches_scan(h, r, t0, t1);
}

/// The parameter at which a quadratic query answers is filtered exactly by
/// a shrunken window: of its two candidate roots, the nearer is tried
/// first, and both are window-checked the same way whatever the window.
proof fn lemma_quadratic_shrink(center: Pos, radius: int, r: Ray, t0: int, t1: int, w: int)
    requires
        t0 < w <= t1,
    ensures
        spec_quadratic_hit(center, radius, r, t0, w) == (
        match spec_quadratic_hit(center, radius, r, t0, t1) {
            Some(t) => if t < w {
                Some(t)
            } else {
                None::<int>
            },
            None => None::<int>,
        }),
{
    let oc = v_sub(r.a.0, center.0);
    let a = v_sqlen(r.b.0);
    let b = crate::vec3::v_dot(oc, r.b.0);
    let c = fx_sub(v_sqlen(oc), fx_mul(radius, radius));
    let disc = fx_sub(fx_mul(b, b), fx_mul(a, c));
    if disc > 0 {
        let root = fx_sqrt(disc);
        lemma_sqrt_of(disc * crate::fx::SCALE as int);
        lemma_sqlen_nonneg(r.b.0);
        lemma_fx_div_monotone(fx_sub(fx_neg(b), root), fx_add(fx_neg(b), root), a);
    }
}

/// A sphere's hit is filtered exactly by a shrunken window.
pub proof fn lemma_sphere_shrink_stable(s: Sphere, r: Ray, t0: int, t1: int)
    ensures
        shrink_stable(Hitable::Sphere(s), r, t0, t1),
{
    assert forall|w: int| t0 < w <= t1 implies #[trigger] spec_hit(
        Hitable::Sphere(s),
        r,
        t0,
        w,
    ) == hit_filter(spec_hit(Hitable::Sphere(s), r, t0, t1), w) by {
        lemma_quadratic_shrink(s.center, s.radius as int, r, t0, t1, w);
    }
}

/// A moving sphere's hit is filtered exactly by a shrunken window.
pub proof fn lemma_moving_sphere_shrink_stable(s: MovingSphere, r: Ray, t0: int, t1: int)
    ensures
        shrink_stable(Hitable::MovingSphere(s), r, t0, t1),
{
    assert forall|w: int| t0 < w <= t1 implies #[trigger] spec_hit(
        Hitable::MovingSphere(s),
        r,
        t0,
        w,
    ) == hit_filter(spec_hit(Hitable::MovingSphere(s), r, t0, t1), w) by {
        lemma_quadratic_shrink(spec_center(s, r.time as int), s.radius as int, r, t0, t1, w);
    }
}

/// Instrumentation is strictly additive: a stats-recording wrapper answers
/// every query exactly as the hitable it wraps does, so wrapping changes
/// counters and nothing else.
pub proof fn lemma_tracing_is_additive(h: Hitable, r: Ray, t0: int, t1: int)
    requires
        h is Traced,
    ensures
        spec_hit(h, r, t0, t1) == spec_hit(h->Traced_0.hitable, r, t0, t1),
{
}

/// A linear scan over window-stable elements is itself filtered exactly
/// by a shrunken window.
proof fn lemma_scan_shrink(s: Seq<Hitable>, r: Ray, t0: int, t1: int)
    requires
        forall|i: int| 0 <= i < s.len() ==> shrink_stable(#[trigger] s[i], r, t0, t1),
    ensures
        forall|w: int|
            t0 < w <= t1 ==> #[trigger] spec_list_hit(s, r, t0, w) == hit_filter(
                spec_list_hit(s, r, t0, t1),
                w,
            ),
    decreases s.len(),
{
    if s.len() > 0 {
        assert(forall|i: int|
            0 <= i < s.drop_last().len() ==> shrink_stable(#[trigger] s.drop_last()[i], r, t0, t1));
        lemma_scan_shrink(s.drop_last(), r, t0, t1);
        lemma_list_hit_in_window(s.drop_last(), r, t0, t1);
        assert(shrink_stable(s.last(), r, t0, t1));
        assert forall|w: int| t0 < w <= t1 implies #[trigger] spec_list_hit(s, r, t0, w)
            == hit_filter(spec_list_hit(s, r, t0, t1), w) by {
            let prev = spec_list_hit(s.drop_last(), r, t0, t1);
            let cur1 = spec_hit(s.last(), r, t0, t1);
            assert(spec_list_hit(s.drop_last(), r, t0, w) == hit_filter(prev, w));
            assert(spec_hit(s.last(), r, t0, w) == hit_filter(cur1, w));
            match prev {
                Some(p) => {
                    assert(spec_hit(s.last(), r, t0, p.t as int) == hit_filter(
                        cur1,
                        p.t as int,
                    ));
                    lemma_hit_in_window(s.last(), r, t0, p.t as int);
                },
                None => {
                    lemma_hit_in_window(s.last(), r, t0, t1);
                },
            }
        }
    }
}

/// A flat collection of window-stable elements is window-stable: the scan
/// over it filters exactly under a shrunken window.
pub proof fn lemma_list_shrink_stable(h: Hitable, r: Ray, t0: int, t1: int)
    requires
        h matches Hitable::List(l) && (forall|i: int|
            0 <= i < l.list@.len() ==> shrink_stable(#[trigger] l.list@[i], r, t0, t1)),
    ensures
        shrink_stable(h, r, t0, t1),
{
    let l = h->List_0;
    lemma_scan_shrink(l.list@, r, t0, t1);
    assert forall|w: int| t0 < w <= t1 implies #[trigger] spec_hit(h, r, t0, w) == hit_filter(
        spec_hit(h, r, t0, t1),
        w,
    ) by {
        assert(spec_list_hit(l.list@, r, t0, w) == hit_filter(spec_list_hit(l.list@, r, t0, t1), w));
    }
}

/// A stats-recording wrapper is as window-stable as what it wraps.
pub proof fn lemma_traced_shrink_stable(h: Hitable, r: Ray, t0: int, t1: int)
    requires
        h matches Hitable::Traced(w) && shrink_stable(w.hitable, r, t0, t1),
    ensures
        shrink_stable(h, r, t0, t1),
{
    let inner = h->Traced_0.hitable;
    assert forall|w: int| t0 < w <= t1 implies #[trigger] spec_hit(h, r, t0, w) == hit_filter(
        spec_hit(h, r, t0, t1),
        w,
    ) by {
        assert(spec_hit(h, r, t0, w) == spec_hit(inner, r, t0, w));
        assert(spec_hit(h, r, t0, t1) == spec_hit(inner, r, t0, t1));
    }
}

} // verus!
