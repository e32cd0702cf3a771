//! The flat, unordered collection of hitables.

use crate::fx::Float;
use crate::hitable::bounding_box::{spec_surrounding, BoundingBox};
use crate::hitable::stats::Stats;
use crate::hitable::{has_box, hit_view, spec_bbox, spec_hit, spec_hit_trace, HitRecord, HitView, Hitable};
use crate::ray::Ray;
use vstd::prelude::*;

verus! {

/// A flat collection of hitables, scanned linearly.
#[derive(Debug)]
pub struct HitableList {
    pub list: Vec<Hitable>,
}

/// What a linear scan over `s` returns: each element is queried with the
/// window shrunk to the closest hit so far, and the last hit returned wins.
pub open spec fn spec_list_hit(s: Seq<Hitable>, r: Ray, t_min: int, t_max: int) -> Option<HitView>
    decreases s,
{
    if s.len() == 0 {
        None
    } else {
        let prev = spec_list_hit(s.drop_last(), r, t_min, t_max);
        let w = match prev {
            Some(h) => h.t as int,
            None => t_max,
        };
        match spec_hit(s.last(), r, t_min, w) {
            Some(h2) => Some(h2),
            None => prev,
        }
    }
}

/// The instrumentation counters after a linear scan over `s`, with each
/// element queried under the window the scan had reached.
pub open spec fn spec_list_trace(s: Seq<Hitable>, st: Stats, r: Ray, t_min: int, t_max: int) -> Stats
    decreases s,
{
    if s.len() == 0 {
        st
    } else {
        let st1 = spec_list_trace(s.drop_last(), st, r, t_min, t_max);
        let prev = spec_list_hit(s.drop_last(), r, t_min, t_max);
        let w = match prev {
            Some(h) => h.t as int,
            None => t_max,
        };
        spec_hit_trace(s.last(), st1, r, t_min, w)
    }
}

/// The bounding box of a scan list: the running union of the elements'
/// boxes, absent when the list is empty or any element has no box.
pub open spec fn spec_list_bbox(s: Seq<Hitable>, t0: int, t1: int) -> Option<BoundingBox>
    decreases s,
{
    if s.len() == 0 {
        None
    } else if s.len() == 1 {
        spec_bbox(s[0], t0, t1)
    } else {
        match (spec_list_bbox(s.drop_last(), t0, t1), spec_bbox(s.last(), t0, t1)) {
            (Some(b), Some(c)) => Some(spec_surrounding(b, c)),
            _ => None,
        }
    }
}

/// Once a prefix of the scan has no box, the whole scan has none.
proof fn lemma_list_bbox_none(s: Seq<Hitable>, i: int, t0: int, t1: int)
    requires
        1 <= i <= s.len(),
        spec_list_bbox(s.subrange(0, i), t0, t1) is None,
    ensures
        spec_list_bbox(s, t0, t1) is None,
    decreases s.len() - i,
{
    if i == s.len() {
        assert(s.subrange(0, i) =~= s);
    } else {
        assert(s.subrange(0, i + 1).drop_last() =~= s.subrange(0, i));
        lemma_list_bbox_none(s, i + 1, t0, t1);
    }
}

impl HitableList {
    /// A collection from its elements.
    pub fn new(list: Vec<Hitable>) -> (l: HitableList)
        ensures
            l.list == list,
    {
        HitableList { list }
    }

    /// The nearest intersection among the elements inside `(t_min, t_max)`,
    /// by a linear scan that shrinks the window to each hit found.
    pub fn hit<'a>(&'a self, c: &mut Stats, r: &Ray, t_min: Float, t_max: Float) -> (res: Option<
        HitRecord<'a>,
    >)
        ensures
            hit_view(res) == spec_list_hit(self.list@, *r, t_min as int, t_max as int),
            *final(c) == spec_list_trace(self.list@, *old(c), *r, t_min as int, t_max as int),
        decreases self,
    {
        let ghost s = self.list@;
        let mut result: Option<HitRecord<'a>> = None;
        let mut closest = t_max;
        let mut i: usize = 0;
        while i < self.list.len()
            invariant
                i <= s.len(),
                s == self.list@,
                hit_view(result) == spec_list_hit(s.subrange(0, i as int), *r, t_min as int, t_max as int),
                *c == spec_list_trace(s.subrange(0, i as int), *old(c), *r, t_min as int, t_max as int),
                closest as int == (match spec_list_hit(s.subrange(0, i as int), *r, t_min as int, t_max as int) {
                    Some(h) => h.t as int,
                    None => t_max as int,
                }),
            decreases s.len() - i,
        {
            proof {
                assert(s.subrange(0, i + 1).drop_last() =~= s.subrange(0, i as int));
                assert(s.subrange(0, i + 1).last() == s[i as int]);
            }
            let res = self.list[i].hit(c, r, t_min, closest);
            if res.is_some() {
                let rec = res.unwrap();
                closest = rec.t;
                result = Some(rec);
            }
            i += 1;
        }
        proof {
            assert(s.subrange(0, s.len() as int) =~= s);
        }
        result
    }

    /// The union of the elements' bounding boxes, absent when the list is
    /// empty or an element has no box.
    pub fn bounding_box(&self, t0: Float, t1: Float) -> (res: Option<BoundingBox>)
        ensures
            res == spec_list_bbox(self.list@, t0 as int, t1 as int),
            (self.list@.len() > 0 && (forall|i: int|
                0 <= i < self.list@.len() ==> has_box(#[trigger] self.list@[i]))) ==> res is Some,
        decreases self,
    {
        let ghost s = self.list@;
        if self.list.len() == 0 {
            return None;
        }
        let first = self.list[0].bounding_box(t0, t1);
        let mut acc = match first {
            Some(b) => b,
            None => {
                proof {
                    assert(s.subrange(0, 1) =~= seq![s[0]]);
                    lemma_list_bbox_none(s, 1, t0 as int, t1 as int);
                }
                return None;
            },
        };
        let mut i: usize = 1;
        while i < self.list.len()
            invariant
                1 <= i <= s.len(),
                s == self.list@,
                spec_list_bbox(s.subrange(0, i as int), t0 as int, t1 as int) == Some(acc),
            decreases s.len() - i,
        {
            proof {
                assert(s.subrange(0, i + 1).drop_last() =~= s.subrange(0, i as int));
                assert(s.subrange(0, i + 1).last() == s[i as int]);
            }
            match self.list[i].bounding_box(t0, t1) {
                Some(b) => {
                    acc = BoundingBox::surrounding(acc, b);
                },
                None => {
                    proof {
                        lemma_list_bbox_none(s, i + 1, t0 as int, t1 as int);
                    }
                    return None;
                },
            }
            i += 1;
        }
        proof {
            assert(s.subrange(0, s.len() as int) =~= s);
            assert(s.subrange(0, 1) =~= seq![s[0]]);
        }
        Some(acc)
    }
}

} // verus!
