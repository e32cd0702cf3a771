//! Hit/miss instrumentation.
//!
//! A [`StatsRecorder`] wraps a hitable and counts, per primitive category,
//! how many intersection queries hit and how many missed.  The counters are
//! kept per worker and merged at the end, so the wrapper is strictly
//! additive: removing it changes no render result.

use crate::fx::Float;
use crate::hitable::{spec_hit, spec_hit_trace, Hitable, HitRecord};
use crate::hitable::bounding_box::BoundingBox;
use crate::ray::Ray;
use vstd::prelude::*;

verus! {

/// The primitive categories that the tracing factory distinguishes.
#[derive(Clone, Copy, Debug, PartialEq, Eq, Structural)]
pub enum Category {
    BoundingBox,
    List,
    Sphere,
    MovingSphere,
}

/// Hit and miss counts for one category.
#[derive(Clone, Copy, Debug, PartialEq, Eq, Structural, Default)]
pub struct Record {
    pub hits: u64,
    pub misses: u64,
}

/// Hit and miss counts for every category.
#[derive(Clone, Copy, Debug, PartialEq, Eq, Structural)]
pub struct Stats {
    pub bounding_box: Record,
    pub list: Record,
    pub sphere: Record,
    pub moving_sphere: Record,
}

/// A counter saturated at the `u64` range.
pub open spec fn sat64(x: int) -> int {
    if x > u64::MAX as int {
        u64::MAX as int
    } else {
        x
    }
}

/// The record with one more hit.
pub open spec fn spec_record_hit(r: Record) -> Record {
    Record { hits: sat64(r.hits as int + 1) as u64, misses: r.misses }
}

/// The record with one more miss.
pub open spec fn spec_record_miss(r: Record) -> Record {
    Record { hits: r.hits, misses: sat64(r.misses as int + 1) as u64 }
}

/// The two records summed counterwise.
pub open spec fn spec_record_add(a: Record, b: Record) -> Record {
    Record {
        hits: sat64(a.hits as int + b.hits as int) as u64,
        misses: sat64(a.misses as int + b.misses as int) as u64,
    }
}

/// The record that `s` keeps for `cat`.
pub open spec fn spec_entry(s: Stats, cat: Category) -> Record {
    match cat {
        Category::BoundingBox => s.bounding_box,
        Category::List => s.list,
        Category::Sphere => s.sphere,
        Category::MovingSphere => s.moving_sphere,
    }
}

/// The stats with the record for `cat` replaced.
pub open spec fn spec_set_entry(s: Stats, cat: Category, r: Record) -> Stats {
    match cat {
        Category::BoundingBox => Stats { bounding_box: r, ..s },
        Category::List => Stats { list: r, ..s },
        Category::Sphere => Stats { sphere: r, ..s },
        Category::MovingSphere => Stats { moving_sphere: r, ..s },
    }
}

/// The stats after one hit in `cat`.
pub open spec fn spec_stats_hit(s: Stats, cat: Category) -> Stats {
    spec_set_entry(s, cat, spec_record_hit(spec_entry(s, cat)))
}

/// The stats after one miss in `cat`.
pub open spec fn spec_stats_miss(s: Stats, cat: Category) -> Stats {
    spec_set_entry(s, cat, spec_record_miss(spec_entry(s, cat)))
}

/// The two stats summed category by category.
pub open spec fn spec_stats_add(a: Stats, b: Stats) -> Stats {
    Stats {
        bounding_box: spec_record_add(a.bounding_box, b.bounding_box),
        list: spec_record_add(a.list, b.list),
        sphere: spec_record_add(a.sphere, b.sphere),
        moving_sphere: spec_record_add(a.moving_sphere, b.moving_sphere),
    }
}

impl Record {
    /// A record with no hits and no misses.
    pub fn new() -> (r: Record)
        ensures
            r == (Record { hits: 0u64, misses: 0u64 }),
    {
        Record { hits: 0, misses: 0 }
    }
}

/// Stats with every counter at zero, as a spec value.
pub open spec fn spec_stats_zero() -> Stats {
    Stats {
        bounding_box: Record { hits: 0u64, misses: 0u64 },
        list: Record { hits: 0u64, misses: 0u64 },
        sphere: Record { hits: 0u64, misses: 0u64 },
        moving_sphere: Record { hits: 0u64, misses: 0u64 },
    }
}

impl Stats {
    /// Stats with every counter at zero.
    pub fn new() -> (s: Stats)
        ensures
            s == spec_stats_zero(),
    {
        Stats {
            bounding_box: Record::new(),
            list: Record::new(),
            sphere: Record::new(),
            moving_sphere: Record::new(),
        }
    }

    /// The record kept for one category.
    pub fn entry(&self, cat: Category) -> (r: Record)
        ensures
            r == spec_entry(*self, cat),
    {
        match cat {
            Category::BoundingBox => self.bounding_box,
            Category::List => self.list,
            Category::Sphere => self.sphere,
            Category::MovingSphere => self.moving_sphere,
        }
    }

    /// Counts one hit for a category.
    pub fn hit(&mut self, cat: Category)
        ensures
            *final(self) == spec_stats_hit(*old(self), cat),
    {
        match cat {
            Category::BoundingBox => {
                self.bounding_box.hits = self.bounding_box.hits.saturating_add(1);
            },
            Category::List => {
                self.list.hits = self.list.hits.saturating_add(1);
            },
            Category::Sphere => {
                self.sphere.hits = self.sphere.hits.saturating_add(1);
            },
            Category::MovingSphere => {
                self.moving_sphere.hits = self.moving_sphere.hits.saturating_add(1);
            },
        }
    }

    /// Counts one miss for a category.
    pub fn miss(&mut self, cat: Category)
        ensures
            *final(self) == spec_stats_miss(*old(self), cat),
    {
        match cat {
            Category::BoundingBox => {
                self.bounding_box.misses = self.bounding_box.misses.saturating_add(1);
            },
            Category::List => {
                self.list.misses = self.list.misses.saturating_add(1);
            },
            Category::Sphere => {
                self.sphere.misses = self.sphere.misses.saturating_add(1);
            },
            Category::MovingSphere => {
                self.moving_sphere.misses = self.moving_sphere.misses.saturating_add(1);
            },
        }
    }

    /// Merges another stats value into this one, category by category.
    /// Merging per-worker counters this way is the reduction that the
    /// parallel driver uses.
    pub fn add_assign(&mut self, rhs: Stats)
        ensures
            *final(self) == spec_stats_add(*old(self), rhs),
    {
        self.bounding_box.hits = self.bounding_box.hits.saturating_add(rhs.bounding_box.hits);
        self.bounding_box.misses = self.bounding_box.misses.saturating_add(rhs.bounding_box.misses);
        self.list.hits = self.list.hits.saturating_add(rhs.list.hits);
        self.list.misses = self.list.misses.saturating_add(rhs.list.misses);
        self.sphere.hits = self.sphere.hits.saturating_add(rhs.sphere.hits);
        self.sphere.misses = self.sphere.misses.saturating_add(rhs.sphere.misses);
        self.moving_sphere.hits = self.moving_sphere.hits.saturating_add(rhs.moving_sphere.hits);
        self.moving_sphere.misses = self.moving_sphere.misses.saturating_add(rhs.moving_sphere.misses);
    }
}

/// A decorator that counts hits and misses of the wrapped hitable under a
/// fixed category.
#[derive(Debug)]
pub struct StatsRecorder {
    pub category: Category,
    pub hitable: Hitable,
}

impl StatsRecorder {
    /// Wraps a hitable so that its queries are counted under `category`.
    pub fn new(category: Category, hitable: Hitable) -> (r: StatsRecorder)
        ensures
            r.category == category,
            r.hitable == hitable,
    {
        StatsRecorder { category, hitable }
    }

    /// Queries the wrapped hitable and counts the outcome.
    pub fn hit<'a>(&'a self, c: &mut Stats, r: &Ray, t_min: Float, t_max: Float) -> (res: Option<
        HitRecord<'a>,
    >)
        ensures
            crate::hitable::hit_view(res) == spec_hit(self.hitable, *r, t_min as int, t_max as int),
            *final(c) == (if res is Some {
                spec_stats_hit(
                    spec_hit_trace(self.hitable, *old(c), *r, t_min as int, t_max as int),
                    self.category,
                )
            } else {
                spec_stats_miss(
                    spec_hit_trace(self.hitable, *old(c), *r, t_min as int, t_max as int),
                    self.category,
                )
            }),
        decreases self,
    {
        let res = self.hitable.hit(c, r, t_min, t_max);
        if res.is_some() {
            c.hit(self.category);
        } else {
            c.miss(self.category);
        }
        res
    }

    /// The bounding box of the wrapped hitable.
    pub fn bounding_box(&self, t0: Float, t1: Float) -> (r: Option<BoundingBox>)
        ensures
            r == crate::hitable::spec_bbox(self.hitable, t0 as int, t1 as int),
            crate::hitable::has_box(self.hitable) ==> r is Some,
        decreases self,
    {
        self.hitable.bounding_box(t0, t1)
    }
}

} // verus!
