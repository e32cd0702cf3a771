//! The pixel accumulator.
//!
//! A `Pixbuf` holds one running colour sum per pixel.  Parallel sample
//! passes each produce their own buffer; buffers are merged by channelwise
//! addition and finalized by dividing through the sample count and taking a
//! square root per channel as gamma correction.

use crate::fx::{ediv, fsqrt, fx, fx_sqrt, fx_whole, Float, SCALE};
use crate::image::Image;
use crate::vec3::col::Col;
use crate::vec3::{v_add, v_scale_div, Vec3};
use vstd::prelude::*;

verus! {

/// A grid of per-pixel colour accumulators.
#[derive(Debug)]
pub struct Pixbuf {
    pub w: usize,
    pub h: usize,
    pub pixels: Vec<Col>,
}

/// Whether the pixel vector covers the grid.
pub open spec fn pixbuf_wf(p: Pixbuf) -> bool {
    p.pixels@.len() == p.w * p.h && p.w * p.h <= usize::MAX
}

/// Two accumulator grids summed channelwise.
pub open spec fn spec_merge(a: Seq<Col>, b: Seq<Col>) -> Seq<Col> {
    Seq::new(a.len(), |k: int| Col(v_add(a[k].0, b[k].0)))
}

/// An accumulator grid divided through by the sample count.
pub open spec fn spec_normalize(a: Seq<Col>, samples: int) -> Seq<Col> {
    Seq::new(a.len(), |k: int| Col(v_scale_div(a[k].0, fx_whole(samples))))
}

/// A colour with the square root taken per channel, the gamma correction
/// applied before output.
pub open spec fn spec_gamma(c: Col) -> Col {
    Col(
        Vec3 {
            x: fx_sqrt(c.0.x as int) as i64,
            y: fx_sqrt(c.0.y as int) as i64,
            z: fx_sqrt(c.0.z as int) as i64,
        },
    )
}

/// An accumulator grid gamma-corrected per pixel.
pub open spec fn spec_gamma_grid(a: Seq<Col>) -> Seq<Col> {
    Seq::new(a.len(), |k: int| spec_gamma(a[k]))
}

/// The 8-bit value of one fixed-point channel: channels below one scale to
/// `0..=255` rounding down, anything at or above one saturates at 255, and
/// a negative channel floors at 0.
pub open spec fn spec_as_u8(f: int) -> int {
    if f >= SCALE {
        255
    } else if f < 0 {
        0
    } else {
        (256 * f) / (SCALE as int)
    }
}

/// Whether every channel of every colour in a grid is nonnegative, as the
/// colours of a render are.
pub open spec fn grid_nonneg(s: Seq<Col>) -> bool {
    forall|k: int|
        0 <= k < s.len() ==> (#[trigger] s[k]).0.x >= 0 && s[k].0.y >= 0 && s[k].0.z >= 0
}

/// Merging two partial sums is commutative: parallel partial buffers may
/// be combined from either side.
pub proof fn lemma_merge_commutative(a: Seq<Col>, b: Seq<Col>)
    requires
        a.len() == b.len(),
    ensures
        spec_merge(a, b) == spec_merge(b, a),
{
    assert(spec_merge(a, b) =~= spec_merge(b, a));
}

/// Merging partial sums of nonnegative colours is associative: a reduction
/// tree over such buffers gives one result whatever its shape.  Saturation
/// keeps the sums associative only away from mixed signs, so the law is
/// stated for nonnegative grids; a scene built with negative texture
/// colours is outside it.
pub proof fn lemma_merge_associative(a: Seq<Col>, b: Seq<Col>, c: Seq<Col>)
    requires
        a.len() == b.len(),
        b.len() == c.len(),
        grid_nonneg(a),
        grid_nonneg(b),
        grid_nonneg(c),
    ensures
        spec_merge(spec_merge(a, b), c) == spec_merge(a, spec_merge(b, c)),
{
    assert forall|k: int| 0 <= k < a.len() implies spec_merge(spec_merge(a, b), c)[k]
        == spec_merge(a, spec_merge(b, c))[k] by {
        assert(a[k].0.x >= 0 && b[k].0.x >= 0 && c[k].0.x >= 0);
    }
    assert(spec_merge(spec_merge(a, b), c) =~= spec_merge(a, spec_merge(b, c)));
}

/// A pixel index is inside the grid's vector.
proof fn lemma_grid_index(x: int, y: int, w: int, h: int)
    by (nonlinear_arith)
    requires
        0 <= x < w,
        0 <= y < h,
    ensures
        0 <= x + w * y < w * h,
{
}

/// The 8-bit output value of one fixed-point channel.
pub fn as_u8(f: Float) -> (r: u8)
    ensures
        r as int == spec_as_u8(f as int),
{
    if f >= SCALE {
        255
    } else if f < 0 {
        0
    } else {
        let (q, _rem) = ediv(f * 256, SCALE);
        proof {
            assert(256 * f as int == f as int * 256);
            vstd::arithmetic::div_mod::lemma_div_pos_is_pos(256 * f as int, SCALE as int);
            vstd::arithmetic::div_mod::lemma_div_is_ordered(
                256 * f as int,
                256 * (SCALE as int - 1),
                SCALE as int,
            );
        }
        q as u8
    }
}

impl Pixbuf {
    /// A zeroed accumulator grid.
    pub fn new(w: usize, h: usize) -> (p: Pixbuf)
        requires
            w * h <= usize::MAX,
        ensures
            p.w == w,
            p.h == h,
            pixbuf_wf(p),
            forall|k: int| 0 <= k < p.pixels@.len() ==> p.pixels@[k] == Col::spec_zero(),
    {
        let mut pixels: Vec<Col> = Vec::new();
        let n = w * h;
        let mut k: usize = 0;
        while k < n
            invariant
                k <= n,
                pixels@.len() == k,
                forall|i: int| 0 <= i < k ==> pixels@[i] == Col::spec_zero(),
            decreases n - k,
        {
            pixels.push(Col::zero());
            k += 1;
        }
        Pixbuf { w, h, pixels }
    }

    /// Sets one accumulator.
    pub fn put(&mut self, x: usize, y: usize, c: Col)
        requires
            x < old(self).w,
            y < old(self).h,
            pixbuf_wf(*old(self)),
        ensures
            final(self).w == old(self).w,
            final(self).h == old(self).h,
            pixbuf_wf(*final(self)),
            final(self).pixels@ == old(self).pixels@.update(x + old(self).w * y, c),
    {
        proof {
            lemma_grid_index(x as int, y as int, self.w as int, self.h as int);
        }
        let idx = x + self.w * y;
        self.pixels.set(idx, c);
    }

    /// Reads one accumulator.
    pub fn get(&self, x: usize, y: usize) -> (c: Col)
        requires
            x < self.w,
            y < self.h,
            pixbuf_wf(*self),
        ensures
            c == self.pixels@[x + self.w * y],
    {
        proof {
            lemma_grid_index(x as int, y as int, self.w as int, self.h as int);
        }
        self.pixels[x + self.w * y]
    }

    /// Merges another buffer of the same size into this one by channelwise
    /// addition: the reduction that combines parallel partial sums.
    pub fn add_assign(&mut self, rhs: &Pixbuf)
        requires
            pixbuf_wf(*old(self)),
            pixbuf_wf(*rhs),
            old(self).w == rhs.w,
            old(self).h == rhs.h,
        ensures
            final(self).w == old(self).w,
            final(self).h == old(self).h,
            pixbuf_wf(*final(self)),
            final(self).pixels@ == spec_merge(old(self).pixels@, rhs.pixels@),
    {
        let n = self.pixels.len();
        let mut k: usize = 0;
        while k < n
            invariant
                k <= n,
                n == self.pixels@.len(),
                self.pixels@.len() == old(self).pixels@.len(),
                rhs.pixels@.len() == old(self).pixels@.len(),
                self.w == old(self).w,
                self.h == old(self).h,
                forall|i: int|
                    0 <= i < k ==> self.pixels@[i] == Col(
                        v_add(old(self).pixels@[i].0, rhs.pixels@[i].0),
                    ),
                forall|i: int| k <= i < n ==> self.pixels@[i] == old(self).pixels@[i],
            decreases n - k,
        {
            let c = self.pixels[k].add(rhs.pixels[k]);
            self.pixels.set(k, c);
            k += 1;
        }
        proof {
            assert(self.pixels@ =~= spec_merge(old(self).pixels@, rhs.pixels@));
        }
    }

    /// Divides every accumulator through by the sample count.
    pub fn div_assign(&mut self, samples: usize)
        requires
            pixbuf_wf(*old(self)),
            samples <= i64::MAX,
        ensures
            final(self).w == old(self).w,
            final(self).h == old(self).h,
            pixbuf_wf(*final(self)),
            final(self).pixels@ == spec_normalize(old(self).pixels@, samples as int),
    {
        let d = fx(samples as i64);
        let n = self.pixels.len();
        let mut k: usize = 0;
        while k < n
            invariant
                k <= n,
                n == self.pixels@.len(),
                self.pixels@.len() == old(self).pixels@.len(),
                self.w == old(self).w,
                self.h == old(self).h,
                d as int == fx_whole(samples as int),
                forall|i: int|
                    0 <= i < k ==> self.pixels@[i] == Col(
                        v_scale_div(old(self).pixels@[i].0, fx_whole(samples as int)),
                    ),
                forall|i: int| k <= i < n ==> self.pixels@[i] == old(self).pixels@[i],
            decreases n - k,
        {
            let c = self.pixels[k].scale_div(d);
            self.pixels.set(k, c);
            k += 1;
        }
        proof {
            assert(self.pixels@ =~= spec_normalize(old(self).pixels@, samples as int));
        }
    }

    /// The finished image: every accumulator gamma-corrected by a square
    /// root per channel.
    pub fn as_image(&self) -> (img: Image)
        requires
            pixbuf_wf(*self),
        ensures
            img.w == self.w,
            img.h == self.h,
            crate::image::image_wf(img),
            img.pixels@ == spec_gamma_grid(self.pixels@),
    {
        let mut pixels: Vec<Col> = Vec::new();
        let n = self.pixels.len();
        let mut k: usize = 0;
        while k < n
            invariant
                k <= n,
                n == self.pixels@.len(),
                pixels@.len() == k,
                forall|i: int| 0 <= i < k ==> pixels@[i] == spec_gamma(self.pixels@[i]),
            decreases n - k,
        {
            let c = self.pixels[k];
            pixels.push(Col::new(fsqrt(c.r()), fsqrt(c.g()), fsqrt(c.b())));
            k += 1;
        }
        proof {
            assert(pixels@ =~= spec_gamma_grid(self.pixels@));
        }
        Image { w: self.w, h: self.h, pixels }
    }
}

} // verus!
