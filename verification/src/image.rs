//! The finalized image buffer.

use crate::vec3::col::Col;
use vstd::prelude::*;

verus! {

/// A finished image: a grid of gamma-corrected colours.
#[derive(Debug)]
pub struct Image {
    pub w: usize,
    pub h: usize,
    pub pixels: Vec<Col>,
}

/// Whether the pixel vector covers the grid.
pub open spec fn image_wf(img: Image) -> bool {
    img.pixels@.len() == img.w * img.h && img.w * img.h <= usize::MAX
}

/// A pixel index is inside the grid's vector.
proof fn lemma_grid_index(x: int, y: int, w: int, h: int)
    by (nonlinear_arith)
    requires
        0 <= x < w,
        0 <= y < h,
    ensures
        0 <= x + w * y < w * h,
{
}

impl Image {
    /// A black image of the given size.
    pub fn new(w: usize, h: usize) -> (img: Image)
        requires
            w * h <= usize::MAX,
        ensures
            img.w == w,
            img.h == h,
            image_wf(img),
            forall|k: int|
                0 <= k < img.pixels@.len() ==> img.pixels@[k] == Col::spec_zero(),
    {
        let mut pixels: Vec<Col> = Vec::new();
        let n = w * h;
        let mut k: usize = 0;
        while k < n
            invariant
                k <= n,
                pixels@.len() == k,
                forall|i: int| 0 <= i < k ==> pixels@[i] == Col::spec_zero(),
            decreases n - k,
        {
            pixels.push(Col::zero());
            k += 1;
        }
        Image { w, h, pixels }
    }

    /// Sets one pixel.
    pub fn put(&mut self, x: usize, y: usize, c: Col)
        requires
            x < old(self).w,
            y < old(self).h,
            image_wf(*old(self)),
        ensures
            final(self).w == old(self).w,
            final(self).h == old(self).h,
            image_wf(*final(self)),
            final(self).pixels@ == old(self).pixels@.update(x + old(self).w * y, c),
    {
        proof {
            lemma_grid_index(x as int, y as int, self.w as int, self.h as int);
        }
        let idx = x + self.w * y;
        self.pixels.set(idx, c);
    }

    /// Reads one pixel.
    pub fn get(&self, x: usize, y: usize) -> (c: Col)
        requires
            x < self.w,
            y < self.h,
            image_wf(*self),
        ensures
            c == self.pixels@[x + self.w * y],
    {
        proof {
            lemma_grid_index(x as int, y as int, self.w as int, self.h as int);
        }
        self.pixels[x + self.w * y]
    }
}

} // verus!
