//! A pixel grid of colors, row major. Encoding to an image file is not the
//! grid's business; it only stores and hands back pixels.

use crate::color::spec_black;
use crate::color::Color;
use vstd::pervasive::VecAdditionalExecFns;
use vstd::prelude::*;

verus! {

/// A width x height grid of colors, row major.
#[derive(Debug)]
pub struct Canvas {
    pub width: usize,
    pub height: usize,
    pub pixels: Vec<Color>,
}

/// The grid holds exactly `width * height` pixels.
pub open spec fn canvas_wf(c: Canvas) -> bool {
    c.pixels@.len() == c.width * c.height
}

proof fn lemma_grid_index_in_range(w: int, h: int, x: int, y: int)
    by (nonlinear_arith)
    requires
        0 <= x < w,
        0 <= y < h,
    ensures
        0 <= w * y + x < w * h,
{
}

impl Canvas {
    /// A canvas of the given size, all black.
    pub fn new(width: usize, height: usize) -> (c: Canvas)
        requires
            width * height <= usize::MAX,
        ensures
            c.width == width,
            c.height == height,
            canvas_wf(c),
            forall|j: int| 0 <= j < c.pixels@.len() ==> c.pixels@[j] == spec_black(),
    {
        let n = width * height;
        let mut pixels: Vec<Color> = Vec::new();
        let mut i: usize = 0;
        while i < n
            invariant
                0 <= i <= n,
                pixels@.len() == i,
                forall|j: int| 0 <= j < i ==> pixels@[j] == spec_black(),
            decreases n - i,
        {
            pixels.push(Color::black());
            i = i + 1;
        }
        Canvas { width, height, pixels }
    }

    /// Write a pixel; a coordinate outside the grid is ignored.
    pub fn write_pixel(&mut self, x: usize, y: usize, color: Color)
        requires
            canvas_wf(*old(self)),
        ensures
            canvas_wf(*final(self)),
            final(self).width == old(self).width,
            final(self).height == old(self).height,
            x < old(self).width && y < old(self).height ==> final(self).pixels@ == old(
                self,
            ).pixels@.update((old(self).width * y + x) as int, color),
            !(x < old(self).width && y < old(self).height) ==> final(self).pixels@ == old(
                self,
            ).pixels@,
    {
        if x < self.width && y < self.height {
            let n = self.pixels.len();
            proof {
                lemma_grid_index_in_range(
                    self.width as int,
                    self.height as int,
                    x as int,
                    y as int,
                );
            }
            let i = self.width * y + x;
            self.pixels.set(i, color);
        }
    }

    /// The pixel at `(x, y)`.
    pub fn pixel_at(&self, x: usize, y: usize) -> (r: Color)
        requires
            canvas_wf(*self),
            x < self.width,
            y < self.height,
        ensures
            r == self.pixels@[(self.width * y + x) as int],
    {
        let n = self.pixels.len();
        proof {
            lemma_grid_index_in_range(self.width as int, self.height as int, x as int, y as int);
        }
        self.pixels[self.width * y + x]
    }

    /// Set every pixel to the same color.
    pub fn fill(&mut self, c: Color)
        ensures
            final(self).width == old(self).width,
            final(self).height == old(self).height,
            final(self).pixels@.len() == old(self).pixels@.len(),
            forall|j: int| 0 <= j < final(self).pixels@.len() ==> final(self).pixels@[j] == c,
    {
        let n = self.pixels.len();
        let mut i: usize = 0;
        while i < n
            invariant
                0 <= i <= n,
                self.pixels@.len() == n,
                self.width == old(self).width,
                self.height == old(self).height,
                forall|j: int| 0 <= j < i ==> self.pixels@[j] == c,
            decreases n - i,
        {
            self.pixels.set(i, c);
            i = i + 1;
        }
    }
}

} // verus!
