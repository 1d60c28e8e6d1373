//! The pixel grid a render writes into.

use vstd::prelude::*;

use crate::color::Color;

verus! {

#[derive(Debug)]
pub struct Canvas {
    pub width: usize,
    pub height: usize,
    pub pixels: Vec<Color>,
}

/// Distinct in-range pixel coordinates live at distinct indices.
proof fn lemma_pixel_index_injective(w: int, x1: int, y1: int, x2: int, y2: int)
    requires
        0 <= x1 < w,
        0 <= x2 < w,
        0 <= y1,
        0 <= y2,
        !(x1 == x2 && y1 == y2),
    ensures
        y1 * w + x1 != y2 * w + x2,
{
    assert(y1 * w + x1 != y2 * w + x2) by (nonlinear_arith)
        requires
            0 <= x1 < w,
            0 <= x2 < w,
            0 <= y1,
            0 <= y2,
            !(x1 == x2 && y1 == y2),
    ;
}

/// A pixel's index is inside the buffer.
proof fn lemma_pixel_index_in_range(w: int, h: int, x: int, y: int)
    requires
        0 <= x < w,
        0 <= y < h,
    ensures
        0 <= y * w + x < w * h,
{
    assert(0 <= y * w + x < w * h) by (nonlinear_arith)
        requires
            0 <= x < w,
            0 <= y < h,
    ;
}

impl Canvas {
    /// The buffer holds exactly one color per pixel.
    pub open spec fn wf(self) -> bool {
        self.pixels@.len() == (self.width as int) * (self.height as int)
    }

    pub open spec fn spec_width(self) -> int {
        self.width as int
    }

    pub open spec fn spec_height(self) -> int {
        self.height as int
    }

    /// The color stored for the pixel at `(x, y)`.
    pub open spec fn spec_pixel(self, x: int, y: int) -> Color {
        self.pixels@[y * (self.width as int) + x]
    }

    /// An all-black canvas.
    pub fn new(width: usize, height: usize) -> (r: Canvas)
        requires
            (width as int) * (height as int) <= 0xffff_ffff,
        ensures
            r.wf(),
            r.spec_width() == width,
            r.spec_height() == height,
            forall|x: int, y: int|
                0 <= x < width && 0 <= y < height ==> #[trigger] r.spec_pixel(x, y)
                    == crate::color::spec_black(),
    {
        proof {
            assert((width as int) * (height as int) >= 0) by (nonlinear_arith);
        }
        let n: usize = width * height;
        let mut pixels: Vec<Color> = Vec::new();
        let mut i: usize = 0;
        while i < n
            invariant
                i <= n,
                pixels@.len() == i,
                forall|k: int| 0 <= k < i ==> #[trigger] pixels@[k] == crate::color::spec_black(),
            decreases n - i,
        {
            pixels.push(Color::black());
            i = i + 1;
        }
        let r = Canvas { width, height, pixels };
        proof {
            assert forall|x: int, y: int|
                0 <= x < width && 0 <= y < height implies #[trigger] r.spec_pixel(x, y)
                == crate::color::spec_black() by {
                lemma_pixel_index_in_range(width as int, height as int, x, y);
            }
        }
        r
    }

    pub fn width(&self) -> (r: usize)
        ensures
            r == self.spec_width(),
    {
        self.width
    }

    pub fn height(&self) -> (r: usize)
        ensures
            r == self.spec_height(),
    {
        self.height
    }

    pub fn pixels(&self) -> (r: &Vec<Color>)
        ensures
            r@ == self.pixels@,
    {
        &self.pixels
    }

    /// Stores one pixel; every other pixel keeps its color.
    pub fn write_pixel(&mut self, x: usize, y: usize, color: Color)
        requires
            old(self).wf(),
            x < old(self).spec_width(),
            y < old(self).spec_height(),
        ensures
            final(self).wf(),
            final(self).spec_width() == old(self).spec_width(),
            final(self).spec_height() == old(self).spec_height(),
            final(self).spec_pixel(x as int, y as int) == color,
            forall|i: int, j: int|
                0 <= i < old(self).spec_width() && 0 <= j < old(self).spec_height() && !(i == x
                    && j == y) ==> #[trigger] final(self).spec_pixel(i, j) == old(
                    self,
                ).spec_pixel(i, j),
    {
        let n = self.pixels.len();
        proof {
            lemma_pixel_index_in_range(
                self.width as int,
                self.height as int,
                x as int,
                y as int,
            );
            assert((y as int) * (self.width as int) + (x as int) < n as int);
        }
        let index: usize = y * self.width + x;
        self.pixels.set(index, color);
        proof {
            assert forall|i: int, j: int|
                0 <= i < old(self).spec_width() && 0 <= j < old(self).spec_height() && !(i
                    == x as int && j == y as int) implies #[trigger] self.spec_pixel(i, j)
                == old(self).spec_pixel(i, j) by {
                lemma_pixel_index_in_range(self.width as int, self.height as int, i, j);
                lemma_pixel_index_injective(self.width as int, i, j, x as int, y as int);
            }
        }
    }

    /// Reads one pixel.
    pub fn pixel_at(&self, x: usize, y: usize) -> (r: Color)
        requires
            self.wf(),
            x < self.spec_width(),
            y < self.spec_height(),
        ensures
            r == self.spec_pixel(x as int, y as int),
    {
        let n = self.pixels.len();
        proof {
            lemma_pixel_index_in_range(
                self.width as int,
                self.height as int,
                x as int,
                y as int,
            );
            assert((y as int) * (self.width as int) + (x as int) < n as int);
        }
        let index: usize = y * self.width + x;
        self.pixels[index]
    }

    /// Paints every pixel one color.
    pub fn set_all_pixels_to_color(&mut self, color: Color)
        requires
            old(self).wf(),
        ensures
            final(self).wf(),
            final(self).spec_width() == old(self).spec_width(),
            final(self).spec_height() == old(self).spec_height(),
            forall|x: int, y: int|
                0 <= x < old(self).spec_width() && 0 <= y < old(self).spec_height()
                    ==> #[trigger] final(self).spec_pixel(x, y) == color,
    {
        let n = self.pixels.len();
        let mut i: usize = 0;
        while i < n
            invariant
                i <= n,
                self.pixels@.len() == n,
                self.width == old(self).width,
                self.height == old(self).height,
                forall|k: int| 0 <= k < i ==> #[trigger] self.pixels@[k] == color,
            decreases n - i,
        {
            self.pixels.set(i, color);
            i = i + 1;
        }
        proof {
            assert forall|x: int, y: int|
                0 <= x < old(self).spec_width() && 0 <= y < old(self).spec_height()
                    implies #[trigger] self.spec_pixel(x, y) == color by {
                lemma_pixel_index_in_range(self.width as int, self.height as int, x, y);
            }
        }
    }
}

} // verus!
