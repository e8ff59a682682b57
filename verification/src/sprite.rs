use vstd::prelude::*;
use crate::pixel::{Pixel, pixel_rgb, spec_rgb};

verus! {

/// Position of cell `(x, y)` in the row-major pixel array of a buffer
/// that is `w` cells wide.
pub open spec fn cell_index(x: int, y: int, w: int) -> int {
    y * w + x
}

/// The coordinate of the in-bounds cell nearest to `v` along an axis of
/// extent `bound`: `v` itself when in bounds, the far edge otherwise.
/// (Coordinates are unsigned, so only the far edge can be exceeded.)
pub open spec fn clamped_coord(v: int, bound: int) -> int {
    if v < bound {
        v
    } else {
        bound - 1
    }
}

/// Whether cell `(i, j)` lies inside the rectangle with origin `(x, y)`,
/// width `w` and height `h`.
pub open spec fn rect_covers(x: int, y: int, w: int, h: int, i: int, j: int) -> bool {
    x <= i < x + w && y <= j < y + h
}

/// A cell of a `w`-by-`h` grid never indexes past the `w * h` cells of the
/// row-major array.
pub proof fn lemma_cell_index_bounds(x: int, y: int, w: int, h: int)
    by (nonlinear_arith)
    requires
        0 <= x < w,
        0 <= y < h,
    ensures
        0 <= cell_index(x, y, w) < w * h,
{
}

/// Distinct cells of a `w`-wide grid occupy distinct positions in the
/// row-major array.
pub proof fn lemma_cell_index_injective(x1: int, y1: int, x2: int, y2: int, w: int)
    by (nonlinear_arith)
    requires
        0 <= x1 < w,
        0 <= x2 < w,
        0 <= y1,
        0 <= y2,
        x1 != x2 || y1 != y2,
    ensures
        cell_index(x1, y1, w) != cell_index(x2, y2, w),
{
}

/// Clamping leaves an in-bounds coordinate unchanged, so a read at an
/// in-bounds `(x, y)` looks up cell `(x, y)` itself; in particular, right
/// after a successful write at `(x, y)` it returns the written color.
pub proof fn lemma_clamp_in_bounds_identity(v: int, bound: int)
    requires
        0 <= v < bound,
    ensures
        clamped_coord(v, bound) == v,
{
}

/// A read at any `(x, y)`, in or out of bounds, looks up an in-bounds cell:
/// the nearest one, which is `(x, y)` itself when in bounds and the far
/// edge of the exceeded axis otherwise.
pub proof fn lemma_clamped_coord_nearest(v: int, bound: int)
    requires
        bound > 0,
        0 <= v,
    ensures
        0 <= clamped_coord(v, bound) < bound,
        v < bound ==> clamped_coord(v, bound) == v,
        v >= bound ==> clamped_coord(v, bound) == bound - 1,
{
}

/// After a successful write of `c` at in-bounds `(x, y)`, the cell a read
/// at `(x, y)` looks up holds exactly `c`.
pub proof fn lemma_set_get_round_trip(s: GsnSprite, x: u32, y: u32, c: Pixel)
    requires
        s.wf(),
        x < s.spec_width(),
        y < s.spec_height(),
        s.color_at(x as int, y as int) == c,
    ensures
        s.color_at(
            clamped_coord(x as int, s.spec_width() as int),
            clamped_coord(y as int, s.spec_height() as int),
        ) == c,
{
}

/// The rectangle that spans the whole buffer covers every in-bounds cell,
/// so clearing describes the same result as filling that rectangle.
pub proof fn lemma_full_rect_covers_all(w: int, h: int, i: int, j: int)
    requires
        0 <= i < w,
        0 <= j < h,
    ensures
        rect_covers(0, 0, w, h, i, j),
{
}

/// A rectangle with zero width or zero height covers no cell, so filling
/// it touches nothing.
pub proof fn lemma_empty_rect_covers_nothing(x: int, y: int, w: int, h: int, i: int, j: int)
    requires
        w == 0 || h == 0,
    ensures
        !rect_covers(x, y, w, h, i, j),
{
}

/// The CPU-side frame: a fixed-size grid of colors stored row-major.
pub struct GsnSprite {
    width: u32,
    height: u32,
    data: Vec<Pixel>,
}

impl GsnSprite {
    /// Number of cells along the x axis.
    pub closed spec fn spec_width(&self) -> u32 {
        self.width
    }

    /// Number of cells along the y axis.
    pub closed spec fn spec_height(&self) -> u32 {
        self.height
    }

    /// Well-formed: the flat array holds exactly one color per cell.
    pub closed spec fn wf(&self) -> bool {
        &&& self.data@.len() == self.width * self.height
        &&& self.width * self.height <= usize::MAX
    }

    /// The color of the in-bounds cell `(x, y)`.
    pub closed spec fn color_at(&self, x: int, y: int) -> Pixel {
        self.data@[cell_index(x, y, self.width as int)]
    }

    /// Allocates a `width`-by-`height` grid with every cell black.
    pub fn new(width: u32, height: u32) -> (s: GsnSprite)
        requires
            width * height <= usize::MAX,
        ensures
            s.wf(),
            s.spec_width() == width,
            s.spec_height() == height,
            forall|i: int, j: int|
                0 <= i < width && 0 <= j < height ==> s.color_at(i, j) == spec_rgb(0u8, 0u8, 0u8),
    {
        let n: usize = (width as usize) * (height as usize);
        let mut data: Vec<Pixel> = Vec::new();
        let mut k: usize = 0;
        while k < n
            invariant
                k <= n,
                data@.len() == k,
                forall|m: int| 0 <= m < k ==> data@[m] == spec_rgb(0u8, 0u8, 0u8),
            decreases n - k,
        {
            data.push(pixel_rgb(0, 0, 0));
            k = k + 1;
        }
        let s = GsnSprite { width, height, data };
        proof {
            assert forall|i: int, j: int|
                0 <= i < width && 0 <= j < height implies s.color_at(i, j) == spec_rgb(
                0u8,
                0u8,
                0u8,
            ) by {
                lemma_cell_index_bounds(i, j, width as int, height as int);
            }
        }
        s
    }

    /// Number of cells along the x axis.
    pub fn width(&self) -> (w: u32)
        ensures
            w == self.spec_width(),
    {
        self.width
    }

    /// Number of cells along the y axis.
    pub fn height(&self) -> (h: u32)
        ensures
            h == self.spec_height(),
    {
        self.height
    }

    /// Writes `pixel` at `(x, y)` and returns true when `(x, y)` is strictly
    /// in bounds; refuses the write and returns false otherwise. Every other
    /// cell keeps its color either way.
    pub fn set_pixel(&mut self, x: u32, y: u32, pixel: Pixel) -> (written: bool)
        requires
            old(self).wf(),
        ensures
            final(self).wf(),
            final(self).spec_width() == old(self).spec_width(),
            final(self).spec_height() == old(self).spec_height(),
            written == (x < old(self).spec_width() && y < old(self).spec_height()),
            written ==> final(self).color_at(x as int, y as int) == pixel,
            forall|i: int, j: int|
                0 <= i < old(self).spec_width() && 0 <= j < old(self).spec_height() && !(i == x as int
                    && j == y as int) ==> final(self).color_at(i, j) == old(self).color_at(i, j),
    {
        if x < self.width && y < self.height {
            proof {
                lemma_cell_index_bounds(x as int, y as int, self.width as int, self.height as int);
            }
            let index: usize = (y as usize) * (self.width as usize) + (x as usize);
            self.data.set(index, pixel);
            proof {
                assert forall|i: int, j: int|
                    0 <= i < self.spec_width() && 0 <= j < self.spec_height() && !(i == x as int && j
                        == y as int) implies self.color_at(i, j) == old(self).color_at(i, j) by {
                    lemma_cell_index_bounds(i, j, self.width as int, self.height as int);
                    lemma_cell_index_injective(i, j, x as int, y as int, self.width as int);
                }
            }
            true
        } else {
            false
        }
    }

    /// Paints every cell of the intersection of the buffer with the
    /// rectangle of origin `(x, y)`, width `w` and height `h`; cells outside
    /// that intersection keep their color. An empty rectangle paints nothing.
    #[verifier::loop_isolation(false)]
    pub fn fill_rect(&mut self, x: u32, y: u32, w: u32, h: u32, p: Pixel)
        requires
            old(self).wf(),
        ensures
            final(self).wf(),
            final(self).spec_width() == old(self).spec_width(),
            final(self).spec_height() == old(self).spec_height(),
            forall|i: int, j: int|
                0 <= i < old(self).spec_width() && 0 <= j < old(self).spec_height()
                    ==> final(self).color_at(i, j) == (if rect_covers(
                    x as int,
                    y as int,
                    w as int,
                    h as int,
                    i,
                    j,
                ) {
                    p
                } else {
                    old(self).color_at(i, j)
                }),
    {
        let width = self.width;
        let height = self.height;
        let x0: u32 = if x < width {
            x
        } else {
            width
        };
        let y0: u32 = if y < height {
            y
        } else {
            height
        };
        let xe: u64 = x as u64 + w as u64;
        let ye: u64 = y as u64 + h as u64;
        let x2: u32 = if xe < width as u64 {
            xe as u32
        } else {
            width
        };
        let y2: u32 = if ye < height as u64 {
            ye as u32
        } else {
            height
        };
        let ghost s0 = *self;
        let mut dx: u32 = x0;
        while dx < x2
            invariant
                x0 <= dx <= x2,
                self.wf(),
                self.spec_width() == s0.spec_width(),
                self.spec_height() == s0.spec_height(),
                forall|i: int, j: int|
                    0 <= i < s0.spec_width() && 0 <= j < s0.spec_height() ==> self.color_at(i, j)
                        == (if x0 <= i < dx && y0 <= j < y2 {
                        p
                    } else {
                        s0.color_at(i, j)
                    }),
            decreases x2 - dx,
        {
            let mut dy: u32 = y0;
            while dy < y2
                invariant
                    y0 <= dy <= y2,
                    x0 <= dx < x2,
                    self.wf(),
                    self.spec_width() == s0.spec_width(),
                    self.spec_height() == s0.spec_height(),
                    forall|i: int, j: int|
                        0 <= i < s0.spec_width() && 0 <= j < s0.spec_height() ==> self.color_at(
                            i,
                            j,
                        ) == (if (x0 <= i < dx && y0 <= j < y2) || (i == dx && y0 <= j < dy) {
                            p
                        } else {
                            s0.color_at(i, j)
                        }),
                decreases y2 - dy,
            {
                self.set_pixel(dx, dy, p);
                dy = dy + 1;
            }
            dx = dx + 1;
        }
    }

    /// Paints every cell of the buffer with `p`. Equivalent to filling the
    /// rectangle that spans the whole buffer.
    pub fn clear(&mut self, p: Pixel)
        requires
            old(self).wf(),
        ensures
            final(self).wf(),
            final(self).spec_width() == old(self).spec_width(),
            final(self).spec_height() == old(self).spec_height(),
            forall|i: int, j: int|
                0 <= i < old(self).spec_width() && 0 <= j < old(self).spec_height()
                    ==> final(self).color_at(i, j) == p,
    {
        let width = self.width;
        let height = self.height;
        self.fill_rect(0, 0, width, height, p);
    }

    /// Reads the cell nearest to `(x, y)`: the coordinates are clamped into
    /// bounds first, so a read never fails.
    pub fn get_pixel(&self, x: u32, y: u32) -> (p: Pixel)
        requires
            self.wf(),
            self.spec_width() > 0,
            self.spec_height() > 0,
        ensures
            p == self.color_at(
                clamped_coord(x as int, self.spec_width() as int),
                clamped_coord(y as int, self.spec_height() as int),
            ),
    {
        let cx: u32 = if x < self.width {
            x
        } else {
            self.width - 1
        };
        let cy: u32 = if y < self.height {
            y
        } else {
            self.height - 1
        };
        proof {
            lemma_cell_index_bounds(cx as int, cy as int, self.width as int, self.height as int);
        }
        let index: usize = (cy as usize) * (self.width as usize) + (cx as usize);
        self.data[index]
    }
}

} // verus!
