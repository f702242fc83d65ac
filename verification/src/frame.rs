//! The frame buffer: a grid of panel colours in row-major order, owned by the
//! rendering loop and read by the bridge once a frame is complete.

use crate::color::Rgb565;
use vstd::prelude::*;

verus! {

/// A grid of `cols` by `rows` pixels.
pub struct FrameBuffer {
    cols: usize,
    rows: usize,
    pixels: Vec<Rgb565>,
}

/// `y * cols + x` stays below `cols * rows` for a position inside the grid.
pub proof fn lemma_index_in_grid(x: int, y: int, cols: int, rows: int)
    requires
        0 <= x < cols,
        0 <= y < rows,
    ensures
        0 <= y * cols + x < cols * rows,
        y * cols + x < (y + 1) * cols,
        (y + 1) * cols == y * cols + cols,
        (y + 1) * cols <= cols * rows,
{
    assert(y * cols >= 0) by (nonlinear_arith)
        requires
            y >= 0,
            cols > 0,
    ;
    assert((y + 1) * cols == y * cols + cols) by (nonlinear_arith);
    assert((y + 1) * cols <= rows * cols) by (nonlinear_arith)
        requires
            y + 1 <= rows,
            cols > 0,
    ;
    assert(rows * cols == cols * rows) by (nonlinear_arith);
}

/// Two positions of a grid with the same index are the same position.
pub proof fn lemma_index_is_one_to_one(x: int, y: int, other_x: int, other_y: int, cols: int)
    requires
        0 <= x < cols,
        0 <= other_x < cols,
        0 <= y,
        0 <= other_y,
        y * cols + x == other_y * cols + other_x,
    ensures
        x == other_x,
        y == other_y,
{
    vstd::arithmetic::div_mod::lemma_fundamental_div_mod_converse(y * cols + x, cols, y, x);
    vstd::arithmetic::div_mod::lemma_fundamental_div_mod_converse(
        other_y * cols + other_x,
        cols,
        other_y,
        other_x,
    );
}

impl FrameBuffer {
    /// Number of columns.
    pub closed spec fn cols(&self) -> nat {
        self.cols as nat
    }

    /// Number of rows.
    pub closed spec fn rows(&self) -> nat {
        self.rows as nat
    }

    /// The pixels, row after row.
    pub closed spec fn pixels(&self) -> Seq<Rgb565> {
        self.pixels@
    }

    /// The frame holds exactly one colour for each position of the grid.
    pub open spec fn wf(&self) -> bool {
        self.pixels().len() == self.cols() * self.rows()
    }

    /// The colour at column `x` of row `y`.
    pub open spec fn pixel(&self, x: int, y: int) -> Rgb565 {
        self.pixels()[y * self.cols() + x]
    }

    /// The colours of row `y`, left to right.
    pub open spec fn row(&self, y: int) -> Seq<Rgb565> {
        self.pixels().subrange(y * self.cols(), (y + 1) * self.cols())
    }

    /// A frame of the given size with every pixel set to `fill`. There is none
    /// where the number of pixels does not fit the machine's word.
    pub fn new(cols: usize, rows: usize, fill: Rgb565) -> (frame: Option<FrameBuffer>)
        ensures
            frame is Some <==> cols * rows <= usize::MAX,
            frame matches Some(f) ==> {
                &&& f.wf()
                &&& f.cols() == cols
                &&& f.rows() == rows
                &&& forall|i: int| 0 <= i < cols * rows ==> f.pixels()[i] == fill
            },
    {
        let total: usize = match cols.checked_mul(rows) {
            Some(t) => t,
            None => {
                return None;
            },
        };
        let mut pixels: Vec<Rgb565> = Vec::new();
        let mut i: usize = 0;
        while i < total
            invariant
                i <= total,
                pixels@.len() == i,
                forall|k: int| 0 <= k < i ==> pixels@[k] == fill,
            decreases total - i,
        {
            pixels.push(fill);
            i += 1;
        }
        Some(FrameBuffer { cols, rows, pixels })
    }

    /// The frame that holds the given pixels, row after row. There is none
    /// where their number is not `cols * rows`.
    pub fn from_pixels(cols: usize, rows: usize, pixels: Vec<Rgb565>) -> (frame: Option<FrameBuffer>)
        ensures
            frame is Some <==> pixels@.len() == cols * rows,
            frame matches Some(f) ==> {
                &&& f.wf()
                &&& f.cols() == cols
                &&& f.rows() == rows
                &&& f.pixels() == pixels@
            },
    {
        let given: usize = pixels.len();
        match cols.checked_mul(rows) {
            Some(total) => {
                if given == total {
                    Some(FrameBuffer { cols, rows, pixels })
                } else {
                    None
                }
            },
            None => None,
        }
    }

    /// Number of columns.
    pub fn width(&self) -> (cols: usize)
        ensures
            cols == self.cols(),
    {
        self.cols
    }

    /// Number of rows.
    pub fn height(&self) -> (rows: usize)
        ensures
            rows == self.rows(),
    {
        self.rows
    }

    /// The pixels, row after row.
    pub fn as_pixels(&self) -> (pixels: &Vec<Rgb565>)
        ensures
            pixels@ == self.pixels(),
    {
        &self.pixels
    }

    /// The colour at column `x` of row `y`, if the position is in the grid.
    pub fn get(&self, x: usize, y: usize) -> (color: Option<Rgb565>)
        requires
            self.wf(),
        ensures
            color is Some <==> x < self.cols() && y < self.rows(),
            color matches Some(c) ==> c == self.pixel(x as int, y as int),
    {
        let total: usize = self.pixels.len();
        if x < self.cols && y < self.rows {
            proof {
                lemma_index_in_grid(x as int, y as int, self.cols as int, self.rows as int);
            }
            Some(self.pixels[y * self.cols + x])
        } else {
            None
        }
    }

    /// Sets the colour at column `x` of row `y` and says whether the position
    /// is in the grid; outside it nothing changes.
    pub fn set(&mut self, x: usize, y: usize, color: Rgb565) -> (inside: bool)
        requires
            old(self).wf(),
        ensures
            final(self).wf(),
            final(self).cols() == old(self).cols(),
            final(self).rows() == old(self).rows(),
            inside <==> x < old(self).cols() && y < old(self).rows(),
            inside ==> final(self).pixels() == old(self).pixels().update(
                y * old(self).cols() + x,
                color,
            ),
            !inside ==> final(self).pixels() == old(self).pixels(),
            forall|px: int, py: int|
                0 <= px < old(self).cols() && 0 <= py < old(self).rows() ==> #[trigger] final(self).pixel(
                    px,
                    py,
                ) == if inside && px == x && py == y {
                    color
                } else {
                    old(self).pixel(px, py)
                },
    {
        let total: usize = self.pixels.len();
        if x < self.cols && y < self.rows {
            proof {
                lemma_index_in_grid(x as int, y as int, self.cols as int, self.rows as int);
            }
            let index: usize = y * self.cols + x;
            self.pixels.set(index, color);
            proof {
                assert forall|px: int, py: int|
                    0 <= px < old(self).cols() && 0 <= py < old(self).rows() implies #[trigger] self.pixel(
                    px,
                    py,
                ) == if px == x && py == y {
                    color
                } else {
                    old(self).pixel(px, py)
                } by {
                    lemma_index_in_grid(px, py, self.cols as int, self.rows as int);
                    if py * self.cols + px == y * self.cols + x {
                        lemma_index_is_one_to_one(px, py, x as int, y as int, self.cols as int);
                    }
                }
            }
            true
        } else {
            false
        }
    }

    /// A copy of row `y`, if the frame has such a row.
    pub fn row_pixels(&self, y: usize) -> (line: Option<Vec<Rgb565>>)
        requires
            self.wf(),
        ensures
            line is Some <==> y < self.rows(),
            line matches Some(l) ==> l@ == self.row(y as int),
    {
        let total: usize = self.pixels.len();
        if y >= self.rows {
            return None;
        }
        let mut line: Vec<Rgb565> = Vec::new();
        if self.cols == 0 {
            assert(line@ =~= self.row(y as int)) by {
                assert(y * 0 == 0 && (y + 1) * 0 == 0) by (nonlinear_arith);
            }
            return Some(line);
        }
        proof {
            lemma_index_in_grid(0, y as int, self.cols as int, self.rows as int);
        }
        let start: usize = y * self.cols;
        let mut x: usize = 0;
        while x < self.cols
            invariant
                self.wf(),
                y < self.rows,
                start == y * self.cols,
                (y + 1) * self.cols <= self.cols * self.rows,
                (y + 1) * self.cols == start + self.cols,
                self.pixels@.len() <= usize::MAX,
                x <= self.cols,
                line@.len() == x,
                forall|k: int| 0 <= k < x ==> line@[k] == self.row(y as int)[k],
            decreases self.cols - x,
        {
            assert(self.row(y as int)[x as int] == self.pixels@[start + x]);
            line.push(self.pixels[start + x]);
            x += 1;
        }
        assert(line@ =~= self.row(y as int));
        Some(line)
    }

    /// Whether row `y` of this frame and row `y` of `other` hold the same
    /// colours. Rows that either frame lacks, or rows of frames of different
    /// widths, count as different.
    pub fn same_row(&self, other: &FrameBuffer, y: usize) -> (same: bool)
        requires
            self.wf(),
            other.wf(),
        ensures
            same <==> {
                &&& y < self.rows()
                &&& y < other.rows()
                &&& self.cols() == other.cols()
                &&& self.row(y as int) == other.row(y as int)
            },
    {
        let total: usize = self.pixels.len();
        let other_total: usize = other.pixels.len();
        if y >= self.rows || y >= other.rows || self.cols != other.cols {
            return false;
        }
        if self.cols == 0 {
            assert(self.row(y as int) =~= other.row(y as int)) by {
                assert(y * 0 == 0 && (y + 1) * 0 == 0) by (nonlinear_arith);
            }
            return true;
        }
        proof {
            lemma_index_in_grid(0, y as int, self.cols as int, self.rows as int);
            lemma_index_in_grid(0, y as int, other.cols as int, other.rows as int);
        }
        let start: usize = y * self.cols;
        let mut x: usize = 0;
        while x < self.cols
            invariant
                self.wf(),
                other.wf(),
                self.cols == other.cols,
                start == y * self.cols,
                (y + 1) * self.cols == start + self.cols,
                (y + 1) * self.cols <= self.cols * self.rows,
                (y + 1) * self.cols <= other.cols * other.rows,
                self.pixels@.len() <= usize::MAX,
                x <= self.cols,
                forall|k: int| 0 <= k < x ==> self.row(y as int)[k] == other.row(y as int)[k],
            decreases self.cols - x,
        {
            assert(self.row(y as int)[x as int] == self.pixels@[start + x]);
            assert(other.row(y as int)[x as int] == other.pixels@[start + x]);
            if self.pixels[start + x].raw != other.pixels[start + x].raw {
                return false;
            }
            x += 1;
        }
        assert(self.row(y as int) =~= other.row(y as int));
        true
    }
}

} // verus!
