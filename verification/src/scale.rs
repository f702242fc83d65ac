//! The scaling adapter: a logical frame drawn onto a larger panel, each
//! logical pixel becoming a square block of physical pixels.

use crate::color::Rgb565;
use crate::frame::{lemma_index_in_grid, FrameBuffer};
use vstd::arithmetic::div_mod::{lemma_fundamental_div_mod, lemma_fundamental_div_mod_converse};
use vstd::prelude::*;

verus! {

/// `physical` shows `logical` enlarged by `factor`: it is `factor` times as
/// wide and as high, and each of its pixels has the colour of the logical
/// pixel whose block it lies in.
pub open spec fn is_scaled(logical: &FrameBuffer, physical: &FrameBuffer, factor: nat) -> bool {
    &&& factor >= 1
    &&& physical.wf()
    &&& physical.cols() == logical.cols() * factor
    &&& physical.rows() == logical.rows() * factor
    &&& forall|px: int, py: int|
        0 <= px < physical.cols() && 0 <= py < physical.rows() ==> #[trigger] physical.pixel(px, py)
            == logical.pixel(px / (factor as int), py / (factor as int))
}

/// Whether a frame of `cols` by `rows` pixels enlarged by `factor` can be
/// held: both sides and the number of pixels fit the machine's word.
pub open spec fn scaled_fits(cols: nat, rows: nat, factor: nat) -> bool {
    &&& cols * factor <= usize::MAX
    &&& rows * factor <= usize::MAX
    &&& (cols * factor) * (rows * factor) <= usize::MAX
}

/// A position below `n * factor` lies in one of the first `n` blocks.
proof fn lemma_block_index(p: int, n: int, factor: int)
    requires
        0 <= p < n * factor,
        factor > 0,
    ensures
        0 <= p / factor < n,
{
    lemma_fundamental_div_mod(p, factor);
    let q = p / factor;
    let r = p % factor;
    assert(0 <= r < factor);
    assert(q < n) by (nonlinear_arith)
        requires
            p == factor * q + r,
            0 <= r,
            p < n * factor,
            factor > 0,
    ;
    assert(q >= 0) by (nonlinear_arith)
        requires
            p == factor * q + r,
            r < factor,
            p >= 0,
            factor > 0,
    ;
}

/// The index in the logical frame of the pixel that the physical pixel at
/// index `k` shows.
spec fn source_index(k: int, physical_cols: int, cols: int, factor: int) -> int {
    ((k / physical_cols) / factor) * cols + (k % physical_cols) / factor
}

/// The logical frame enlarged by `factor`. There is none where `factor` is
/// zero or the enlarged frame cannot be held.
pub fn scale_frame(logical: &FrameBuffer, factor: usize) -> (physical: Option<FrameBuffer>)
    requires
        logical.wf(),
    ensures
        physical is Some <==> factor >= 1 && scaled_fits(
            logical.cols(),
            logical.rows(),
            factor as nat,
        ),
        physical matches Some(p) ==> is_scaled(logical, &p, factor as nat),
{
    if factor == 0 {
        return None;
    }
    let cols: usize = logical.width();
    let rows: usize = logical.height();
    let physical_cols: usize = match cols.checked_mul(factor) {
        Some(c) => c,
        None => {
            return None;
        },
    };
    let physical_rows: usize = match rows.checked_mul(factor) {
        Some(r) => r,
        None => {
            return None;
        },
    };
    let total: usize = match physical_cols.checked_mul(physical_rows) {
        Some(t) => t,
        None => {
            return None;
        },
    };
    let mut out: Vec<Rgb565> = Vec::new();
    let mut py: usize = 0;
    while py < physical_rows
        invariant
            logical.wf(),
            factor >= 1,
            cols == logical.cols(),
            rows == logical.rows(),
            physical_cols == cols * factor,
            physical_rows == rows * factor,
            total == physical_cols * physical_rows,
            py <= physical_rows,
            out@.len() == py * physical_cols,
            forall|k: int|
                0 <= k < out@.len() ==> #[trigger] out@[k] == logical.pixels()[source_index(
                    k,
                    physical_cols as int,
                    cols as int,
                    factor as int,
                )],
        decreases physical_rows - py,
    {
        let ly: usize = py / factor;
        proof {
            lemma_block_index(py as int, rows as int, factor as int);
            assert((py + 1) * physical_cols == py * physical_cols + physical_cols)
                by (nonlinear_arith);
        }
        let mut px: usize = 0;
        while px < physical_cols
            invariant
                logical.wf(),
                factor >= 1,
                cols == logical.cols(),
                rows == logical.rows(),
                physical_cols == cols * factor,
                py < physical_rows,
                ly == py / factor,
                ly < rows,
                px <= physical_cols,
                out@.len() == py * physical_cols + px,
                forall|k: int|
                    0 <= k < out@.len() ==> #[trigger] out@[k] == logical.pixels()[source_index(
                        k,
                        physical_cols as int,
                        cols as int,
                        factor as int,
                    )],
            decreases physical_cols - px,
        {
            let lx: usize = px / factor;
            proof {
                lemma_block_index(px as int, cols as int, factor as int);
                lemma_fundamental_div_mod_converse(
                    py * physical_cols + px,
                    physical_cols as int,
                    py as int,
                    px as int,
                );
            }
            let color: Rgb565 = match logical.get(lx, ly) {
                Some(c) => c,
                None => {
                    proof {
                        assert(false);
                    }
                    return None;
                },
            };
            out.push(color);
            px += 1;
        }
        py += 1;
    }
    let physical = FrameBuffer::from_pixels(physical_cols, physical_rows, out);
    proof {
        assert(physical_rows * physical_cols == physical_cols * physical_rows)
            by (nonlinear_arith);
        let p = physical->Some_0;
        assert forall|qx: int, qy: int| 0 <= qx < p.cols() && 0 <= qy < p.rows() implies #[trigger] p.pixel(
            qx,
            qy,
        ) == logical.pixel(qx / (factor as int), qy / (factor as int)) by {
            lemma_index_in_grid(qx, qy, physical_cols as int, physical_rows as int);
            lemma_fundamental_div_mod_converse(qy * physical_cols + qx, physical_cols as int, qy, qx);
        }
    }
    physical
}

/// Every logical pixel fills its block: the logical pixel at `(x, y)` gives
/// its colour to each of the `factor * factor` physical pixels at
/// `(x * factor + dx, y * factor + dy)` with `dx` and `dy` below `factor`,
/// and all of these lie on the panel.
pub proof fn scaled_pixel_fills_block(
    logical: &FrameBuffer,
    physical: &FrameBuffer,
    factor: nat,
    x: int,
    y: int,
    dx: int,
    dy: int,
)
    requires
        is_scaled(logical, physical, factor),
        0 <= x < logical.cols(),
        0 <= y < logical.rows(),
        0 <= dx < factor,
        0 <= dy < factor,
    ensures
        0 <= x * factor + dx < physical.cols(),
        0 <= y * factor + dy < physical.rows(),
        physical.pixel(x * factor + dx, y * factor + dy) == logical.pixel(x, y),
{
    let f = factor as int;
    lemma_fundamental_div_mod_converse(x * f + dx, f, x, dx);
    lemma_fundamental_div_mod_converse(y * f + dy, f, y, dy);
    assert(0 <= x * f + dx < logical.cols() * f) by (nonlinear_arith)
        requires
            0 <= x < logical.cols(),
            0 <= dx < f,
    ;
    assert(0 <= y * f + dy < logical.rows() * f) by (nonlinear_arith)
        requires
            0 <= y < logical.rows(),
            0 <= dy < f,
    ;
}

/// The blocks leave no gap and do not overlap: each physical pixel lies in
/// the block of exactly one logical pixel, the one at
/// `(px / factor, py / factor)`.
pub proof fn blocks_partition_panel(
    logical: &FrameBuffer,
    physical: &FrameBuffer,
    factor: nat,
    px: int,
    py: int,
    x: int,
    y: int,
)
    requires
        is_scaled(logical, physical, factor),
        0 <= px < physical.cols(),
        0 <= py < physical.rows(),
    ensures
        0 <= px / (factor as int) < logical.cols(),
        0 <= py / (factor as int) < logical.rows(),
        (x * factor <= px < x * factor + factor && y * factor <= py < y * factor + factor) <==> (x
            == px / (factor as int) && y == py / (factor as int)),
{
    let f = factor as int;
    lemma_block_index(px, logical.cols() as int, f);
    lemma_block_index(py, logical.rows() as int, f);
    lemma_fundamental_div_mod(px, f);
    lemma_fundamental_div_mod(py, f);
    assert(f * (px / f) == (px / f) * f) by (nonlinear_arith);
    assert(f * (py / f) == (py / f) * f) by (nonlinear_arith);
    if x * f <= px < x * f + f {
        lemma_fundamental_div_mod_converse(px, f, x, px - x * f);
    }
    if y * f <= py < y * f + f {
        lemma_fundamental_div_mod_converse(py, f, y, py - y * f);
    }
}

/// A position lies in block `q` of width `factor` exactly when its quotient
/// by `factor` is `q`.
proof fn lemma_block_is_quotient(p: int, q: int, factor: int)
    requires
        0 <= p,
        0 <= q,
        factor > 0,
    ensures
        (q * factor <= p < q * factor + factor) <==> p / factor == q,
{
    lemma_fundamental_div_mod(p, factor);
    assert(factor * (p / factor) == (p / factor) * factor) by (nonlinear_arith);
    if q * factor <= p < q * factor + factor {
        lemma_fundamental_div_mod_converse(p, factor, q, p - q * factor);
    }
}

/// The scaling adapter as a drawing target: it takes logical pixels and
/// passes each on to the panel's frame as a square block.
pub struct ScaledTarget {
    panel: FrameBuffer,
    cols: usize,
    rows: usize,
    factor: usize,
}

impl ScaledTarget {
    /// The panel's frame.
    pub closed spec fn panel(&self) -> FrameBuffer {
        self.panel
    }

    /// Width of the logical frame.
    pub closed spec fn cols(&self) -> nat {
        self.cols as nat
    }

    /// Height of the logical frame.
    pub closed spec fn rows(&self) -> nat {
        self.rows as nat
    }

    /// Panel pixels per logical pixel, along one axis.
    pub closed spec fn factor(&self) -> nat {
        self.factor as nat
    }

    /// The panel's frame is `factor` times as wide and as high as the
    /// logical frame.
    pub open spec fn wf(&self) -> bool {
        &&& self.factor() >= 1
        &&& self.panel().wf()
        &&& self.panel().cols() == self.cols() * self.factor()
        &&& self.panel().rows() == self.rows() * self.factor()
    }

    /// A target for logical frames of `cols` by `rows` pixels, enlarged by
    /// `factor`, with every panel pixel set to `fill`. There is none where
    /// `factor` is zero or the panel's frame cannot be held.
    pub fn new(cols: usize, rows: usize, factor: usize, fill: Rgb565) -> (target: Option<
        ScaledTarget,
    >)
        ensures
            target is Some <==> factor >= 1 && scaled_fits(cols as nat, rows as nat, factor as nat),
            target matches Some(t) ==> {
                &&& t.wf()
                &&& t.cols() == cols
                &&& t.rows() == rows
                &&& t.factor() == factor
                &&& forall|i: int|
                    0 <= i < t.panel().pixels().len() ==> t.panel().pixels()[i] == fill
            },
    {
        if factor == 0 {
            return None;
        }
        let panel_cols: usize = match cols.checked_mul(factor) {
            Some(c) => c,
            None => {
                return None;
            },
        };
        let panel_rows: usize = match rows.checked_mul(factor) {
            Some(r) => r,
            None => {
                return None;
            },
        };
        match FrameBuffer::new(panel_cols, panel_rows, fill) {
            Some(panel) => Some(ScaledTarget { panel, cols, rows, factor }),
            None => None,
        }
    }

    /// The panel's frame as drawn so far.
    pub fn frame(&self) -> (panel: &FrameBuffer)
        ensures
            *panel == self.panel(),
    {
        &self.panel
    }

    /// Draws the logical pixel at `(x, y)` and says whether the position is
    /// on the logical frame; outside it nothing changes.
    ///
    /// The panel pixels of the block of `(x, y)`, those at
    /// `(x * factor + dx, y * factor + dy)` with `dx` and `dy` below
    /// `factor`, take the colour; every other panel pixel stays as it was.
    pub fn draw_pixel(&mut self, x: usize, y: usize, color: Rgb565) -> (inside: bool)
        requires
            old(self).wf(),
        ensures
            final(self).wf(),
            final(self).cols() == old(self).cols(),
            final(self).rows() == old(self).rows(),
            final(self).factor() == old(self).factor(),
            inside <==> x < old(self).cols() && y < old(self).rows(),
            forall|px: int, py: int|
                0 <= px < old(self).panel().cols() && 0 <= py < old(self).panel().rows()
                    ==> #[trigger] final(self).panel().pixel(px, py) == if inside && px / (old(
                    self,
                ).factor() as int) == x && py / (old(self).factor() as int) == y {
                    color
                } else {
                    old(self).panel().pixel(px, py)
                },
    {
        if x >= self.cols || y >= self.rows {
            return false;
        }
        let factor: usize = self.factor;
        let panel_cols: usize = self.panel.width();
        let panel_rows: usize = self.panel.height();
        proof {
            assert(x * factor + factor <= self.cols * factor) by (nonlinear_arith)
                requires
                    x < self.cols,
                    factor >= 1,
            ;
            assert(y * factor + factor <= self.rows * factor) by (nonlinear_arith)
                requires
                    y < self.rows,
                    factor >= 1,
            ;
        }
        let left: usize = x * factor;
        let top: usize = y * factor;
        let mut dy: usize = 0;
        while dy < factor
            invariant
                self.wf(),
                self.cols == old(self).cols,
                self.rows == old(self).rows,
                self.factor == factor,
                old(self).factor == factor,
                self.panel.cols() == panel_cols,
                self.panel.rows() == panel_rows,
                old(self).panel.cols() == panel_cols,
                old(self).panel.rows() == panel_rows,
                left + factor <= panel_cols,
                top + factor <= panel_rows,
                dy <= factor,
                forall|px: int, py: int|
                    0 <= px < panel_cols && 0 <= py < panel_rows ==> #[trigger] self.panel.pixel(
                        px,
                        py,
                    ) == if left <= px < left + factor && top <= py < top + dy {
                        color
                    } else {
                        old(self).panel.pixel(px, py)
                    },
            decreases factor - dy,
        {
            let mut dx: usize = 0;
            while dx < factor
                invariant
                    self.wf(),
                    self.cols == old(self).cols,
                    self.rows == old(self).rows,
                    self.factor == factor,
                    old(self).factor == factor,
                    self.panel.cols() == panel_cols,
                    self.panel.rows() == panel_rows,
                    old(self).panel.cols() == panel_cols,
                    old(self).panel.rows() == panel_rows,
                    left + factor <= panel_cols,
                    top + factor <= panel_rows,
                    dy < factor,
                    dx <= factor,
                    forall|px: int, py: int|
                        0 <= px < panel_cols && 0 <= py < panel_rows ==> #[trigger] self.panel.pixel(
                            px,
                            py,
                        ) == if (left <= px < left + factor && top <= py < top + dy) || (left <= px
                            < left + dx && py == top + dy) {
                            color
                        } else {
                            old(self).panel.pixel(px, py)
                        },
                decreases factor - dx,
            {
                self.panel.set(left + dx, top + dy, color);
                dx += 1;
            }
            dy += 1;
        }
        proof {
            assert forall|px: int, py: int|
                0 <= px < panel_cols && 0 <= py < panel_rows implies #[trigger] self.panel.pixel(
                px,
                py,
            ) == if px / (factor as int) == x && py / (factor as int) == y {
                color
            } else {
                old(self).panel.pixel(px, py)
            } by {
                lemma_block_is_quotient(px, x as int, factor as int);
                lemma_block_is_quotient(py, y as int, factor as int);
            }
        }
        true
    }
}

} // verus!
