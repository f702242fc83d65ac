//! The rendering bridge: it takes each complete logical frame from the
//! rasterizer and turns it into the writes that the display transport
//! carries, enlarging the frame where the panel is larger and sending, on a
//! line-streamed transport, only the rows that changed.

use crate::color::{wire_pair, Rgb565};
use crate::frame::FrameBuffer;
use crate::scale::{is_scaled, scale_frame, scaled_fits};
use vstd::prelude::*;

verus! {

/// How the transport takes a frame.
#[derive(Clone, Copy, Debug, PartialEq, Eq, Structural)]
pub enum Transfer {
    /// The whole frame in one write.
    FullFrame,
    /// Row by row, one write for each row that changed.
    LineStreamed,
}

/// How the logical frame relates to the panel.
#[derive(Clone, Copy, Debug, PartialEq, Eq, Structural)]
pub enum Scaling {
    /// The logical frame has the panel's resolution.
    Unscaled,
    /// Each logical pixel covers a square of this many panel pixels a side.
    Scaled(usize),
}

impl Scaling {
    /// Panel pixels per logical pixel, along one axis.
    pub open spec fn factor(self) -> nat {
        match self {
            Scaling::Unscaled => 1,
            Scaling::Scaled(n) => n as nat,
        }
    }

    /// Panel pixels per logical pixel, along one axis.
    pub fn factor_of(&self) -> (n: usize)
        ensures
            n == self.factor(),
    {
        match self {
            Scaling::Unscaled => 1,
            Scaling::Scaled(n) => *n,
        }
    }
}

/// What a display variant can do, chosen when the bridge is set up.
#[derive(Clone, Copy, Debug, PartialEq, Eq, Structural)]
pub struct Capability {
    pub transfer: Transfer,
    pub scaling: Scaling,
    /// Whether the transport wants the low byte of each pixel first.
    pub swap_bytes: bool,
}

/// One write to the transport: the pixel bytes of `rows` full panel rows,
/// starting at row `y`.
#[derive(Debug)]
pub struct Write {
    pub y: usize,
    pub rows: usize,
    pub bytes: Vec<u8>,
}

/// A write as the contracts see it.
pub struct WriteView {
    pub y: nat,
    pub rows: nat,
    pub bytes: Seq<u8>,
}

impl View for Write {
    type V = WriteView;

    open spec fn view(&self) -> WriteView {
        WriteView { y: self.y as nat, rows: self.rows as nat, bytes: self.bytes@ }
    }
}

/// The writes of a list, each by its view.
pub open spec fn views(writes: Seq<Write>) -> Seq<WriteView> {
    Seq::new(writes.len(), |i: int| writes[i]@)
}

/// The frame that was handed in has not the size the bridge was set up for.
#[derive(Clone, Copy, Debug, PartialEq, Eq, Structural)]
pub struct SizeMismatch;

/// Byte `k` of the wire form of `pixels`: two bytes for each pixel, in the
/// order that `swap` asks for.
pub open spec fn wire_byte(pixels: Seq<Rgb565>, swap: bool, k: int) -> u8 {
    if k % 2 == 0 {
        wire_pair(pixels[k / 2].raw, swap).0
    } else {
        wire_pair(pixels[k / 2].raw, swap).1
    }
}

/// The wire form of a run of pixels.
pub open spec fn encode(pixels: Seq<Rgb565>, swap: bool) -> Seq<u8> {
    Seq::new(2 * pixels.len(), |k: int| wire_byte(pixels, swap, k))
}

/// The wire form of a run of pixels.
pub fn encode_pixels(pixels: &Vec<Rgb565>, swap: bool) -> (bytes: Vec<u8>)
    requires
        2 * pixels@.len() <= usize::MAX,
    ensures
        bytes@ == encode(pixels@, swap),
{
    let mut bytes: Vec<u8> = Vec::new();
    let mut i: usize = 0;
    while i < pixels.len()
        invariant
            2 * pixels@.len() <= usize::MAX,
            i <= pixels@.len(),
            bytes@.len() == 2 * i,
            forall|k: int| 0 <= k < 2 * i ==> bytes@[k] == wire_byte(pixels@, swap, k),
        decreases pixels@.len() - i,
    {
        let pair = pixels[i].wire_bytes(swap);
        bytes.push(pair.0);
        bytes.push(pair.1);
        i += 1;
    }
    assert(bytes@ =~= encode(pixels@, swap));
    bytes
}

/// Whether row `y` of the new frame `next` must be sent again: the panel
/// shows nothing yet, or shows a frame of another width, or its row `y`
/// differs.
pub open spec fn row_is_dirty(shown: Option<FrameBuffer>, next: &FrameBuffer, y: int) -> bool {
    !(shown matches Some(s) && y < s.rows() && s.cols() == next.cols() && s.row(y) == next.row(y))
}

/// The writes that bring the first `n` rows of the panel from `shown` to
/// `next`: one for each dirty row, top to bottom.
pub open spec fn line_writes(shown: Option<FrameBuffer>, next: &FrameBuffer, swap: bool, n: nat) -> Seq<
    WriteView,
>
    decreases n,
{
    if n == 0 {
        Seq::empty()
    } else {
        let before = line_writes(shown, next, swap, (n - 1) as nat);
        if row_is_dirty(shown, next, n - 1) {
            before.push(
                WriteView { y: (n - 1) as nat, rows: 1, bytes: encode(next.row(n - 1), swap) },
            )
        } else {
            before
        }
    }
}

/// The one write that carries the whole of `next`.
pub open spec fn full_write(next: &FrameBuffer, swap: bool) -> WriteView {
    WriteView { y: 0, rows: next.rows(), bytes: encode(next.pixels(), swap) }
}

/// The bridge between the rasterizer and the display transport.
pub struct Bridge {
    capability: Capability,
    cols: usize,
    rows: usize,
    shown: Option<FrameBuffer>,
}

impl Bridge {
    /// What the display can do.
    pub closed spec fn capability(&self) -> Capability {
        self.capability
    }

    /// Width of the logical frame.
    pub closed spec fn cols(&self) -> nat {
        self.cols as nat
    }

    /// Height of the logical frame.
    pub closed spec fn rows(&self) -> nat {
        self.rows as nat
    }

    /// The frame that the panel shows, once one was sent.
    pub closed spec fn shown(&self) -> Option<FrameBuffer> {
        self.shown
    }

    /// Whether a display with this capability can show logical frames of
    /// this size: the factor is not zero, and the enlarged frame and its
    /// wire form can be held.
    pub open spec fn can_hold(capability: Capability, cols: nat, rows: nat) -> bool {
        let factor = capability.scaling.factor();
        &&& factor >= 1
        &&& scaled_fits(cols, rows, factor)
        &&& 2 * ((cols * factor) * (rows * factor)) <= usize::MAX
    }

    /// The bridge is set up for a size it can hold, and what the panel shows
    /// has the panel's size.
    pub open spec fn wf(&self) -> bool {
        &&& Self::can_hold(self.capability(), self.cols(), self.rows())
        &&& self.shown() matches Some(s) ==> {
            &&& s.wf()
            &&& s.cols() == self.cols() * self.capability().scaling.factor()
            &&& s.rows() == self.rows() * self.capability().scaling.factor()
        }
    }

    /// A bridge for logical frames of `cols` by `rows` pixels on a display
    /// with the given capability; the panel shows nothing yet. There is none
    /// where the display cannot hold such frames.
    pub fn new(capability: Capability, cols: usize, rows: usize) -> (bridge: Option<Bridge>)
        ensures
            bridge is Some <==> Self::can_hold(capability, cols as nat, rows as nat),
            bridge matches Some(b) ==> {
                &&& b.wf()
                &&& b.capability() == capability
                &&& b.cols() == cols
                &&& b.rows() == rows
                &&& b.shown() is None
            },
    {
        let factor: usize = capability.scaling.factor_of();
        if factor == 0 {
            return None;
        }
        let panel_cols: usize = match cols.checked_mul(factor) {
            Some(c) => c,
            None => {
                return None;
            },
        };
        let panel_rows: usize = match rows.checked_mul(factor) {
            Some(r) => r,
            None => {
                return None;
            },
        };
        let pixels: usize = match panel_cols.checked_mul(panel_rows) {
            Some(p) => p,
            None => {
                return None;
            },
        };
        if pixels.checked_mul(2).is_none() {
            return None;
        }
        Some(Bridge { capability, cols, rows, shown: None })
    }

    /// Takes a complete logical frame and returns the writes that make the
    /// panel show it.
    ///
    /// A frame of another size than the bridge was set up for is refused and
    /// changes nothing. Otherwise the panel shows the frame, enlarged by the
    /// display's factor. A full-frame transport gets one write with the whole
    /// enlarged frame; a line-streamed transport gets one write for each row
    /// that differs from what the panel showed, top to bottom, and all rows
    /// the first time.
    pub fn submit_frame(&mut self, frame: &FrameBuffer) -> (result: Result<Vec<Write>, SizeMismatch>)
        requires
            old(self).wf(),
            frame.wf(),
        ensures
            final(self).wf(),
            final(self).capability() == old(self).capability(),
            final(self).cols() == old(self).cols(),
            final(self).rows() == old(self).rows(),
            result is Ok <==> frame.cols() == old(self).cols() && frame.rows() == old(self).rows(),
            result is Err ==> final(self).shown() == old(self).shown(),
            result matches Ok(writes) ==> {
                &&& final(self).shown() matches Some(next)
                &&& is_scaled(frame, &next, old(self).capability().scaling.factor())
                &&& old(self).capability().transfer == Transfer::FullFrame ==> views(writes@)
                    == seq![full_write(&next, old(self).capability().swap_bytes)]
                &&& old(self).capability().transfer == Transfer::LineStreamed ==> views(writes@)
                    == line_writes(
                    old(self).shown(),
                    &next,
                    old(self).capability().swap_bytes,
                    next.rows(),
                )
            },
    {
        if frame.width() != self.cols || frame.height() != self.rows {
            return Err(SizeMismatch);
        }
        let factor: usize = self.capability.scaling.factor_of();
        let swap: bool = self.capability.swap_bytes;
        let next: FrameBuffer = match scale_frame(frame, factor) {
            Some(n) => n,
            None => {
                proof {
                    assert(false);
                }
                return Err(SizeMismatch);
            },
        };
        let writes: Vec<Write> = match self.capability.transfer {
            Transfer::FullFrame => full_frame_write(&next, swap),
            Transfer::LineStreamed => changed_line_writes(&self.shown, &next, swap),
        };
        self.shown = Some(next);
        Ok(writes)
    }

    /// Forgets what the panel shows, as after the display was reset: the
    /// next frame is sent whole.
    pub fn invalidate(&mut self)
        requires
            old(self).wf(),
        ensures
            final(self).wf(),
            final(self).capability() == old(self).capability(),
            final(self).cols() == old(self).cols(),
            final(self).rows() == old(self).rows(),
            final(self).shown() is None,
    {
        self.shown = None;
    }
}

/// A row of a frame holds one pixel for each column, and a frame with a
/// row holds at least that many pixels.
proof fn lemma_row_len(frame: &FrameBuffer, y: int)
    requires
        frame.wf(),
        0 <= y < frame.rows(),
    ensures
        frame.row(y).len() == frame.cols(),
        frame.cols() <= frame.pixels().len(),
{
    let cols = frame.cols() as int;
    let rows = frame.rows() as int;
    assert((y + 1) * cols == y * cols + cols) by (nonlinear_arith);
    assert(0 <= y * cols) by (nonlinear_arith)
        requires
            0 <= y,
            0 <= cols,
    ;
    assert((y + 1) * cols <= rows * cols) by (nonlinear_arith)
        requires
            y + 1 <= rows,
            0 <= cols,
    ;
    assert(rows * cols == cols * rows) by (nonlinear_arith);
}

fn full_frame_write(next: &FrameBuffer, swap: bool) -> (writes: Vec<Write>)
    requires
        2 * next.pixels().len() <= usize::MAX,
    ensures
        views(writes@) == seq![full_write(next, swap)],
{
    let bytes = encode_pixels(next.as_pixels(), swap);
    let mut writes: Vec<Write> = Vec::new();
    writes.push(Write { y: 0, rows: next.height(), bytes });
    assert(views(writes@) =~= seq![full_write(next, swap)]);
    writes
}

fn changed_line_writes(shown: &Option<FrameBuffer>, next: &FrameBuffer, swap: bool) -> (writes: Vec<Write>)
    requires
        next.wf(),
        2 * next.pixels().len() <= usize::MAX,
        shown matches Some(s) ==> s.wf(),
    ensures
        views(writes@) == line_writes(*shown, next, swap, next.rows()),
{
    let mut writes: Vec<Write> = Vec::new();
    let mut y: usize = 0;
    assert(views(writes@) =~= line_writes(*shown, next, swap, 0));
    while y < next.height()
        invariant
            next.wf(),
            2 * next.pixels().len() <= usize::MAX,
            shown matches Some(s) ==> s.wf(),
            y <= next.rows(),
            views(writes@) == line_writes(*shown, next, swap, y as nat),
        decreases next.rows() - y,
    {
        let dirty: bool = match shown {
            Some(s) => !s.same_row(next, y),
            None => true,
        };
        assert(dirty == row_is_dirty(*shown, next, y as int));
        if dirty {
            proof {
                lemma_row_len(next, y as int);
            }
            let line: Vec<Rgb565> = match next.row_pixels(y) {
                Some(l) => l,
                None => {
                    proof {
                        assert(false);
                    }
                    Vec::new()
                },
            };
            let bytes = encode_pixels(&line, swap);
            let ghost before = writes@;
            writes.push(Write { y, rows: 1, bytes });
            assert(views(writes@) =~= views(before).push(
                WriteView { y: y as nat, rows: 1, bytes: encode(next.row(y as int), swap) },
            ));
        }
        y += 1;
    }
    writes
}

/// The panel's memory after a write: the write's bytes replace what was
/// there, from the first byte of row `write.y` on. A row takes `row_bytes`
/// bytes.
pub open spec fn painted(panel: Seq<u8>, row_bytes: nat, write: WriteView) -> Seq<u8> {
    Seq::new(
        panel.len(),
        |k: int|
            if write.y * row_bytes <= k < write.y * row_bytes + write.bytes.len() {
                write.bytes[k - write.y * row_bytes]
            } else {
                panel[k]
            },
    )
}

/// The panel's memory after a run of writes, first to last.
pub open spec fn painted_all(panel: Seq<u8>, row_bytes: nat, writes: Seq<WriteView>) -> Seq<u8>
    decreases writes.len(),
{
    if writes.len() == 0 {
        panel
    } else {
        painted(painted_all(panel, row_bytes, writes.drop_last()), row_bytes, writes.last())
    }
}

/// Whether `panel` is the memory of a panel that shows `shown`: it has room
/// for a frame of the size of `next`, and holds the wire form of the frame
/// shown, if one is.
pub open spec fn panel_shows(panel: Seq<u8>, shown: Option<FrameBuffer>, next: &FrameBuffer, swap: bool) -> bool {
    &&& panel.len() == 2 * next.pixels().len()
    &&& shown matches Some(s) ==> {
        &&& s.wf()
        &&& s.cols() == next.cols()
        &&& s.rows() == next.rows()
        &&& panel == encode(s.pixels(), swap)
    }
}

/// The byte at `offset` of row `y` of a frame's wire form is the byte at
/// `offset` of the wire form of that row.
proof fn lemma_row_bytes(frame: &FrameBuffer, swap: bool, y: int, offset: int)
    requires
        frame.wf(),
        0 <= y < frame.rows(),
        0 <= offset < 2 * frame.cols(),
    ensures
        0 <= y * (2 * frame.cols()) + offset < 2 * frame.pixels().len(),
        encode(frame.pixels(), swap)[y * (2 * frame.cols()) + offset] == encode(
            frame.row(y),
            swap,
        )[offset],
        encode(frame.row(y), swap).len() == 2 * frame.cols(),
{
    let cols = frame.cols() as int;
    let first = y * cols;
    lemma_row_len(frame, y);
    assert(y * (2 * cols) == 2 * first) by (nonlinear_arith)
        requires
            first == y * cols,
    ;
    assert((y + 1) * cols == first + cols) by (nonlinear_arith)
        requires
            first == y * cols,
    ;
    assert((y + 1) * cols <= frame.rows() * cols) by (nonlinear_arith)
        requires
            y + 1 <= frame.rows(),
            0 <= cols,
    ;
    assert(frame.rows() * cols == cols * frame.rows()) by (nonlinear_arith);
    assert(0 <= first) by (nonlinear_arith)
        requires
            first == y * cols,
            0 <= y,
            0 <= cols,
    ;
    let k = 2 * first + offset;
    assert(k / 2 == first + offset / 2);
    assert(k % 2 == offset % 2);
    assert(frame.row(y)[offset / 2] == frame.pixels()[first + offset / 2]);
}

/// After the writes for the first `n` rows, the panel shows the new frame
/// in those rows and is untouched below them.
proof fn lemma_painted_rows(panel: Seq<u8>, shown: Option<FrameBuffer>, next: &FrameBuffer, swap: bool, n: nat)
    requires
        next.wf(),
        panel_shows(panel, shown, next, swap),
        n <= next.rows(),
    ensures
        painted_all(panel, 2 * next.cols(), line_writes(shown, next, swap, n)).len() == panel.len(),
        forall|k: int|
            0 <= k < n * (2 * next.cols()) && k < panel.len() ==> #[trigger] painted_all(
                panel,
                2 * next.cols(),
                line_writes(shown, next, swap, n),
            )[k] == encode(next.pixels(), swap)[k],
        forall|k: int|
            n * (2 * next.cols()) <= k < panel.len() ==> #[trigger] painted_all(
                panel,
                2 * next.cols(),
                line_writes(shown, next, swap, n),
            )[k] == panel[k],
    decreases n,
{
    let row_bytes = 2 * next.cols();
    if n > 0 {
        let y = (n - 1) as nat;
        lemma_painted_rows(panel, shown, next, swap, y);
        let before = painted_all(panel, row_bytes, line_writes(shown, next, swap, y));
        let after = painted_all(panel, row_bytes, line_writes(shown, next, swap, n));
        let target = encode(next.pixels(), swap);
        assert(n * row_bytes == y * row_bytes + row_bytes) by (nonlinear_arith)
            requires
                n == y + 1,
        ;
        if row_is_dirty(shown, next, y as int) {
            let write = WriteView { y, rows: 1, bytes: encode(next.row(y as int), swap) };
            assert(line_writes(shown, next, swap, n).drop_last() =~= line_writes(
                shown,
                next,
                swap,
                y,
            ));
            assert(after == painted(before, row_bytes, write));
            assert forall|k: int| 0 <= k < n * row_bytes && k < panel.len() implies after[k]
                == target[k] by {
                if k >= y * row_bytes {
                    lemma_row_bytes(next, swap, y as int, k - y * row_bytes);
                }
            }
            assert forall|k: int| n * row_bytes <= k < panel.len() implies after[k] == panel[k] by {
                lemma_row_len(next, y as int);
            }
        } else {
            assert(after == before);
            let s = shown->Some_0;
            assert forall|k: int| 0 <= k < n * row_bytes && k < panel.len() implies after[k]
                == target[k] by {
                if k >= y * row_bytes {
                    lemma_row_bytes(next, swap, y as int, k - y * row_bytes);
                    lemma_row_bytes(&s, swap, y as int, k - y * row_bytes);
                }
            }
        }
    }
}

/// The writes for a line-streamed transport make the panel show the new
/// frame: painted one after the other onto a panel that shows the frame sent
/// before, or onto any panel of the right size where none was sent, they
/// leave exactly the wire form of the new frame.
pub proof fn line_writes_show_the_frame(
    panel: Seq<u8>,
    shown: Option<FrameBuffer>,
    next: &FrameBuffer,
    swap: bool,
)
    requires
        next.wf(),
        panel_shows(panel, shown, next, swap),
    ensures
        painted_all(panel, 2 * next.cols(), line_writes(shown, next, swap, next.rows())) == encode(
            next.pixels(),
            swap,
        ),
{
    lemma_painted_rows(panel, shown, next, swap, next.rows());
    assert(next.rows() * (2 * next.cols()) == 2 * (next.cols() * next.rows())) by (nonlinear_arith);
    assert(painted_all(panel, 2 * next.cols(), line_writes(shown, next, swap, next.rows()))
        =~= encode(next.pixels(), swap));
}

/// The one write of a full-frame transport makes the panel show the new
/// frame, whatever it showed before.
pub proof fn full_write_shows_the_frame(panel: Seq<u8>, next: &FrameBuffer, swap: bool)
    requires
        next.wf(),
        panel.len() == 2 * next.pixels().len(),
    ensures
        painted(panel, 2 * next.cols(), full_write(next, swap)) == encode(next.pixels(), swap),
{
    assert(0 * (2 * next.cols()) == 0) by (nonlinear_arith);
    assert(painted(panel, 2 * next.cols(), full_write(next, swap)) =~= encode(
        next.pixels(),
        swap,
    ));
}

/// Sending the frame that the panel already shows writes nothing on a
/// line-streamed transport: no row of it is dirty.
pub proof fn shown_frame_has_no_dirty_row(frame: FrameBuffer, swap: bool, n: nat)
    requires
        n <= frame.rows(),
    ensures
        line_writes(Some(frame), &frame, swap, n) == Seq::<WriteView>::empty(),
    decreases n,
{
    if n > 0 {
        shown_frame_has_no_dirty_row(frame, swap, (n - 1) as nat);
    }
}

} // verus!
