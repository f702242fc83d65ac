//! The status screen: what the rasterizer is asked to draw for a status,
//! and the frame of pixels that it makes of it.

use crate::caption::{caption, caption_of};
use crate::color::Rgb565;
use crate::event::Status;
use crate::frame::FrameBuffer;
use mousefood::embedded_graphics::framebuffer::Framebuffer;
use mousefood::embedded_graphics::image::GetPixel;
use mousefood::embedded_graphics::pixelcolor::raw::{BigEndian, RawU16};
use mousefood::embedded_graphics::pixelcolor::IntoStorage;
use mousefood::embedded_graphics::prelude::{Dimensions, PointsIter};
use mousefood::prelude::Rgb565 as PanelColor;
use mousefood::{EmbeddedBackend, EmbeddedBackendConfig};
use ratatui::style::{Style, Stylize};
use ratatui::widgets::{Block, Paragraph, Wrap};
use ratatui::Terminal;
use vstd::prelude::*;

verus! {

/// A frame of the terminal, as ratatui hands it to the drawing function.
#[verifier::external_type_specification]
#[verifier::external_body]
pub struct ExFrame<'a>(ratatui::Frame<'a>);

/// What a frame holds: for each row and column, the characters of the
/// cell's symbol.
pub uninterp spec fn cells(frame: ratatui::Frame) -> Seq<Seq<Seq<char>>>;

/// The cells of a frame after a bordered block with `title` in its upper
/// edge was drawn over all of it, with `text` wrapped inside the border.
pub uninterp spec fn framed(
    before: Seq<Seq<Seq<char>>>,
    text: Seq<char>,
    title: Seq<char>,
) -> Seq<Seq<Seq<char>>>;

/// The title of the screen.
pub open spec fn title() -> Seq<char> {
    "Mousefood"@
}

/// A run of character codes as text.
pub open spec fn as_text(codes: Seq<u8>) -> Seq<char> {
    Seq::new(codes.len(), |i: int| codes[i] as char)
}

/// Turns character codes into a string with `String::from_utf8` of the
/// standard library. Trusted: codes below 128 are valid, and each becomes
/// the character of that code.
#[verifier::external_body]
fn text_of(codes: Vec<u8>) -> (text: String)
    requires
        forall|i: int| 0 <= i < codes@.len() ==> codes@[i] < 128,
    ensures
        text@ == as_text(codes@),
{
    String::from_utf8(codes).unwrap()
}

/// Draws a paragraph in a bordered block over the whole frame with
/// `Frame::render_widget` of ratatui: the border in yellow with `title` in
/// it, the text in dark gray, wrapped and trimmed. Trusted: the cells of the
/// frame afterwards are decided by its cells before, the text and the title.
#[verifier::external_body]
fn render_framed(frame: &mut ratatui::Frame, text: &str, title: &str)
    ensures
        cells(*final(frame)) == framed(cells(*old(frame)), text@, title@),
{
    let paragraph = Paragraph::new(text.dark_gray()).wrap(Wrap { trim: true });
    let block = Block::bordered().border_style(Style::new().yellow()).title(title);
    frame.render_widget(paragraph.block(block), frame.area());
}

/// Draws the status screen: the caption of `status` in a bordered block
/// that bears the screen's title.
pub fn draw(frame: &mut ratatui::Frame, status: Status)
    ensures
        cells(*final(frame)) == framed(cells(*old(frame)), as_text(caption_of(status)), title()),
{
    let codes = caption(status);
    proof {
        crate::caption::caption_is_ascii(status);
    }
    let text = text_of(codes);
    render_framed(frame, text.as_str(), "Mousefood");
}

/// Columns of the panel.
pub const PANEL_COLS: usize = 240;

/// Rows of the panel.
pub const PANEL_ROWS: usize = 280;

/// Bytes of a frame of the panel, two for each pixel.
pub const PANEL_BYTES: usize = 134400;

/// The pixels of the panel, row after row, that show the status screen for
/// `status` in the rasterizer's font and colours.
pub uninterp spec fn rasterized(status: Status) -> Seq<Rgb565>;

/// Draws the status screen on a surface of the panel's size, in memory, with
/// `Terminal::draw` of ratatui on the `EmbeddedBackend` of mousefood, and
/// reads the surface back pixel by pixel. Trusted: the pixels are decided by
/// the status, and there is one for each position of the panel.
#[verifier::external_body]
fn surface_pixels(status: Status) -> (pixels: Vec<Rgb565>)
    ensures
        pixels@ == rasterized(status),
        pixels@.len() == PANEL_COLS * PANEL_ROWS,
{
    let mut surface =
        Framebuffer::<PanelColor, RawU16, BigEndian, PANEL_COLS, PANEL_ROWS, PANEL_BYTES>::new();
    let backend = EmbeddedBackend::new(&mut surface, EmbeddedBackendConfig::default());
    Terminal::new(backend).unwrap().draw(|frame| draw(frame, status)).unwrap();
    let points = surface.bounding_box().points();
    points.map(|at| Rgb565 { raw: surface.pixel(at).unwrap().into_storage() }).collect()
}

/// The frame that shows the status screen for `status`, at the panel's
/// size.
pub fn rasterize(status: Status) -> (frame: FrameBuffer)
    ensures
        frame.wf(),
        frame.cols() == PANEL_COLS,
        frame.rows() == PANEL_ROWS,
        frame.pixels() == rasterized(status),
{
    match FrameBuffer::from_pixels(PANEL_COLS, PANEL_ROWS, surface_pixels(status)) {
        Some(frame) => frame,
        None => unreached(),
    }
}

} // verus!
