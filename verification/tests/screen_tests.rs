use ratatui::backend::TestBackend;
use ratatui::style::Color;
use ratatui::Terminal;
use splitnode::bridge::{Bridge, Capability, Scaling, Transfer};
use splitnode::color::Rgb565;
use splitnode::event::{Charge, Status};
use splitnode::screen::{draw, rasterize};

fn status(layer: u8, typing_rate: u16) -> Status {
    Status { layer, modifiers: 0, left: Charge::Unknown, right: Charge::Unknown, typing_rate }
}

fn rows_of(terminal: &Terminal<TestBackend>, cols: u16, rows: u16) -> Vec<String> {
    let buffer = terminal.backend().buffer();
    (0..rows).map(|y| (0..cols).map(|x| buffer[(x, y)].symbol()).collect()).collect()
}

#[test]
fn screen_shows_the_caption_in_a_titled_border() {
    let mut terminal = Terminal::new(TestBackend::new(24, 4)).unwrap();
    terminal.draw(|frame| draw(frame, status(3, 72))).unwrap();
    assert_eq!(
        rows_of(&terminal, 24, 4),
        vec![
            "┌Mousefood─────────────┐",
            "│Layer 3  72 wpm       │",
            "│                      │",
            "└──────────────────────┘",
        ]
    );
}

#[test]
fn screen_wraps_the_caption_on_a_narrow_panel() {
    let mut terminal = Terminal::new(TestBackend::new(11, 5)).unwrap();
    terminal.draw(|frame| draw(frame, status(0, 65535))).unwrap();
    assert_eq!(
        rows_of(&terminal, 11, 5),
        vec!["┌Mousefood┐", "│Layer 0  │", "│65535 wpm│", "│         │", "└─────────┘"]
    );
}

#[test]
fn border_is_yellow_and_text_dark_gray() {
    let mut terminal = Terminal::new(TestBackend::new(24, 4)).unwrap();
    terminal.draw(|frame| draw(frame, status(1, 5))).unwrap();
    let buffer = terminal.backend().buffer();
    assert_eq!(buffer[(0, 0)].fg, Color::Yellow);
    assert_eq!(buffer[(23, 3)].fg, Color::Yellow);
    assert_eq!(buffer[(1, 1)].fg, Color::DarkGray);
    assert_eq!(buffer[(1, 1)].symbol(), "L");
}

#[test]
fn a_new_status_replaces_the_old_caption() {
    let mut terminal = Terminal::new(TestBackend::new(24, 3)).unwrap();
    terminal.draw(|frame| draw(frame, status(0, 120))).unwrap();
    assert_eq!(rows_of(&terminal, 24, 3)[1], "│Layer 0  120 wpm      │");
    terminal.draw(|frame| draw(frame, status(4, 7))).unwrap();
    assert_eq!(rows_of(&terminal, 24, 3)[1], "│Layer 4  7 wpm        │");
}

#[test]
fn rasterized_screen_has_the_panel_size() {
    let frame = rasterize(status(0, 0));
    assert_eq!(frame.width(), 240);
    assert_eq!(frame.height(), 280);
    assert_eq!(frame.as_pixels().len(), 240 * 280);
}

#[test]
fn rasterized_screen_is_yellow_dark_gray_and_black() {
    let frame = rasterize(status(3, 72));
    let yellow = Rgb565::from_rgb888(255, 255, 0);
    let dark_gray = Rgb565::from_rgb888(170, 170, 170);
    let black = Rgb565 { raw: 0 };
    let count = |color| frame.as_pixels().iter().filter(|p| **p == color).count();
    assert!(count(yellow) > 0);
    assert!(count(dark_gray) > 0);
    assert!(count(black) > 0);
    assert_eq!(count(yellow) + count(dark_gray) + count(black), 240 * 280);
}

#[test]
fn rasterized_screen_follows_the_status() {
    let base = rasterize(status(0, 0));
    let same = rasterize(status(0, 0));
    let other = rasterize(status(3, 0));
    assert_eq!(base.as_pixels(), same.as_pixels());
    assert_ne!(base.as_pixels(), other.as_pixels());
}

#[test]
fn a_layer_change_rewrites_only_the_rows_of_the_caption() {
    let capability = Capability {
        transfer: Transfer::LineStreamed,
        scaling: Scaling::Unscaled,
        swap_bytes: false,
    };
    let mut bridge = Bridge::new(capability, 240, 280).unwrap();
    let first = bridge.submit_frame(&rasterize(status(0, 0))).unwrap();
    assert_eq!(first.len(), 280);
    let again = bridge.submit_frame(&rasterize(status(0, 0))).unwrap();
    assert_eq!(again.len(), 0);
    let changed = bridge.submit_frame(&rasterize(status(3, 0))).unwrap();
    assert!(!changed.is_empty());
    assert!(changed.len() < 40);
    for write in changed.iter() {
        assert_eq!(write.rows, 1);
        assert_eq!(write.bytes.len(), 480);
    }
}
