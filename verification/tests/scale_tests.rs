use splitnode::color::Rgb565;
use splitnode::frame::FrameBuffer;
use splitnode::scale::scale_frame;

fn c(raw: u16) -> Rgb565 {
    Rgb565 { raw }
}

#[test]
fn each_logical_pixel_fills_its_block() {
    let logical = FrameBuffer::from_pixels(2, 2, vec![c(1), c(2), c(3), c(4)]).unwrap();
    let physical = scale_frame(&logical, 3).unwrap();
    assert_eq!(physical.width(), 6);
    assert_eq!(physical.height(), 6);
    for y in 0..2 {
        for x in 0..2 {
            let color = logical.get(x, y);
            for dy in 0..3 {
                for dx in 0..3 {
                    assert_eq!(physical.get(x * 3 + dx, y * 3 + dy), color);
                }
            }
        }
    }
}

#[test]
fn blocks_leave_no_gap_and_do_not_overlap() {
    let logical = FrameBuffer::from_pixels(3, 1, vec![c(10), c(20), c(30)]).unwrap();
    let physical = scale_frame(&logical, 2).unwrap();
    assert_eq!(
        physical.row_pixels(0),
        Some(vec![c(10), c(10), c(20), c(20), c(30), c(30)])
    );
    assert_eq!(physical.row_pixels(0), physical.row_pixels(1));
    assert_eq!(physical.row_pixels(2), None);
}

#[test]
fn factor_one_copies_the_frame() {
    let logical = FrameBuffer::from_pixels(2, 2, vec![c(1), c(2), c(3), c(4)]).unwrap();
    let physical = scale_frame(&logical, 1).unwrap();
    assert_eq!(physical.width(), 2);
    assert_eq!(physical.height(), 2);
    assert_eq!(physical.row_pixels(0), Some(vec![c(1), c(2)]));
    assert_eq!(physical.row_pixels(1), Some(vec![c(3), c(4)]));
}

#[test]
fn factor_zero_is_refused() {
    let logical = FrameBuffer::new(2, 2, c(0)).unwrap();
    assert!(scale_frame(&logical, 0).is_none());
}

#[test]
fn a_frame_too_large_for_the_word_is_refused() {
    let logical = FrameBuffer::new(2, 2, c(0)).unwrap();
    assert!(scale_frame(&logical, usize::MAX).is_none());
    assert!(scale_frame(&logical, usize::MAX / 2).is_none());
}

#[test]
fn an_empty_frame_scales_to_an_empty_frame() {
    let logical = FrameBuffer::new(0, 0, c(0)).unwrap();
    let physical = scale_frame(&logical, 4).unwrap();
    assert_eq!(physical.width(), 0);
    assert_eq!(physical.height(), 0);
}

#[test]
fn drawing_target_paints_a_block_for_each_pixel() {
    let mut target = splitnode::scale::ScaledTarget::new(2, 2, 3, c(0)).unwrap();
    assert!(target.draw_pixel(1, 0, c(7)));
    let panel = target.frame();
    assert_eq!(panel.width(), 6);
    assert_eq!(panel.height(), 6);
    for py in 0..6 {
        for px in 0..6 {
            let expected = if (3..6).contains(&px) && py < 3 { c(7) } else { c(0) };
            assert_eq!(panel.get(px, py), Some(expected));
        }
    }
}

#[test]
fn drawing_target_ignores_pixels_off_the_logical_frame() {
    let mut target = splitnode::scale::ScaledTarget::new(2, 2, 2, c(1)).unwrap();
    assert!(!target.draw_pixel(2, 0, c(9)));
    assert!(!target.draw_pixel(0, 2, c(9)));
    for py in 0..4 {
        assert_eq!(target.frame().row_pixels(py), Some(vec![c(1); 4]));
    }
}

#[test]
fn drawing_every_pixel_gives_the_scaled_frame() {
    let logical = FrameBuffer::from_pixels(2, 2, vec![c(1), c(2), c(3), c(4)]).unwrap();
    let mut target = splitnode::scale::ScaledTarget::new(2, 2, 2, c(0)).unwrap();
    for y in 0..2 {
        for x in 0..2 {
            assert!(target.draw_pixel(x, y, logical.get(x, y).unwrap()));
        }
    }
    let scaled = scale_frame(&logical, 2).unwrap();
    assert_eq!(target.frame().as_pixels(), scaled.as_pixels());
}

#[test]
fn drawing_target_needs_a_factor() {
    assert!(splitnode::scale::ScaledTarget::new(2, 2, 0, c(0)).is_none());
    assert!(splitnode::scale::ScaledTarget::new(2, 2, usize::MAX, c(0)).is_none());
}
