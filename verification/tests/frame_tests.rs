use splitnode::color::Rgb565;
use splitnode::frame::FrameBuffer;

fn c(raw: u16) -> Rgb565 {
    Rgb565 { raw }
}

#[test]
fn new_frame_is_filled() {
    let frame = FrameBuffer::new(3, 2, c(7)).unwrap();
    assert_eq!(frame.width(), 3);
    assert_eq!(frame.height(), 2);
    for y in 0..2 {
        for x in 0..3 {
            assert_eq!(frame.get(x, y), Some(c(7)));
        }
    }
}

#[test]
fn new_frame_refuses_a_size_beyond_the_word() {
    assert!(FrameBuffer::new(usize::MAX, 2, c(0)).is_none());
    assert!(FrameBuffer::new(0, usize::MAX, c(0)).is_some());
}

#[test]
fn from_pixels_wants_one_pixel_for_each_position() {
    assert!(FrameBuffer::from_pixels(2, 2, vec![c(1), c(2), c(3), c(4)]).is_some());
    assert!(FrameBuffer::from_pixels(2, 2, vec![c(1), c(2), c(3)]).is_none());
    assert!(FrameBuffer::from_pixels(2, 2, vec![c(1); 5]).is_none());
    assert!(FrameBuffer::from_pixels(0, 0, vec![]).is_some());
}

#[test]
fn pixels_are_stored_row_after_row() {
    let frame = FrameBuffer::from_pixels(2, 3, vec![c(1), c(2), c(3), c(4), c(5), c(6)]).unwrap();
    assert_eq!(frame.get(0, 0), Some(c(1)));
    assert_eq!(frame.get(1, 0), Some(c(2)));
    assert_eq!(frame.get(0, 1), Some(c(3)));
    assert_eq!(frame.get(1, 2), Some(c(6)));
    assert_eq!(frame.row_pixels(1), Some(vec![c(3), c(4)]));
}

#[test]
fn get_outside_the_grid_gives_nothing() {
    let frame = FrameBuffer::new(2, 2, c(0)).unwrap();
    assert_eq!(frame.get(2, 0), None);
    assert_eq!(frame.get(0, 2), None);
    assert_eq!(frame.row_pixels(2), None);
}

#[test]
fn set_changes_one_pixel() {
    let mut frame = FrameBuffer::new(2, 2, c(0)).unwrap();
    assert!(frame.set(1, 0, c(9)));
    assert_eq!(frame.get(1, 0), Some(c(9)));
    assert_eq!(frame.get(0, 0), Some(c(0)));
    assert_eq!(frame.get(0, 1), Some(c(0)));
    assert_eq!(frame.get(1, 1), Some(c(0)));
}

#[test]
fn set_outside_the_grid_changes_nothing() {
    let mut frame = FrameBuffer::new(2, 2, c(0)).unwrap();
    assert!(!frame.set(2, 1, c(9)));
    assert!(!frame.set(0, 2, c(9)));
    for y in 0..2 {
        assert_eq!(frame.row_pixels(y), Some(vec![c(0), c(0)]));
    }
}

#[test]
fn same_row_compares_colours() {
    let a = FrameBuffer::from_pixels(2, 2, vec![c(1), c(2), c(3), c(4)]).unwrap();
    let b = FrameBuffer::from_pixels(2, 2, vec![c(1), c(2), c(3), c(5)]).unwrap();
    assert!(a.same_row(&b, 0));
    assert!(!a.same_row(&b, 1));
    assert!(!a.same_row(&b, 2));
}

#[test]
fn rows_of_frames_of_other_width_differ() {
    let a = FrameBuffer::new(2, 2, c(0)).unwrap();
    let b = FrameBuffer::new(3, 2, c(0)).unwrap();
    assert!(!a.same_row(&b, 0));
}

#[test]
fn as_pixels_gives_the_rows_in_order() {
    let frame = FrameBuffer::from_pixels(2, 2, vec![c(1), c(2), c(3), c(4)]).unwrap();
    assert_eq!(frame.as_pixels(), &vec![c(1), c(2), c(3), c(4)]);
}
