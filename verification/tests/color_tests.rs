use splitnode::color::{same_on_panel, Rgb565};

#[test]
fn white_quantises_to_all_ones() {
    assert_eq!(Rgb565::from_rgb888(255, 255, 255).raw, 0xffff);
}

#[test]
fn black_quantises_to_zero() {
    assert_eq!(Rgb565::from_rgb888(0, 0, 0).raw, 0);
}

#[test]
fn primaries_fill_their_channel() {
    assert_eq!(Rgb565::from_rgb888(255, 0, 0).raw, 0xf800);
    assert_eq!(Rgb565::from_rgb888(0, 255, 0).raw, 0x07e0);
    assert_eq!(Rgb565::from_rgb888(0, 0, 255).raw, 0x001f);
}

#[test]
fn quantisation_rounds_to_the_nearest_level() {
    // 8 of 255 is nearest to 1 of 31; 4 of 255 is nearest to 1 of 63.
    assert_eq!(Rgb565::from_rgb888(8, 4, 8).raw, 0x0821);
    // 4 of 255 is nearer to 0 than to 1 of 31; 2 of 255 is nearer to 0 of 63.
    assert_eq!(Rgb565::from_rgb888(4, 2, 4).raw, 0x0000);
    assert_eq!(Rgb565::from_rgb888(170, 170, 170).raw, 0xad55);
}

#[test]
fn quantised_word_is_not_the_source_colour() {
    // The three source bytes are reduced, not copied.
    let color = Rgb565::from_rgb888(0x12, 0x34, 0x56);
    assert_eq!(color.raw, (2 << 11) | (13 << 5) | 10);
}

#[test]
fn from_channels_takes_channel_values_in_range() {
    assert_eq!(Rgb565::from_channels(31, 63, 31), Some(Rgb565 { raw: 0xffff }));
    assert_eq!(Rgb565::from_channels(1, 2, 3), Some(Rgb565 { raw: (1 << 11) | (2 << 5) | 3 }));
    assert_eq!(Rgb565::from_channels(0, 0, 0), Some(Rgb565 { raw: 0 }));
}

#[test]
fn from_channels_refuses_values_beyond_a_channel() {
    assert_eq!(Rgb565::from_channels(32, 0, 0), None);
    assert_eq!(Rgb565::from_channels(0, 64, 0), None);
    assert_eq!(Rgb565::from_channels(0, 0, 32), None);
}

#[test]
fn wire_bytes_are_most_significant_first() {
    assert_eq!(Rgb565 { raw: 0xf800 }.wire_bytes(false), (0xf8, 0x00));
    assert_eq!(Rgb565 { raw: 0x1234 }.wire_bytes(false), (0x12, 0x34));
}

#[test]
fn wire_bytes_swap_on_request() {
    assert_eq!(Rgb565 { raw: 0xf800 }.wire_bytes(true), (0x00, 0xf8));
    assert_eq!(Rgb565 { raw: 0x1234 }.wire_bytes(true), (0x34, 0x12));
}

#[test]
fn colours_are_compared_after_quantisation() {
    assert!(same_on_panel((255, 255, 255), (252, 254, 252)));
    assert!(!same_on_panel((255, 0, 0), (240, 0, 0)));
    assert!(same_on_panel((0, 0, 0), (4, 2, 4)));
    assert!(!same_on_panel((0, 0, 0), (8, 4, 8)));
}
