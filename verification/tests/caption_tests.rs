use splitnode::caption::{caption, decimal};
use splitnode::event::{Charge, Event, Status};

fn status(layer: u8, typing_rate: u16) -> Status {
    Status { layer, modifiers: 0, left: Charge::Unknown, right: Charge::Unknown, typing_rate }
}

#[test]
fn decimal_has_no_leading_zero() {
    assert_eq!(decimal(0), b"0".to_vec());
    assert_eq!(decimal(7), b"7".to_vec());
    assert_eq!(decimal(10), b"10".to_vec());
    assert_eq!(decimal(105), b"105".to_vec());
    assert_eq!(decimal(9999), b"9999".to_vec());
    assert_eq!(decimal(u16::MAX), b"65535".to_vec());
}

#[test]
fn caption_names_layer_and_typing_rate() {
    assert_eq!(caption(status(0, 0)), b"Layer 0  0 wpm".to_vec());
    assert_eq!(caption(status(3, 72)), b"Layer 3  72 wpm".to_vec());
    assert_eq!(caption(status(255, 65535)), b"Layer 255  65535 wpm".to_vec());
}

#[test]
fn caption_follows_the_layer_event() {
    let before = Status::new();
    let after = before.apply(Event::Layer(3));
    assert_eq!(caption(before), b"Layer 0  0 wpm".to_vec());
    assert_eq!(caption(after), b"Layer 3  0 wpm".to_vec());
}
