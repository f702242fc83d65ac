use splitnode::event::{Charge, Event, EventKind, FULL_BATTERY, LAYER_COUNT};

#[test]
fn each_event_has_its_kind() {
    assert_eq!(Event::Layer(1).kind_of(), EventKind::Layer);
    assert_eq!(Event::Modifiers(1).kind_of(), EventKind::Modifiers);
    assert_eq!(
        Event::Battery { left: Charge::Unknown, right: Charge::Unknown }.kind_of(),
        EventKind::Battery
    );
    assert_eq!(Event::TypingRate(1).kind_of(), EventKind::TypingRate);
}

#[test]
fn a_layer_index_stays_below_the_layer_count() {
    assert_eq!(LAYER_COUNT, 5);
    assert!(Event::Layer(0).is_valid());
    assert!(Event::Layer(4).is_valid());
    assert!(!Event::Layer(5).is_valid());
    assert!(!Event::Layer(255).is_valid());
}

#[test]
fn a_charge_is_unknown_or_at_most_one_hundred_percent() {
    assert_eq!(FULL_BATTERY, 100);
    assert!(Event::Battery { left: Charge::Unknown, right: Charge::Unknown }.is_valid());
    assert!(Event::Battery { left: Charge::Percent(0), right: Charge::Percent(100) }.is_valid());
    assert!(!Event::Battery { left: Charge::Percent(101), right: Charge::Percent(50) }.is_valid());
    assert!(!Event::Battery { left: Charge::Unknown, right: Charge::Percent(200) }.is_valid());
}

#[test]
fn modifiers_and_typing_rate_take_any_value() {
    assert!(Event::Modifiers(0).is_valid());
    assert!(Event::Modifiers(0xff).is_valid());
    assert!(Event::TypingRate(0).is_valid());
    assert!(Event::TypingRate(u16::MAX).is_valid());
}
