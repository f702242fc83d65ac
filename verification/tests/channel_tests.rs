use splitnode::channel::Channel;
use splitnode::event::{Charge, Event, EventKind};

#[test]
fn nothing_is_pending_on_a_new_channel() {
    let mut channel = Channel::new();
    let sub = channel.subscribe();
    assert_eq!(sub, 0);
    assert_eq!(channel.subscribers(), 1);
    assert_eq!(channel.generation(), 0);
    assert!(!channel.has_unseen(sub));
    assert_eq!(channel.try_next(sub), None);
    assert_eq!(channel.latest(EventKind::Layer), None);
}

#[test]
fn reader_after_many_publications_sees_the_last() {
    let mut channel = Channel::new();
    let sub = channel.subscribe();
    for layer in 0..5 {
        channel.publish(Event::Layer(layer));
    }
    assert_eq!(channel.generation(), 5);
    assert_eq!(channel.try_next(sub), Some(Event::Layer(4)));
    assert_eq!(channel.try_next(sub), None);
}

#[test]
fn reader_never_sees_a_superseded_value() {
    let mut channel = Channel::new();
    let sub = channel.subscribe();
    channel.publish(Event::TypingRate(10));
    assert_eq!(channel.try_next_of(sub, EventKind::TypingRate), Some(Event::TypingRate(10)));
    channel.publish(Event::TypingRate(20));
    channel.publish(Event::TypingRate(30));
    assert_eq!(channel.try_next_of(sub, EventKind::TypingRate), Some(Event::TypingRate(30)));
    assert_eq!(channel.try_next_of(sub, EventKind::TypingRate), None);
}

#[test]
fn publishing_the_same_value_again_is_a_new_publication() {
    let mut channel = Channel::new();
    let sub = channel.subscribe();
    channel.publish(Event::Layer(1));
    assert_eq!(channel.try_next(sub), Some(Event::Layer(1)));
    channel.publish(Event::Layer(1));
    assert_eq!(channel.try_next(sub), Some(Event::Layer(1)));
}

#[test]
fn subscribers_read_at_their_own_pace() {
    let mut channel = Channel::new();
    let fast = channel.subscribe();
    let slow = channel.subscribe();
    channel.publish(Event::Layer(1));
    assert_eq!(channel.try_next(fast), Some(Event::Layer(1)));
    channel.publish(Event::Modifiers(0b10));
    assert_eq!(channel.try_next(fast), Some(Event::Modifiers(0b10)));
    channel.publish(Event::Layer(2));
    assert_eq!(channel.try_next(fast), Some(Event::Layer(2)));
    assert_eq!(channel.try_next(fast), None);
    // The slow subscriber reads only now: it gets the final value of each kind.
    assert_eq!(channel.try_next_of(slow, EventKind::Layer), Some(Event::Layer(2)));
    assert_eq!(channel.try_next_of(slow, EventKind::Modifiers), Some(Event::Modifiers(0b10)));
    assert_eq!(channel.try_next(slow), None);
}

#[test]
fn pending_values_come_in_the_order_of_publication() {
    let mut channel = Channel::new();
    let sub = channel.subscribe();
    channel.publish(Event::TypingRate(55));
    channel.publish(Event::Layer(3));
    channel.publish(Event::Battery { left: Charge::Percent(80), right: Charge::Unknown });
    channel.publish(Event::Modifiers(1));
    channel.publish(Event::Layer(4));
    assert!(channel.has_unseen(sub));
    assert_eq!(channel.try_next(sub), Some(Event::TypingRate(55)));
    assert_eq!(
        channel.try_next(sub),
        Some(Event::Battery { left: Charge::Percent(80), right: Charge::Unknown })
    );
    assert_eq!(channel.try_next(sub), Some(Event::Modifiers(1)));
    assert_eq!(channel.try_next(sub), Some(Event::Layer(4)));
    assert_eq!(channel.try_next(sub), None);
    assert!(!channel.has_unseen(sub));
}

#[test]
fn a_late_subscriber_gets_the_current_values() {
    let mut channel = Channel::new();
    channel.publish(Event::Layer(2));
    channel.publish(Event::TypingRate(40));
    let late = channel.subscribe();
    assert!(channel.is_unseen(late, EventKind::Layer));
    assert!(!channel.is_unseen(late, EventKind::Battery));
    assert_eq!(channel.try_next(late), Some(Event::Layer(2)));
    assert_eq!(channel.try_next(late), Some(Event::TypingRate(40)));
    assert_eq!(channel.try_next(late), None);
}

#[test]
fn an_unknown_subscriber_gets_nothing() {
    let mut channel = Channel::new();
    let sub = channel.subscribe();
    channel.publish(Event::Layer(1));
    assert_eq!(channel.try_next(sub + 1), None);
    assert_eq!(channel.try_next_of(sub + 1, EventKind::Layer), None);
    assert!(!channel.has_unseen(sub + 1));
    assert!(!channel.is_unseen(sub + 1, EventKind::Layer));
    // The value is still there for the subscriber that exists.
    assert_eq!(channel.try_next(sub), Some(Event::Layer(1)));
}

#[test]
fn latest_does_not_consume() {
    let mut channel = Channel::new();
    let sub = channel.subscribe();
    channel.publish(Event::Modifiers(3));
    assert_eq!(channel.latest(EventKind::Modifiers), Some(Event::Modifiers(3)));
    assert_eq!(channel.latest(EventKind::Modifiers), Some(Event::Modifiers(3)));
    assert_eq!(channel.try_next(sub), Some(Event::Modifiers(3)));
    assert_eq!(channel.latest(EventKind::Modifiers), Some(Event::Modifiers(3)));
}
