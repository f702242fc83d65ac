use splitnode::fault::{react, survives, Fault, Reaction};

#[test]
fn exhaustion_display_and_panic_halt_the_device() {
    assert_eq!(react(Fault::OutOfMemory), Reaction::Halt);
    assert_eq!(react(Fault::Display), Reaction::Halt);
    assert_eq!(react(Fault::Panic), Reaction::Halt);
    assert_eq!(react(Fault::Storage), Reaction::Halt);
    assert!(!survives(Fault::OutOfMemory));
    assert!(!survives(Fault::Display));
    assert!(!survives(Fault::Panic));
    assert!(!survives(Fault::Storage));
}

#[test]
fn link_failures_are_left_to_the_radio_stack() {
    assert_eq!(react(Fault::Link), Reaction::LeaveToRadioStack);
    assert!(survives(Fault::Link));
}

#[test]
fn an_unreadable_keymap_falls_back_to_the_default() {
    assert_eq!(react(Fault::KeymapLoad), Reaction::UseDefaults);
    assert!(survives(Fault::KeymapLoad));
}

#[test]
fn a_missed_event_is_no_error() {
    assert_eq!(react(Fault::MissedEvent), Reaction::Nothing);
    assert!(survives(Fault::MissedEvent));
}
