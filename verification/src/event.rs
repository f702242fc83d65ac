//! Events: the changes of keyboard state that the medium tier makes known
//! and the rendering loop shows.

use vstd::prelude::*;

verus! {

/// Number of layers of the keymap; a layer index stays below it.
pub const LAYER_COUNT: u8 = 5;

/// Highest battery level, in percent.
pub const FULL_BATTERY: u8 = 100;

/// The charge of one half's battery.
#[derive(Clone, Copy, Debug, PartialEq, Eq, Structural)]
pub enum Charge {
    Unknown,
    Percent(u8),
}

/// What an event is about. The channel keeps one value for each kind.
#[derive(Clone, Copy, Debug, PartialEq, Eq, Structural)]
pub enum EventKind {
    Layer,
    Modifiers,
    Battery,
    TypingRate,
}

/// An observable change of keyboard state.
#[derive(Clone, Copy, Debug, PartialEq, Eq, Structural)]
pub enum Event {
    /// The active layer.
    Layer(u8),
    /// The modifier keys that are held, one bit each.
    Modifiers(u8),
    /// The charge of the left and of the right half.
    Battery { left: Charge, right: Charge },
    /// The typing rate in words per minute.
    TypingRate(u16),
}

impl Charge {
    /// A known charge is at most one hundred percent.
    pub open spec fn valid(self) -> bool {
        self matches Charge::Percent(p) ==> p <= FULL_BATTERY
    }
}

impl Event {
    /// What the event is about.
    pub open spec fn kind(self) -> EventKind {
        match self {
            Event::Layer(_) => EventKind::Layer,
            Event::Modifiers(_) => EventKind::Modifiers,
            Event::Battery { .. } => EventKind::Battery,
            Event::TypingRate(_) => EventKind::TypingRate,
        }
    }

    /// The event holds values that can occur: a layer that the keymap has,
    /// charges of at most one hundred percent.
    pub open spec fn valid(self) -> bool {
        match self {
            Event::Layer(index) => index < LAYER_COUNT,
            Event::Battery { left, right } => left.valid() && right.valid(),
            _ => true,
        }
    }

    /// What the event is about.
    pub fn kind_of(&self) -> (kind: EventKind)
        ensures
            kind == self.kind(),
    {
        match self {
            Event::Layer(_) => EventKind::Layer,
            Event::Modifiers(_) => EventKind::Modifiers,
            Event::Battery { .. } => EventKind::Battery,
            Event::TypingRate(_) => EventKind::TypingRate,
        }
    }

    /// Whether the event holds values that can occur.
    pub fn is_valid(&self) -> (ok: bool)
        ensures
            ok == self.valid(),
    {
        match self {
            Event::Layer(index) => *index < LAYER_COUNT,
            Event::Battery { left, right } => {
                let left_ok: bool = match left {
                    Charge::Percent(p) => *p <= FULL_BATTERY,
                    Charge::Unknown => true,
                };
                let right_ok: bool = match right {
                    Charge::Percent(p) => *p <= FULL_BATTERY,
                    Charge::Unknown => true,
                };
                left_ok && right_ok
            },
            _ => true,
        }
    }
}

/// One value for each kind of event.
#[derive(Clone, Copy, Debug)]
pub struct PerKind<T> {
    pub layer: T,
    pub modifiers: T,
    pub battery: T,
    pub typing_rate: T,
}

impl<T> PerKind<T> {
    /// The value for `kind`.
    pub open spec fn get(self, kind: EventKind) -> T {
        match kind {
            EventKind::Layer => self.layer,
            EventKind::Modifiers => self.modifiers,
            EventKind::Battery => self.battery,
            EventKind::TypingRate => self.typing_rate,
        }
    }

    /// This record with `value` for `kind`.
    pub open spec fn set(self, kind: EventKind, value: T) -> PerKind<T> {
        match kind {
            EventKind::Layer => PerKind { layer: value, ..self },
            EventKind::Modifiers => PerKind { modifiers: value, ..self },
            EventKind::Battery => PerKind { battery: value, ..self },
            EventKind::TypingRate => PerKind { typing_rate: value, ..self },
        }
    }

    /// The same value for every kind.
    pub open spec fn all(value: T) -> PerKind<T> {
        PerKind { layer: value, modifiers: value, battery: value, typing_rate: value }
    }
}

/// What the status display shows: the latest value of each kind.
#[derive(Clone, Copy, Debug, PartialEq, Eq, Structural)]
pub struct Status {
    pub layer: u8,
    pub modifiers: u8,
    pub left: Charge,
    pub right: Charge,
    pub typing_rate: u16,
}

impl Status {
    /// The status at boot: base layer, no modifier held, charges unknown,
    /// nothing typed.
    pub open spec fn initial() -> Status {
        Status {
            layer: 0,
            modifiers: 0,
            left: Charge::Unknown,
            right: Charge::Unknown,
            typing_rate: 0,
        }
    }

    /// The status after an event: the event's value replaces the one of its
    /// kind, the others stay.
    pub open spec fn with(self, event: Event) -> Status {
        match event {
            Event::Layer(index) => Status { layer: index, ..self },
            Event::Modifiers(bits) => Status { modifiers: bits, ..self },
            Event::Battery { left, right } => Status { left, right, ..self },
            Event::TypingRate(rate) => Status { typing_rate: rate, ..self },
        }
    }

    /// The status at boot.
    pub fn new() -> (status: Status)
        ensures
            status == Status::initial(),
    {
        Status {
            layer: 0,
            modifiers: 0,
            left: Charge::Unknown,
            right: Charge::Unknown,
            typing_rate: 0,
        }
    }

    /// The status after an event.
    pub fn apply(self, event: Event) -> (status: Status)
        ensures
            status == self.with(event),
    {
        match event {
            Event::Layer(index) => Status { layer: index, ..self },
            Event::Modifiers(bits) => Status { modifiers: bits, ..self },
            Event::Battery { left, right } => Status { left, right, ..self },
            Event::TypingRate(rate) => Status { typing_rate: rate, ..self },
        }
    }
}

} // verus!
