//! What the node does when something fails.
//!
//! There is no supervisor and no degraded mode: a failure is either left to
//! the collaborator that owns it, bridged with built-in defaults, or it
//! halts the device until it is reset.

use vstd::prelude::*;

verus! {

/// What can fail.
#[derive(Clone, Copy, Debug, PartialEq, Eq, Structural)]
pub enum Fault {
    /// The arena cannot serve a request, not even after its escalation.
    OutOfMemory,
    /// A link dropped or pairing failed.
    Link,
    /// The stored keymap cannot be read.
    KeymapLoad,
    /// Another storage operation failed.
    Storage,
    /// The display could not be set up, or a transfer to it failed.
    Display,
    /// A task panicked.
    Panic,
    /// A subscriber missed a value that was published.
    MissedEvent,
}

/// What the node does about a fault.
#[derive(Clone, Copy, Debug, PartialEq, Eq, Structural)]
pub enum Reaction {
    /// The whole device stops until it is reset.
    Halt,
    /// The radio stack retries and reconnects by its own rules.
    LeaveToRadioStack,
    /// The built-in defaults take the place of what could not be read.
    UseDefaults,
    /// Nothing: this is how the channel is meant to work.
    Nothing,
}

/// The reaction that each fault calls for.
pub open spec fn reaction_to(fault: Fault) -> Reaction {
    match fault {
        Fault::OutOfMemory => Reaction::Halt,
        Fault::Link => Reaction::LeaveToRadioStack,
        Fault::KeymapLoad => Reaction::UseDefaults,
        Fault::Storage => Reaction::Halt,
        Fault::Display => Reaction::Halt,
        Fault::Panic => Reaction::Halt,
        Fault::MissedEvent => Reaction::Nothing,
    }
}

/// The reaction that a fault calls for.
pub fn react(fault: Fault) -> (reaction: Reaction)
    ensures
        reaction == reaction_to(fault),
{
    match fault {
        Fault::OutOfMemory => Reaction::Halt,
        Fault::Link => Reaction::LeaveToRadioStack,
        Fault::KeymapLoad => Reaction::UseDefaults,
        Fault::Storage => Reaction::Halt,
        Fault::Display => Reaction::Halt,
        Fault::Panic => Reaction::Halt,
        Fault::MissedEvent => Reaction::Nothing,
    }
}

/// Whether the node goes on after a fault.
pub fn survives(fault: Fault) -> (yes: bool)
    ensures
        yes <==> reaction_to(fault) != Reaction::Halt,
        yes <==> fault == Fault::Link || fault == Fault::KeymapLoad || fault == Fault::MissedEvent,
{
    match fault {
        Fault::Link => true,
        Fault::KeymapLoad => true,
        Fault::MissedEvent => true,
        _ => false,
    }
}

} // verus!
