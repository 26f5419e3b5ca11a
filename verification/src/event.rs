//! Input events as the rate engine sees them.

use vstd::prelude::*;

verus! {

/// One input event. A key event carries the identifier of its key.
#[derive(Clone, Copy, Debug, PartialEq, Eq, Structural)]
pub enum InputEvent {
    /// A key went down.
    KeyPress(u64),
    /// A key came up.
    KeyRelease(u64),
    /// A mouse button went down.
    ButtonPress,
    /// A mouse button came up.
    ButtonRelease,
    /// Anything else: pointer motion, a wheel.
    Other,
}

/// What an event asks of the rate state.
#[derive(Clone, Copy, Debug, PartialEq, Eq, Structural)]
pub enum EventClass {
    /// Nothing: the event is no release.
    Ignored,
    /// The release of the shutdown key: stop, and count nothing.
    Shutdown,
    /// Any other release: one action.
    Action,
}

impl InputEvent {
    /// A release of a key or of a button. Presses are left out so that a key
    /// held down, which repeats its press, counts once.
    pub open spec fn is_release(self) -> bool {
        self is KeyRelease || self is ButtonRelease
    }

    /// The class of this event where `shutdown_key` is the key that stops the
    /// engine.
    pub open spec fn class(self, shutdown_key: u64) -> EventClass {
        match self {
            InputEvent::KeyRelease(key) => if key == shutdown_key {
                EventClass::Shutdown
            } else {
                EventClass::Action
            },
            InputEvent::ButtonRelease => EventClass::Action,
            _ => EventClass::Ignored,
        }
    }

    /// Classifies this event.
    pub fn classify(&self, shutdown_key: u64) -> (c: EventClass)
        ensures
            c == self.class(shutdown_key),
        no_unwind
    {
        match self {
            InputEvent::KeyRelease(key) => if *key == shutdown_key {
                EventClass::Shutdown
            } else {
                EventClass::Action
            },
            InputEvent::ButtonRelease => EventClass::Action,
            _ => EventClass::Ignored,
        }
    }
}

/// Only a release has a class other than `Ignored`.
pub proof fn lemma_class_of_release(event: InputEvent, shutdown_key: u64)
    ensures
        event.is_release() <==> event.class(shutdown_key) != EventClass::Ignored,
        event.class(shutdown_key) == EventClass::Shutdown <==> event == InputEvent::KeyRelease(
            shutdown_key,
        ),
{
}

} // verus!
