//! What a key did.

use vstd::prelude::*;

verus! {

/// One change of a key.
#[derive(Debug, Clone, Copy, PartialEq, Eq, Structural)]
pub enum KeyEvent {
    /// The key went down.
    PressingDown,
    /// The key came up.
    LiftedOff,
}

impl KeyEvent {
    /// Whether the key came up.
    pub fn is_up(&self) -> (up: bool)
        ensures
            up == (*self == KeyEvent::LiftedOff),
    {
        match self {
            KeyEvent::PressingDown => false,
            KeyEvent::LiftedOff => true,
        }
    }

    /// Whether the key went down.
    pub fn is_down(&self) -> (down: bool)
        ensures
            down == (*self == KeyEvent::PressingDown),
    {
        match self {
            KeyEvent::PressingDown => true,
            KeyEvent::LiftedOff => false,
        }
    }
}

} // verus!
