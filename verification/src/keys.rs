//! Platform-specific copy and paste key chords.
//!
//! The platform family decides one modifier (the command key on one family,
//! the control key on the others); the chord shape is otherwise fixed: the
//! modifier twice, then the action key. The selection happens once, at
//! construction of the input simulator, never per call.

use vstd::prelude::*;

verus! {

/// The platform family, as far as key chords are concerned.
#[derive(Clone, Copy, Debug, PartialEq, Eq, Structural)]
pub enum Platform {
    /// Uses the command modifier for copy and paste.
    MacOs,
    /// Uses the control modifier for copy and paste.
    Other,
}

/// A physical key that a chord may contain.
#[derive(Clone, Copy, Debug, PartialEq, Eq, Structural)]
pub enum Key {
    CommandLeft,
    ControlLeft,
    C,
    V,
}

/// An ordered chord: two modifier presses and one action key.
#[derive(Clone, Copy, Debug, PartialEq, Eq, Structural)]
pub struct KeySequence {
    pub first: Key,
    pub second: Key,
    pub action: Key,
}

/// The modifier key of a platform family.
pub open spec fn modifier_of(p: Platform) -> Key {
    match p {
        Platform::MacOs => Key::CommandLeft,
        Platform::Other => Key::ControlLeft,
    }
}

/// The chord that copies the current selection on platform `p`.
pub fn copy_keys(p: Platform) -> (r: KeySequence)
    ensures
        r == (KeySequence { first: modifier_of(p), second: modifier_of(p), action: Key::C }),
{
    match p {
        Platform::MacOs => KeySequence {
            first: Key::CommandLeft,
            second: Key::CommandLeft,
            action: Key::C,
        },
        Platform::Other => KeySequence {
            first: Key::ControlLeft,
            second: Key::ControlLeft,
            action: Key::C,
        },
    }
}

/// The chord that pastes over the current selection on platform `p`.
pub fn paste_keys(p: Platform) -> (r: KeySequence)
    ensures
        r == (KeySequence { first: modifier_of(p), second: modifier_of(p), action: Key::V }),
{
    match p {
        Platform::MacOs => KeySequence {
            first: Key::CommandLeft,
            second: Key::CommandLeft,
            action: Key::V,
        },
        Platform::Other => KeySequence {
            first: Key::ControlLeft,
            second: Key::ControlLeft,
            action: Key::V,
        },
    }
}

} // verus!
