//! Decoded input events.
//!
//! The backend delivers raw key events; the unverified shell decodes
//! them into these plain values before they reach the verified core.
//! Only the distinctions the core actually reads are modelled: which
//! key was pressed, and whether the event is a genuine press (some
//! platforms also report repeat and release events for a single
//! logical keystroke, and those must not trigger a transition twice).

use vstd::prelude::*;

verus! {

/// The identity of a pressed key, reduced to the keys the state
/// machine reacts to.  Every other key decodes to `Other`.
#[derive(Clone, Copy, Debug, PartialEq, Eq, Structural)]
pub enum KeyCode {
    /// A character key.
    Char(char),
    /// The left arrow key.
    Left,
    /// The right arrow key.
    Right,
    /// Any key the state machine does not react to.
    Other,
}

/// Whether a key event reports a press, a repeat, or a release.
#[derive(Clone, Copy, Debug, PartialEq, Eq, Structural)]
pub enum KeyEventKind {
    Press,
    Repeat,
    Release,
}

/// A decoded key event: a key identity together with its kind.
#[derive(Clone, Copy, Debug, PartialEq, Eq, Structural)]
pub struct KeyEvent {
    pub code: KeyCode,
    pub kind: KeyEventKind,
}

impl KeyEvent {
    /// A key-press event for the given key.
    pub fn press(code: KeyCode) -> (r: KeyEvent)
        ensures
            r == (KeyEvent { code, kind: KeyEventKind::Press }),
    {
        KeyEvent { code, kind: KeyEventKind::Press }
    }
}

/// One decoded input event: a key event, or anything else the
/// backend can deliver (resize, focus, mouse, ...), which the core
/// ignores.  Events are decoded once per loop iteration, consumed
/// immediately, and never buffered or replayed.
#[derive(Clone, Copy, Debug, PartialEq, Eq, Structural)]
pub enum Event {
    Key(KeyEvent),
    Other,
}

} // verus!
