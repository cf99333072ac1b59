//! The application state machine.
//!
//! The state is a bounded counter together with a termination flag.
//! Transitions are triggered by decoded key events: the quit key sets
//! the flag, the arrow keys move the counter, and every other key is
//! a no-op.  A transition that would push the counter outside
//! `[COUNTER_MIN, COUNTER_MAX]` fails without committing anything, so
//! the counter is in range after every committed transition.

use vstd::prelude::*;

use crate::event::{Event, KeyCode, KeyEvent, KeyEventKind};

verus! {

/// Smallest value the counter may take.
pub const COUNTER_MIN: u8 = 0;

/// Largest value the counter may take.
pub const COUNTER_MAX: u8 = 2;

/// A domain-validation failure of a single transition.  Such a
/// failure is recoverable: the state is left unchanged and the loop
/// keeps running.
#[derive(Clone, Copy, Debug, PartialEq, Eq, Structural)]
pub enum AppError {
    /// An increment was asked of a counter already at `COUNTER_MAX`.
    CounterOverflow,
    /// A decrement was asked of a counter already at `COUNTER_MIN`.
    CounterUnderflow,
}

impl AppError {
    /// A short human-readable description of the failure.
    pub fn message(&self) -> (r: String)
        ensures
            *self is CounterOverflow ==> r@ == "counter overflow"@,
            *self is CounterUnderflow ==> r@ == "counter underflow"@,
    {
        match self {
            AppError::CounterOverflow => "counter overflow".to_owned(),
            AppError::CounterUnderflow => "counter underflow".to_owned(),
        }
    }
}

/// The application state: a bounded counter and a termination flag.
/// The initial state is `counter == 0`, `exit == false`.
#[derive(Clone, Copy, Debug, PartialEq, Eq, Structural)]
pub struct App {
    pub counter: u8,
    pub exit: bool,
}

/// The state is well formed when the counter is inside its range.
/// Every committed transition preserves this.
pub open spec fn wf(s: App) -> bool {
    COUNTER_MIN <= s.counter <= COUNTER_MAX
}

/// What a key press does to the state: the committed next state and
/// the reported outcome.  A failed transition commits nothing.
pub open spec fn key_transition(s: App, code: KeyCode) -> (App, Result<(), AppError>) {
    match code {
        KeyCode::Char(c) => if c == 'q' {
            (App { counter: s.counter, exit: true }, Ok(()))
        } else {
            (s, Ok(()))
        },
        KeyCode::Left => if s.counter > COUNTER_MIN {
            (App { counter: (s.counter - 1) as u8, exit: s.exit }, Ok(()))
        } else {
            (s, Err(AppError::CounterUnderflow))
        },
        KeyCode::Right => if s.counter < COUNTER_MAX {
            (App { counter: (s.counter + 1) as u8, exit: s.exit }, Ok(()))
        } else {
            (s, Err(AppError::CounterOverflow))
        },
        KeyCode::Other => (s, Ok(())),
    }
}

/// What one decoded event does to the state.  Once the termination
/// flag is set no further transition is applied; repeat and release
/// key events are filtered out; non-key events are ignored.
pub open spec fn step(s: App, ev: Event) -> (App, Result<(), AppError>) {
    if s.exit {
        (s, Ok(()))
    } else {
        match ev {
            Event::Key(k) => if k.kind == KeyEventKind::Press {
                key_transition(s, k.code)
            } else {
                (s, Ok(()))
            },
            Event::Other => (s, Ok(())),
        }
    }
}

impl App {
    /// The initial state: counter at zero, not exiting.
    pub fn new() -> (r: App)
        ensures
            r == (App { counter: 0u8, exit: false }),
    {
        App { counter: 0, exit: false }
    }

    /// Request termination.  The flag is never reset.
    pub fn exit(&mut self)
        ensures
            *final(self) == (App { counter: old(self).counter, exit: true }),
    {
        self.exit = true;
    }

    /// Increment the counter, refusing to move past `COUNTER_MAX`.
    /// On failure nothing is committed.
    pub fn increment_counter(&mut self) -> (r: Result<(), AppError>)
        ensures
            (*final(self), r) == key_transition(*old(self), KeyCode::Right),
    {
        if self.counter < COUNTER_MAX {
            self.counter = self.counter + 1;
            Ok(())
        } else {
            Err(AppError::CounterOverflow)
        }
    }

    /// Decrement the counter, refusing to move below `COUNTER_MIN`.
    /// On failure nothing is committed.
    pub fn decrement_counter(&mut self) -> (r: Result<(), AppError>)
        ensures
            (*final(self), r) == key_transition(*old(self), KeyCode::Left),
    {
        if self.counter > COUNTER_MIN {
            self.counter = self.counter - 1;
            Ok(())
        } else {
            Err(AppError::CounterUnderflow)
        }
    }

    /// Apply the transition a key press asks for.
    pub fn handle_key_event(&mut self, key_event: KeyEvent) -> (r: Result<(), AppError>)
        ensures
            (*final(self), r) == key_transition(*old(self), key_event.code),
    {
        match key_event.code {
            KeyCode::Char(c) => {
                if c == 'q' {
                    self.exit();
                }
                Ok(())
            },
            KeyCode::Left => self.decrement_counter(),
            KeyCode::Right => self.increment_counter(),
            KeyCode::Other => Ok(()),
        }
    }

    /// Dispatch one decoded event: filter out repeat and release key
    /// events and anything that is not a key event, and apply nothing
    /// once the termination flag is set.
    pub fn handle_event(&mut self, ev: Event) -> (r: Result<(), AppError>)
        ensures
            (*final(self), r) == step(*old(self), ev),
    {
        if self.exit {
            return Ok(());
        }
        match ev {
            Event::Key(k) => {
                if k.kind == KeyEventKind::Press {
                    self.handle_key_event(k)
                } else {
                    Ok(())
                }
            },
            Event::Other => Ok(()),
        }
    }
}

impl Default for App {
    /// The initial state: counter at zero, not exiting.
    fn default() -> (r: App)
        ensures
            r == (App { counter: 0u8, exit: false }),
    {
        App { counter: 0, exit: false }
    }
}

/// A committed transition never leaves the counter's range: from a
/// well-formed state, the state after any single event is well
/// formed.
pub proof fn lemma_step_preserves_bounds(s: App, ev: Event)
    requires
        wf(s),
    ensures
        wf(step(s, ev).0),
{
}

/// The termination flag is monotonic: no event ever resets it.
pub proof fn lemma_exit_monotone(s: App, ev: Event)
    requires
        s.exit,
    ensures
        step(s, ev).0.exit,
{
}

/// Once the termination flag is set, every transition is a no-op
/// that reports success.
pub proof fn lemma_exit_absorbs(s: App, ev: Event)
    requires
        s.exit,
    ensures
        step(s, ev) == (s, Ok::<(), AppError>(())),
{
}

/// Repeat and release key events never change the state: only a
/// genuine press triggers a transition.
pub proof fn lemma_key_kind_filtering(s: App, k: KeyEvent)
    requires
        k.kind != KeyEventKind::Press,
    ensures
        step(s, Event::Key(k)) == (s, Ok::<(), AppError>(())),
{
}

} // verus!
