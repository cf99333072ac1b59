//! A verified core for a terminal counter application.
//!
//! The crate models the pattern shared by small full-screen terminal
//! programs: a session guard that switches the terminal into an
//! alternate-screen raw mode and restores it on every exit path, a
//! bounded application state machine driven by decoded key events, a
//! pure projection of the state into a renderable frame, and the
//! draw/poll/dispatch loop that ties them together.  The terminal
//! itself is an external collaborator: an unverified shell performs
//! the actual I/O and feeds decoded events and backend outcomes into
//! the verified core.

pub mod event;
pub mod render;
pub mod session;
pub mod state;
