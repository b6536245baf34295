//! Keyboard and mouse activity metrics.
//!
//! The crate turns decoded input events into three numbers that a host
//! application polls: how many genuine key presses and mouse events were
//! seen, and how long the user has been idle. It never reads a clock or
//! touches the operating system itself: every operation takes the current
//! time as an argument, so the host decides where events and time come from.
//!
//! * [`activity`] holds the counters and the idle clock.
//! * [`tracker`] decides which key events count as new presses.
//! * [`adapter`] is the platform-independent half of the input-hook adapter.
//! * [`macos`] and [`windows`] dispatch the raw events of the two platforms.
//! * [`log`] renders the lines of the activity log.
//! * [`control`] is the surface that the host calls.

pub mod activity;
pub mod adapter;
pub mod control;
pub mod log;
pub mod macos;
pub mod tracker;
pub mod windows;
