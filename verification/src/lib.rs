//! The time-keeping model of a board of countdown timers.
//!
//! A [`Timer`] counts down from a duration; it either runs towards a
//! deadline or is paused with a duration left. A [`TimerBoard`] holds timers
//! in rows under one global start/pause control, from which a timer can be
//! taken out by pausing it on its own. The host shows the board, reads the
//! clock and plays the completion cue; it tells the board what the user did
//! as [`Event`]s and keeps a [`BoardState`] across restarts.

pub mod board;
pub mod event;
pub mod laws;
pub mod saved;
pub mod timer;

pub use board::TimerBoard;
pub use event::Event;
pub use saved::{BoardState, TimerRecord};
pub use timer::{Timer, TimerState};
