//! Core logic for a small indicator firmware: polarity-abstracted output
//! signals, a mutually-exclusive tri-color indicator, and a fixed timed
//! sequencer, all modeled over explicit electrical line states.
//!
//! Hardware binding (real GPIO registers, timers, the temperature peripheral)
//! is a collaborator outside this crate; the crate's types record every level
//! driven onto a line, so the electrical behavior of the logic is stated and
//! proved here.

pub mod line;
pub mod rgb;
pub mod sequencer;
pub mod signal;
pub mod temperature;
