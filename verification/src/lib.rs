//! Core logic of a small timer-driven firmware image: a periodic countdown
//! timer shared between the main context and its interrupt handler, a one-shot
//! serial probe performed at startup, and eight output lines stepped through a
//! rotating chase pattern, one step per idle-loop pass.
//!
//! The crate holds the decisions and state machines only. Register access,
//! the serial bus electrics and the debug transport are outside collaborators;
//! a thin driver performs those actions and feeds their outcomes back in.

pub mod cell;
pub mod diag;
pub mod fault;
pub mod firmware;
pub mod pin;
pub mod probe;
pub mod sequencer;
pub mod timer;
