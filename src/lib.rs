//! A terminal spinner, as verified decisions.
//!
//! The library decides what a spinner shows and when: the text of each line,
//! which frame comes next, when the animation task must stop, and what the
//! caller must do to hand a final status to it. Running the task, sleeping
//! between frames and writing to the console are left to the caller.
use vstd::prelude::*;

pub mod laws;
pub mod spinner;
pub mod stream;

pub use stream::{State, Stream};
