//! The logic of the MAYA desktop shell: the greeting that the front end asks
//! for, and the life cycle of the shell from start to termination.
//!
//! Everything here is a function from plain values to plain values. The
//! program around it builds the GUI host, runs the event loop and ends the
//! process; it asks this library what to answer and what to do next.

pub mod greeting;
pub mod lifecycle;

pub use greeting::greet;
pub use lifecycle::{step, Effect, Event, Phase, Transition, EXIT_SUCCESS};
