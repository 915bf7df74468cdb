//! A verified Conway's Game of Life engine.
//!
//! The library owns the automaton itself: the fixed-size grid of cells, the
//! Moore-neighborhood counting rule, the simultaneous generation step, and the
//! session state machine that gates editing and timed stepping.  Windowing,
//! input polling and drawing live outside the library and only exchange plain
//! values with it.

pub mod grid;
pub mod laws;
pub mod session;
