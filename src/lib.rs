//! Conway's Game of Life on a bounded, non-wrapping board, with the
//! run/edit state machine that drives it from a terminal front end.

pub mod control;
pub mod evolution;
pub mod game;
