//! Conway's Game of Life on a bounded rectangular grid with hard edges.
//!
//! `board` holds the mathematical model of a grid and `laws` what follows
//! from it; `rule` is the rule for a single cell and `game` the automaton
//! itself. `app` and `screen` decide what the events of a user interface do
//! to a running simulation. `random` and `clock` state what the library
//! takes on trust from the `rand` crate and from the system clock.

pub mod app;
pub mod board;
pub mod clock;
pub mod game;
pub mod laws;
pub mod random;
pub mod rule;
pub mod screen;
