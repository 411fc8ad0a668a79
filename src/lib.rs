//! Conway's Game of Life on a fixed-size board without wraparound.
//!
//! Executable code is verified against the mathematical model in `cell`
//! and `board`: a board is viewed as a sequence of rows, each a sequence
//! of cell states, and one generation step is the function
//! `board::next_generation` on that view.
use vstd::prelude::*;

pub mod board;
pub mod cell;

pub use board::GameOfLife;
pub use cell::{update_cell, CellState};
