//! The state of a single cell and the transition rule.
use vstd::prelude::*;

verus! {

/// The state of one cell of the board.
#[derive(Debug, Clone, Copy, PartialEq, Eq, Structural)]
pub enum CellState {
    Alive,
    Dead,
}

/// The canonical rule: a live cell survives with two or three live
/// neighbours, a dead cell comes alive with exactly three, and every other
/// cell is dead in the next generation.
pub open spec fn next_state(state: CellState, neighbours: int) -> CellState {
    if (state is Alive && (neighbours == 2 || neighbours == 3)) || (state is Dead && neighbours
        == 3) {
        CellState::Alive
    } else {
        CellState::Dead
    }
}

/// The one-character form of a state used in diagnostic dumps.
pub open spec fn state_char(state: CellState) -> char {
    match state {
        CellState::Alive => 'A',
        CellState::Dead => 'D',
    }
}

impl CellState {
    /// The diagnostic character of this state: `'A'` or `'D'`.
    pub fn pretty_print(self) -> (r: char)
        ensures
            r == state_char(self),
    {
        match self {
            CellState::Alive => 'A',
            CellState::Dead => 'D',
        }
    }
}

/// The state of a cell in the next generation, given its current state
/// and its number of live neighbours.
pub fn update_cell(state: CellState, neighbours: usize) -> (r: CellState)
    ensures
        r == next_state(state, neighbours as int),
{
    match (state, neighbours) {
        (CellState::Dead, 3) | (CellState::Alive, 2) | (CellState::Alive, 3) => CellState::Alive,
        _ => CellState::Dead,
    }
}

} // verus!
