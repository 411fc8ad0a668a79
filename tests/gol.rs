use game_of_life::{update_cell, CellState, GameOfLife};

const D: CellState = CellState::Dead;
const A: CellState = CellState::Alive;

#[test]
// Verifies that the empty pattern should remove patterns
fn test_empty() {
    let default_gol: GameOfLife<6, 6> = GameOfLife::new();
    let mut update_gol: GameOfLife<6, 6> = GameOfLife::new();
    update_gol.update();

    assert_eq!(default_gol, update_gol);
}

#[test]
// Tests a pattern full of Alive cells. Only the corners should survive
fn test_overcrowding() {
    let default_gol = GameOfLife::new();
    let middle_gol: GameOfLife<6, 6> = GameOfLife::from_board([
        [A, D, D, D, D, A],
        [D, D, D, D, D, D],
        [D, D, D, D, D, D],
        [D, D, D, D, D, D],
        [D, D, D, D, D, D],
        [A, D, D, D, D, A],
    ]);
    let start_gol: GameOfLife<6, 6> = GameOfLife::from_board([
        [A, A, A, A, A, A],
        [A, A, A, A, A, A],
        [A, A, A, A, A, A],
        [A, A, A, A, A, A],
        [A, A, A, A, A, A],
        [A, A, A, A, A, A],
    ]);
    let mut update_gol: GameOfLife<6, 6> = start_gol;
    update_gol.update();

    assert_eq!(middle_gol, update_gol);
    assert_ne!(start_gol, update_gol);
    update_gol.update();

    assert_eq!(default_gol, update_gol);
}

#[test]
// The blinker: a vertical line becomes a horizontal one and back
// DAD    DDD
// DAD -> AAA
// DDD    DDD
fn test_repeat() {
    let a_gol: GameOfLife<3, 3> = GameOfLife::from_board([[D, A, D], [D, A, D], [D, A, D]]);
    let b_gol: GameOfLife<3, 3> = GameOfLife::from_board([[D, D, D], [A, A, A], [D, D, D]]);
    let mut update_gol: GameOfLife<3, 3> = a_gol;

    assert_eq!(a_gol, update_gol);
    update_gol.update();
    assert_eq!(b_gol, update_gol);
    update_gol.update();
    assert_eq!(a_gol, update_gol);
    update_gol.update();
    assert_eq!(b_gol, update_gol);
}

#[test]
// The block never changes
// DDDD
// DAAD
// DAAD
// DDDD
fn test_persist() {
    let default_gol: GameOfLife<4, 4> =
        GameOfLife::from_board([[D, D, D, D], [D, A, A, D], [D, A, A, D], [D, D, D, D]]);
    let mut update_gol: GameOfLife<4, 4> = default_gol;

    assert_eq!(default_gol, update_gol);
    update_gol.update();
    assert_eq!(default_gol, update_gol);
    update_gol.update();
    assert_eq!(default_gol, update_gol);
    update_gol.update();
    assert_eq!(default_gol, update_gol);
}

#[test]
fn test_transitions() {
    // Testing initial state D
    assert_eq!(D, update_cell(D, 1));
    assert_eq!(D, update_cell(D, 2));
    assert_eq!(A, update_cell(D, 3));
    assert_eq!(D, update_cell(D, 4));

    // Testing initial state A
    assert_eq!(D, update_cell(A, 1));
    assert_eq!(A, update_cell(A, 2));
    assert_eq!(A, update_cell(A, 3));
    assert_eq!(D, update_cell(A, 4));
}
