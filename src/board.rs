//! The board, its mathematical model and generation stepping.
use crate::cell::{next_state, state_char, update_cell, CellState};
use vstd::prelude::*;

verus! {

/// Whether `(x, y)` lies on the board `g`: `y` names a row, `x` a column.
pub open spec fn on_board(g: Seq<Seq<CellState>>, x: int, y: int) -> bool {
    0 <= y < g.len() && 0 <= x < g[y].len()
}

/// 1 when `(x, y)` lies on `g` and holds a live cell, 0 otherwise; there
/// is no wraparound.
pub open spec fn alive_at(g: Seq<Seq<CellState>>, x: int, y: int) -> nat {
    if on_board(g, x, y) && g[y][x] is Alive {
        1
    } else {
        0
    }
}

/// The number of live cells among the eight positions around `(x, y)`,
/// positions off the board counting as dead.
pub open spec fn live_neighbours(g: Seq<Seq<CellState>>, x: int, y: int) -> nat {
    let above = alive_at(g, x - 1, y - 1) + alive_at(g, x, y - 1) + alive_at(g, x + 1, y - 1);
    let beside = alive_at(g, x - 1, y) + alive_at(g, x + 1, y);
    let below = alive_at(g, x - 1, y + 1) + alive_at(g, x, y + 1) + alive_at(g, x + 1, y + 1);
    above + beside + below
}

/// The board one generation later: every cell follows the transition rule
/// applied to its state and its live neighbours in `g` alone.
pub open spec fn next_generation(g: Seq<Seq<CellState>>) -> Seq<Seq<CellState>> {
    Seq::new(
        g.len(),
        |y: int| Seq::new(g[y].len(), |x: int| next_state(g[y][x], live_neighbours(g, x, y) as int)),
    )
}

/// The board after `n` generations.
pub open spec fn generation(g: Seq<Seq<CellState>>, n: nat) -> Seq<Seq<CellState>>
    decreases n,
{
    if n == 0 {
        g
    } else {
        next_generation(generation(g, (n - 1) as nat))
    }
}

/// A board of `h` rows of `w` cells, every cell in state `s`.
pub open spec fn uniform_board(w: nat, h: nat, s: CellState) -> Seq<Seq<CellState>> {
    Seq::new(h, |y: int| Seq::new(w, |x: int| s))
}

/// A game of life on a board of `HEIGHT` rows of `WIDTH` cells.
#[derive(Debug, Clone, Copy)]
pub struct GameOfLife<const WIDTH: usize, const HEIGHT: usize> {
    board: [[CellState; WIDTH]; HEIGHT],
}

impl<const WIDTH: usize, const HEIGHT: usize> View for GameOfLife<WIDTH, HEIGHT> {
    type V = Seq<Seq<CellState>>;

    /// The rows of the board, top to bottom, each a sequence of cells from
    /// left to right.
    closed spec fn view(&self) -> Seq<Seq<CellState>> {
        Seq::new(HEIGHT as nat, |y: int| self.board[y]@)
    }
}

impl<const WIDTH: usize, const HEIGHT: usize> GameOfLife<WIDTH, HEIGHT> {
    /// The view has `HEIGHT` rows of `WIDTH` cells.
    pub proof fn lemma_view_shape(&self)
        ensures
            self@.len() == HEIGHT,
            forall|y: int| 0 <= y < HEIGHT ==> #[trigger] self@[y].len() == WIDTH,
    {
    }

    /// A board with every cell dead.
    pub fn new() -> (r: Self)
        ensures
            r@ == uniform_board(WIDTH as nat, HEIGHT as nat, CellState::Dead),
    {
        let r = GameOfLife { board: [[CellState::Dead; WIDTH]; HEIGHT] };
        assert(r@ =~~= uniform_board(WIDTH as nat, HEIGHT as nat, CellState::Dead));
        r
    }

    /// A board holding the given rows, top to bottom.
    pub fn from_board(board: [[CellState; WIDTH]; HEIGHT]) -> (r: Self)
        ensures
            r@ == Seq::new(HEIGHT as nat, |y: int| board[y]@),
    {
        GameOfLife { board }
    }

    /// The state of the cell in column `x` of row `y`.
    pub fn get(&self, x: usize, y: usize) -> (r: CellState)
        requires
            x < WIDTH,
            y < HEIGHT,
        ensures
            r == self@[y as int][x as int],
    {
        self.board[y][x]
    }

    /// Overwrites the cell in column `x` of row `y`.
    pub fn set(&mut self, x: usize, y: usize, state: CellState)
        requires
            x < WIDTH,
            y < HEIGHT,
        ensures
            final(self)@ == old(self)@.update(y as int, old(self)@[y as int].update(x as int, state)),
    {
        let mut row = self.board[y];
        row[x] = state;
        self.board[y] = row;
        assert(self@ =~~= old(self)@.update(y as int, old(self)@[y as int].update(x as int, state)));
    }

    /// 1 when the cell in column `x` of row `y` is alive, 0 when it is dead.
    fn alive_count(&self, x: usize, y: usize) -> (r: usize)
        requires
            x < WIDTH,
            y < HEIGHT,
        ensures
            r == alive_at(self@, x as int, y as int),
    {
        match self.board[y][x] {
            CellState::Alive => 1,
            CellState::Dead => 0,
        }
    }

    /// The live cells of column `x` in rows `y - 1`, `y` and `y + 1` that lie
    /// on the board, leaving row `y` out when `skip_centre` holds.
    fn column_count(&self, x: usize, y: usize, skip_centre: bool) -> (r: usize)
        requires
            x < WIDTH,
            y < HEIGHT,
        ensures
            r == alive_at(self@, x as int, y - 1) + (if skip_centre {
                0
            } else {
                alive_at(self@, x as int, y as int)
            }) + alive_at(self@, x as int, y + 1),
    {
        let mut n: usize = 0;
        if y > 0 {
            n = n + self.alive_count(x, y - 1);
        }
        if !skip_centre {
            n = n + self.alive_count(x, y);
        }
        if y < HEIGHT - 1 {
            n = n + self.alive_count(x, y + 1);
        }
        n
    }

    /// The number of live cells among the up to eight cells around column
    /// `x` of row `y` that lie on the board.
    pub fn count_neighbours(&self, x: usize, y: usize) -> (r: usize)
        requires
            x < WIDTH,
            y < HEIGHT,
        ensures
            r == live_neighbours(self@, x as int, y as int),
            r <= 8,
    {
        let mut n: usize = self.column_count(x, y, true);
        if x > 0 {
            n = n + self.column_count(x - 1, y, false);
        }
        if x < WIDTH - 1 {
            n = n + self.column_count(x + 1, y, false);
        }
        n
    }

    /// Advances the board by one generation. Every new cell is computed
    /// from the previous board alone, and the board is replaced only once
    /// all of them are known.
    pub fn update(&mut self)
        ensures
            final(self)@ == next_generation(old(self)@),
    {
        let ghost g = self@;
        let mut new_board: [[CellState; WIDTH]; HEIGHT] = [[CellState::Dead; WIDTH]; HEIGHT];
        let mut y: usize = 0;
        while y < HEIGHT
            invariant
                y <= HEIGHT,
                self@ == g,
                forall|j: int| 0 <= j < y ==> #[trigger] new_board[j]@ == next_generation(g)[j],
            decreases HEIGHT - y,
        {
            let mut row: [CellState; WIDTH] = [CellState::Dead; WIDTH];
            let mut x: usize = 0;
            while x < WIDTH
                invariant
                    x <= WIDTH,
                    y < HEIGHT,
                    self@ == g,
                    forall|i: int|
                        0 <= i < x ==> #[trigger] row@[i] == next_generation(g)[y as int][i],
                decreases WIDTH - x,
            {
                let n = self.count_neighbours(x, y);
                row[x] = update_cell(self.board[y][x], n);
                x = x + 1;
            }
            assert(row@ =~= next_generation(g)[y as int]);
            new_board[y] = row;
            y = y + 1;
        }
        self.board = new_board;
        assert(self@ =~~= next_generation(g));
    }

    /// The diagnostic form of the board: one row of characters per board
    /// row, `'A'` for a live cell and `'D'` for a dead one.
    pub fn pretty_rows(&self) -> (r: Vec<Vec<char>>)
        ensures
            r@.len() == HEIGHT,
            forall|y: int|
                0 <= y < HEIGHT ==> #[trigger] r@[y]@ == self@[y].map_values(
                    |s: CellState| state_char(s),
                ),
    {
        let mut rows: Vec<Vec<char>> = Vec::new();
        let mut y: usize = 0;
        while y < HEIGHT
            invariant
                y <= HEIGHT,
                rows@.len() == y,
                forall|j: int|
                    0 <= j < y ==> #[trigger] rows@[j]@ == self@[j].map_values(
                        |s: CellState| state_char(s),
                    ),
            decreases HEIGHT - y,
        {
            let mut line: Vec<char> = Vec::new();
            let mut x: usize = 0;
            while x < WIDTH
                invariant
                    x <= WIDTH,
                    y < HEIGHT,
                    line@.len() == x,
                    forall|i: int|
                        0 <= i < x ==> #[trigger] line@[i] == state_char(self@[y as int][i]),
                decreases WIDTH - x,
            {
                line.push(self.board[y][x].pretty_print());
                x = x + 1;
            }
            assert(line@ =~= self@[y as int].map_values(|s: CellState| state_char(s)));
            rows.push(line);
            y = y + 1;
        }
        rows
    }
}

impl<const WIDTH: usize, const HEIGHT: usize> PartialEq for GameOfLife<WIDTH, HEIGHT> {
    /// True when every cell holds the same state on both boards.
    fn eq(&self, other: &Self) -> (r: bool)
        ensures
            r == (self@ == other@),
    {
        let mut y: usize = 0;
        while y < HEIGHT
            invariant
                y <= HEIGHT,
                forall|j: int| 0 <= j < y ==> #[trigger] self@[j] == other@[j],
            decreases HEIGHT - y,
        {
            let mut x: usize = 0;
            while x < WIDTH
                invariant
                    x <= WIDTH,
                    y < HEIGHT,
                    forall|i: int| 0 <= i < x ==> #[trigger] self@[y as int][i] == other@[y as int][i],
                decreases WIDTH - x,
            {
                if self.board[y][x] != other.board[y][x] {
                    assert(self@[y as int][x as int] != other@[y as int][x as int]);
                    return false;
                }
                x = x + 1;
            }
            assert(self@[y as int] =~= other@[y as int]);
            y = y + 1;
        }
        assert(self@ =~= other@);
        true
    }
}

impl<const WIDTH: usize, const HEIGHT: usize> vstd::std_specs::cmp::PartialEqSpecImpl for GameOfLife<WIDTH, HEIGHT> {
    open spec fn obeys_eq_spec() -> bool {
        true
    }

    open spec fn eq_spec(&self, other: &Self) -> bool {
        self@ == other@
    }
}

/// An all-dead board stays all dead: stepping a board of any dimensions
/// whose cells are all dead gives the same board.
pub proof fn lemma_empty_is_fixed_point(w: nat, h: nat)
    ensures
        next_generation(uniform_board(w, h, CellState::Dead)) == uniform_board(
            w,
            h,
            CellState::Dead,
        ),
{
    let g = uniform_board(w, h, CellState::Dead);
    assert(next_generation(g) =~~= g);
}

/// On an all-alive board of at least two rows and two columns, a corner
/// cell has 3 live neighbours, any other cell on the border has 5, and an
/// interior cell has 8.
pub proof fn lemma_full_board_neighbour_counts(w: nat, h: nat, x: int, y: int)
    requires
        w >= 2,
        h >= 2,
        0 <= x < w,
        0 <= y < h,
    ensures
        (x == 0 || x == w - 1) && (y == 0 || y == h - 1) ==> live_neighbours(
            uniform_board(w, h, CellState::Alive),
            x,
            y,
        ) == 3,
        (x == 0 || x == w - 1) != (y == 0 || y == h - 1) ==> live_neighbours(
            uniform_board(w, h, CellState::Alive),
            x,
            y,
        ) == 5,
        0 < x < w - 1 && 0 < y < h - 1 ==> live_neighbours(
            uniform_board(w, h, CellState::Alive),
            x,
            y,
        ) == 8,
{
}

/// Stepping depends on the board alone: two games that start from the
/// same board hold the same board after any number of steps.
pub proof fn lemma_stepping_is_deterministic<const WIDTH: usize, const HEIGHT: usize>(
    a: GameOfLife<WIDTH, HEIGHT>,
    b: GameOfLife<WIDTH, HEIGHT>,
    n: nat,
)
    requires
        a@ == b@,
    ensures
        generation(a@, n) == generation(b@, n),
{
}

} // verus!
