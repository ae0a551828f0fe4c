//! The automaton: a grid of cells and the operations on it.

use vstd::prelude::*;
use crate::board::Board;
use crate::random::random_ratio;
use crate::random::thread_rng;
use crate::rule::evolve;

verus! {

/// The eight positions around a cell, each as a row offset and a column
/// offset.
const DIRECTIONS: [(isize, isize); 8] = [
    (-1, -1),
    (-1, 0),
    (-1, 1),
    (0, -1),
    (0, 1),
    (1, -1),
    (1, 0),
    (1, 1),
];

/// The live cells among the first `k` of the positions around `(r, c)`.
spec fn counted(board: Board, r: int, c: int, k: nat) -> int
    decreases k,
{
    if k == 0 {
        0
    } else {
        let d = DIRECTIONS[k - 1];
        counted(board, r, c, (k - 1) as nat) + board.alive(r + d.0, c + d.1)
    }
}

/// Counting through all eight directions gives the neighbour count.
proof fn lemma_counted_all(board: Board, r: int, c: int)
    ensures
        counted(board, r, c, 8) == board.neighbors(r, c),
{
    reveal_with_fuel(counted, 9);
}

/// Moves a coordinate by one step, or not at all, and reports the result
/// only if it still lies below `limit`.
fn shift(pos: usize, delta: isize, limit: usize) -> (moved: Option<usize>)
    requires
        -1 <= delta <= 1,
        pos < limit,
    ensures
        moved.is_some() <==> 0 <= pos + delta < limit,
        moved.is_some() ==> moved.unwrap() == pos + delta,
{
    if delta < 0 {
        if pos == 0 {
            None
        } else {
            Some(pos - 1)
        }
    } else if delta == 0 {
        Some(pos)
    } else if pos + 1 < limit {
        Some(pos + 1)
    } else {
        None
    }
}

/// A fixed-size grid of cells that advances one generation at a time.
pub struct GameOfLife {
    rows: usize,
    cols: usize,
    field: Vec<u8>,
}

impl View for GameOfLife {
    type V = Board;

    closed spec fn view(&self) -> Board {
        Board { rows: self.rows as nat, cols: self.cols as nat, cells: self.field@ }
    }
}

impl GameOfLife {
    /// The place of cell `(row, col)` in the row-major cell storage.
    pub fn idx(&self, row: usize, col: usize) -> (i: usize)
        requires
            self@.wf(),
            self@.in_bounds(row as int, col as int),
        ensures
            i == self@.index(row as int, col as int),
            i < self@.cells.len(),
    {
        proof {
            self@.lemma_index_in_range(row as int, col as int);
            assert(self.rows * self.cols == self.field.len());
        }
        row * self.cols + col
    }

    /// Builds the grid whose cell `i`, in row-major order, is alive exactly
    /// when `draws[i]` is `true`.
    pub fn from_draws(rows: usize, cols: usize, draws: Vec<bool>) -> (game: Self)
        requires
            rows > 0,
            cols > 0,
            draws.len() == rows * cols,
        ensures
            game@ == Board::from_draws(rows as nat, cols as nat, draws@),
            game@.wf(),
    {
        let mut field: Vec<u8> = Vec::new();
        let mut i: usize = 0;
        while i < draws.len()
            invariant
                i <= draws.len(),
                field.len() == i,
                forall|j: int| 0 <= j < i ==> field[j] == (if draws[j] { 1u8 } else { 0u8 }),
            decreases draws.len() - i,
        {
            field.push(if draws[i] { 1u8 } else { 0u8 });
            i += 1;
        }
        assert(field@ =~= Board::from_draws(rows as nat, cols as nat, draws@).cells);
        GameOfLife { rows, cols, field }
    }

    /// Builds a grid of the given size in which every cell is alive with
    /// probability `alive_num / alive_den`, each independently of the others.
    ///
    /// The probability is held within zero and one: with a numerator of zero
    /// no cell is alive, whatever the denominator, and any other numerator
    /// that is not below the denominator makes every cell alive.
    pub fn generate_game(rows: usize, cols: usize, alive_num: u32, alive_den: u32) -> (game: Self)
        requires
            rows > 0,
            cols > 0,
            rows * cols <= usize::MAX,
        ensures
            game@.wf(),
            game@.rows == rows,
            game@.cols == cols,
            alive_num == 0 ==> game@ == Board::uniform(rows as nat, cols as nat, 0),
            alive_num > 0 && alive_num >= alive_den ==> game@ == Board::uniform(
                rows as nat,
                cols as nat,
                1,
            ),
    {
        let (num, den): (u32, u32) = if alive_num == 0 {
            (0, 1)
        } else if alive_num >= alive_den {
            (1, 1)
        } else {
            (alive_num, alive_den)
        };
        let total: usize = rows * cols;
        let mut rng = thread_rng();
        let mut draws: Vec<bool> = Vec::new();
        while draws.len() < total
            invariant
                draws.len() <= total,
                0 < den,
                num <= den,
                num == 0 ==> forall|j: int| 0 <= j < draws.len() ==> !draws[j],
                num == den ==> forall|j: int| 0 <= j < draws.len() ==> draws[j],
            decreases total - draws.len(),
        {
            let hit = random_ratio(&mut rng, num, den);
            draws.push(hit);
        }
        let game = Self::from_draws(rows, cols, draws);
        proof {
            if num == 0 {
                assert(game@.cells =~= Board::uniform(rows as nat, cols as nat, 0).cells);
            }
            if num == den {
                assert(game@.cells =~= Board::uniform(rows as nat, cols as nat, 1).cells);
            }
        }
        game
    }

    /// The number of rows.
    pub fn rows(&self) -> (rows: usize)
        ensures
            rows == self@.rows,
    {
        self.rows
    }

    /// The number of columns.
    pub fn cols(&self) -> (cols: usize)
        ensures
            cols == self@.cols,
    {
        self.cols
    }

    /// The state of cell `(row, col)`: `0` for dead, `1` for alive.
    pub fn cell(&self, row: usize, col: usize) -> (state: u8)
        requires
            self@.wf(),
            self@.in_bounds(row as int, col as int),
        ensures
            state == self@.cell(row as int, col as int),
            state == 0 || state == 1,
    {
        let idx = self.idx(row, col);
        self.field[idx]
    }

    /// Counts the live cells among the up to eight cells around
    /// `(row, col)`. Positions beyond an edge of the grid count as dead: the
    /// grid does not wrap around.
    pub fn alive_neighbors(&self, row: usize, col: usize) -> (count: u8)
        requires
            self@.wf(),
            self@.in_bounds(row as int, col as int),
        ensures
            count == self@.neighbors(row as int, col as int),
            count <= 8,
    {
        let mut count: u8 = 0;
        let mut k: usize = 0;
        while k < 8
            invariant
                k <= 8,
                self@.wf(),
                self@.in_bounds(row as int, col as int),
                count == counted(self@, row as int, col as int, k as nat),
                count <= k,
            decreases 8 - k,
        {
            let (d_row, d_col) = DIRECTIONS[k];
            match (shift(row, d_row, self.rows), shift(col, d_col, self.cols)) {
                (Some(r), Some(c)) => {
                    let idx = self.idx(r, c);
                    count += self.field[idx];
                },
                _ => {},
            }
            k += 1;
        }
        proof {
            lemma_counted_all(self@, row as int, col as int);
        }
        count
    }

    /// Advances the grid by one generation. Every cell of the new generation
    /// is decided from the old generation alone.
    pub fn update(&mut self)
        requires
            old(self)@.wf(),
        ensures
            final(self)@ == old(self)@.step(),
            final(self)@.wf(),
            final(self)@.rows == old(self)@.rows,
            final(self)@.cols == old(self)@.cols,
    {
        let mut new_field = self.field.clone();
        let mut row: usize = 0;
        while row < self.rows
            invariant
                *self == *old(self),
                self@.wf(),
                row <= self.rows,
                new_field.len() == self.field.len(),
                forall|i: int|
                    0 <= i < row * self.cols ==> new_field[i] == self@.next_cell(
                        i / (self.cols as int),
                        i % (self.cols as int),
                    ),
            decreases self.rows - row,
        {
            let mut col: usize = 0;
            while col < self.cols
                invariant
                    *self == *old(self),
                    self@.wf(),
                    row < self.rows,
                    col <= self.cols,
                    new_field.len() == self.field.len(),
                    forall|i: int|
                        0 <= i < row * self.cols + col ==> new_field[i] == self@.next_cell(
                            i / (self.cols as int),
                            i % (self.cols as int),
                        ),
                decreases self.cols - col,
            {
                let idx = self.idx(row, col);
                let neighbors = self.alive_neighbors(row, col);
                proof {
                    self@.lemma_index_coords(row as int, col as int);
                }
                new_field.set(idx, evolve(self.field[idx], neighbors));
                col += 1;
            }
            assert(row * self.cols + self.cols == (row + 1) * self.cols) by (nonlinear_arith);
            row += 1;
        }
        assert(new_field@ =~= self@.step().cells);
        self.field = new_field;
    }

    /// Flips the state of cell `(row, col)`.
    pub fn toggle(&mut self, row: usize, col: usize)
        requires
            old(self)@.wf(),
            old(self)@.in_bounds(row as int, col as int),
        ensures
            final(self)@ == old(self)@.toggled(row as int, col as int),
            final(self)@.wf(),
    {
        let idx = self.idx(row, col);
        let state = self.field[idx];
        assert(state ^ 1 == 1 - state) by (bit_vector)
            requires
                state == 0 || state == 1,
        ;
        self.field[idx] = state ^ 1;
    }
}

} // verus!
