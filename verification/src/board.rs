//! The mathematical model of a grid: its dimensions and its cells in
//! row-major order, together with the functions that define neighbourhood
//! and the passage from one generation to the next.

use vstd::prelude::*;
use vstd::arithmetic::div_mod::lemma_fundamental_div_mod;
use vstd::arithmetic::div_mod::lemma_fundamental_div_mod_converse;
use vstd::arithmetic::div_mod::lemma_mod_bound;
use crate::rule::next_state;

verus! {

/// A grid of cells as a plain mathematical value.
pub struct Board {
    pub rows: nat,
    pub cols: nat,
    /// Row-major cell states, `0` for dead and `1` for alive.
    pub cells: Seq<u8>,
}

impl Board {
    /// Both dimensions are positive, there is exactly one state per cell and
    /// every state is `0` or `1`.
    pub open spec fn wf(self) -> bool {
        &&& self.rows > 0
        &&& self.cols > 0
        &&& self.cells.len() == self.rows * self.cols
        &&& forall|i: int| 0 <= i < self.cells.len() ==> self.cells[i] == 0 || self.cells[i] == 1
    }

    /// Whether `(r, c)` names a cell of the grid.
    pub open spec fn in_bounds(self, r: int, c: int) -> bool {
        0 <= r < self.rows && 0 <= c < self.cols
    }

    /// The position of cell `(r, c)` in `cells`.
    pub open spec fn index(self, r: int, c: int) -> int {
        r * self.cols + c
    }

    /// The state stored for the cell `(r, c)`.
    pub open spec fn cell(self, r: int, c: int) -> u8
        recommends
            self.in_bounds(r, c),
    {
        self.cells[self.index(r, c)]
    }

    /// What `(r, c)` contributes to a neighbour count: the state of the cell
    /// if there is one, and nothing beyond the edges of the grid.
    pub open spec fn alive(self, r: int, c: int) -> int {
        if self.in_bounds(r, c) {
            self.cell(r, c) as int
        } else {
            0
        }
    }

    /// The number of live cells among the eight positions around `(r, c)`.
    pub open spec fn neighbors(self, r: int, c: int) -> int {
        self.alive(r - 1, c - 1) + self.alive(r - 1, c) + self.alive(r - 1, c + 1)
            + self.alive(r, c - 1) + self.alive(r, c + 1)
            + self.alive(r + 1, c - 1) + self.alive(r + 1, c) + self.alive(r + 1, c + 1)
    }

    /// The state of cell `(r, c)` in the next generation.
    pub open spec fn next_cell(self, r: int, c: int) -> u8
        recommends
            self.in_bounds(r, c),
    {
        next_state(self.cell(r, c), self.neighbors(r, c))
    }

    /// The next generation: every cell is decided from this generation alone.
    pub open spec fn step(self) -> Board {
        Board {
            rows: self.rows,
            cols: self.cols,
            cells: Seq::new(
                self.cells.len(),
                |i: int| self.next_cell(i / (self.cols as int), i % (self.cols as int)),
            ),
        }
    }

    /// The grid with the state of cell `(r, c)` flipped.
    pub open spec fn toggled(self, r: int, c: int) -> Board
        recommends
            self.in_bounds(r, c),
    {
        Board {
            rows: self.rows,
            cols: self.cols,
            cells: self.cells.update(self.index(r, c), (1 - self.cell(r, c)) as u8),
        }
    }

    /// The grid of the given size in which every cell has the same state.
    pub open spec fn uniform(rows: nat, cols: nat, state: u8) -> Board {
        Board { rows, cols, cells: Seq::new(rows * cols, |i: int| state) }
    }

    /// The grid of the given size whose cell `i` is alive exactly when
    /// `draws[i]` holds.
    pub open spec fn from_draws(rows: nat, cols: nat, draws: Seq<bool>) -> Board {
        Board {
            rows,
            cols,
            cells: Seq::new(
                rows * cols,
                |i: int|
                    if draws[i] {
                        1u8
                    } else {
                        0u8
                    },
            ),
        }
    }

    /// Every cell of the grid has a place in `cells`.
    pub proof fn lemma_index_in_range(self, r: int, c: int)
        requires
            self.in_bounds(r, c),
        ensures
            0 <= self.index(r, c) < self.rows * self.cols,
    {
        let cols = self.cols as int;
        let rows = self.rows as int;
        assert(0 <= r * cols && r * cols + cols <= rows * cols) by (nonlinear_arith)
            requires
                0 <= r < rows,
                0 < cols,
        ;
    }

    /// The place of a cell determines its row and its column.
    pub proof fn lemma_index_coords(self, r: int, c: int)
        requires
            self.in_bounds(r, c),
        ensures
            self.index(r, c) / (self.cols as int) == r,
            self.index(r, c) % (self.cols as int) == c,
    {
        lemma_fundamental_div_mod_converse(self.index(r, c), self.cols as int, r, c);
    }

    /// Every place in `cells` belongs to exactly one cell of the grid.
    pub proof fn lemma_coords_in_bounds(self, i: int)
        requires
            self.cols > 0,
            0 <= i < self.rows * self.cols,
        ensures
            self.in_bounds(i / (self.cols as int), i % (self.cols as int)),
            self.index(i / (self.cols as int), i % (self.cols as int)) == i,
    {
        let cols = self.cols as int;
        let rows = self.rows as int;
        let q = i / cols;
        lemma_fundamental_div_mod(i, cols);
        lemma_mod_bound(i, cols);
        assert(cols * q == q * cols) by (nonlinear_arith);
        assert(0 <= q < rows) by (nonlinear_arith)
            requires
                0 <= i < rows * cols,
                0 < cols,
                i == q * cols + i % cols,
                0 <= i % cols < cols,
        ;
    }

    /// Two cells of the grid that share a place in `cells` are the same cell.
    pub proof fn lemma_index_injective(self, r1: int, c1: int, r2: int, c2: int)
        requires
            self.in_bounds(r1, c1),
            self.in_bounds(r2, c2),
            self.index(r1, c1) == self.index(r2, c2),
        ensures
            r1 == r2,
            c1 == c2,
    {
        self.lemma_index_coords(r1, c1);
        self.lemma_index_coords(r2, c2);
    }
}

} // verus!
