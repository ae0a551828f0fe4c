//! Laws of the grid model: what neighbour counts can be, what a generation
//! step and a toggle do to single cells, and how some well-known patterns
//! evolve.

use vstd::prelude::*;
use crate::board::Board;
use crate::rule::next_state;

verus! {

/// Whether `(r2, c2)` is one of the eight positions around `(r1, c1)`.
pub open spec fn adjacent(r1: int, c1: int, r2: int, c2: int) -> bool {
    &&& -1 <= r2 - r1 <= 1
    &&& -1 <= c2 - c1 <= 1
    &&& !(r1 == r2 && c1 == c2)
}

impl Board {
    /// Whether the cell `(r, c)` lies in a corner of the grid.
    pub open spec fn is_corner(self, r: int, c: int) -> bool {
        (r == 0 || r == self.rows - 1) && (c == 0 || c == self.cols - 1)
    }

    /// Whether the cell `(r, c)` lies in the first or last row or column.
    pub open spec fn is_on_edge(self, r: int, c: int) -> bool {
        r == 0 || r == self.rows - 1 || c == 0 || c == self.cols - 1
    }

    /// A position contributes zero or one to a neighbour count, and nothing
    /// if it lies outside the grid.
    pub proof fn lemma_alive_binary(self, r: int, c: int)
        requires
            self.wf(),
        ensures
            0 <= self.alive(r, c) <= 1,
            !self.in_bounds(r, c) ==> self.alive(r, c) == 0,
            self.in_bounds(r, c) ==> self.cell(r, c) == 0 || self.cell(r, c) == 1,
    {
        if self.in_bounds(r, c) {
            self.lemma_index_in_range(r, c);
        }
    }

    /// What holds of every one of the eight positions around `(r, c)`.
    proof fn lemma_around_binary(self, r: int, c: int)
        requires
            self.wf(),
        ensures
            forall|r2: int, c2: int|
                adjacent(r, c, r2, c2) ==> 0 <= #[trigger] self.alive(r2, c2) <= 1,
            forall|r2: int, c2: int|
                adjacent(r, c, r2, c2) && self.in_bounds(r2, c2)
                    ==> #[trigger] self.cell(r2, c2) == 0 || self.cell(r2, c2) == 1,
    {
        assert forall|r2: int, c2: int| adjacent(r, c, r2, c2) implies 0
            <= #[trigger] self.alive(r2, c2) <= 1 by {
            self.lemma_alive_binary(r2, c2);
        }
        assert forall|r2: int, c2: int|
            adjacent(r, c, r2, c2) && self.in_bounds(r2, c2) implies
            #[trigger] self.cell(r2, c2) == 0 || self.cell(r2, c2) == 1 by {
            self.lemma_alive_binary(r2, c2);
        }
    }

    /// A grid filled with one state is well formed and shows that state in
    /// every cell.
    pub proof fn lemma_uniform_cells(rows: nat, cols: nat, state: u8)
        requires
            rows > 0,
            cols > 0,
            state == 0 || state == 1,
        ensures
            Board::uniform(rows, cols, state).wf(),
            forall|r: int, c: int|
                Board::uniform(rows, cols, state).in_bounds(r, c)
                    ==> #[trigger] Board::uniform(rows, cols, state).cell(r, c) == state,
    {
        let grid = Board::uniform(rows, cols, state);
        assert forall|r: int, c: int| grid.in_bounds(r, c) implies #[trigger] grid.cell(r, c)
            == state by {
            grid.lemma_index_in_range(r, c);
        }
    }

    /// A grid built from draws is well formed, and its cell `(r, c)` is
    /// alive exactly when the draw at the place of that cell is `true`.
    pub proof fn lemma_from_draws_cells(rows: nat, cols: nat, draws: Seq<bool>)
        requires
            rows > 0,
            cols > 0,
        ensures
            Board::from_draws(rows, cols, draws).wf(),
            forall|r: int, c: int|
                Board::from_draws(rows, cols, draws).in_bounds(r, c) ==> (
                #[trigger] Board::from_draws(rows, cols, draws).cell(r, c) == 1
                    <==> draws[r * cols + c]),
    {
        let grid = Board::from_draws(rows, cols, draws);
        assert forall|r: int, c: int| grid.in_bounds(r, c) implies (#[trigger] grid.cell(r, c)
            == 1 <==> draws[r * cols + c]) by {
            grid.lemma_index_in_range(r, c);
        }
    }

    /// A neighbour count lies between zero and eight.
    pub proof fn lemma_neighbors_range(self, r: int, c: int)
        requires
            self.wf(),
        ensures
            0 <= self.neighbors(r, c) <= 8,
    {
        self.lemma_around_binary(r, c);
    }

    /// Around a cell that does not touch an edge, all eight positions lie in
    /// the grid, and the neighbour count is the sum of the eight states
    /// stored for them.
    pub proof fn lemma_interior_neighbors(self, r: int, c: int)
        requires
            self.wf(),
            0 < r < self.rows - 1,
            0 < c < self.cols - 1,
        ensures
            forall|r2: int, c2: int| adjacent(r, c, r2, c2) ==> self.in_bounds(r2, c2),
            self.neighbors(r, c) == self.cell(r - 1, c - 1) + self.cell(r - 1, c)
                + self.cell(r - 1, c + 1) + self.cell(r, c - 1) + self.cell(r, c + 1)
                + self.cell(r + 1, c - 1) + self.cell(r + 1, c) + self.cell(r + 1, c + 1),
    {
    }

    /// A corner cell has at most three neighbours in the grid, so its
    /// neighbour count is at most three.
    pub proof fn lemma_corner_neighbors(self, r: int, c: int)
        requires
            self.wf(),
            self.in_bounds(r, c),
            self.is_corner(r, c),
        ensures
            self.neighbors(r, c) <= 3,
    {
        self.lemma_around_binary(r, c);
    }

    /// A cell in the first or last row or column has at most five neighbours
    /// in the grid, so its neighbour count is at most five.
    pub proof fn lemma_edge_neighbors(self, r: int, c: int)
        requires
            self.wf(),
            self.in_bounds(r, c),
            self.is_on_edge(r, c),
        ensures
            self.neighbors(r, c) <= 5,
    {
        self.lemma_around_binary(r, c);
    }

    /// A toggle flips the chosen cell and leaves every other position as it
    /// was. The result is again a well-formed grid of the same size.
    pub proof fn lemma_toggled_cells(self, r: int, c: int)
        requires
            self.wf(),
            self.in_bounds(r, c),
        ensures
            self.toggled(r, c).wf(),
            self.toggled(r, c).rows == self.rows,
            self.toggled(r, c).cols == self.cols,
            self.toggled(r, c).cell(r, c) == 1 - self.cell(r, c),
            forall|r2: int, c2: int|
                !(r2 == r && c2 == c) ==> #[trigger] self.toggled(r, c).alive(r2, c2)
                    == self.alive(r2, c2),
    {
        let after = self.toggled(r, c);
        self.lemma_index_in_range(r, c);
        assert forall|r2: int, c2: int| !(r2 == r && c2 == c) implies
            #[trigger] after.alive(r2, c2) == self.alive(r2, c2) by {
            if self.in_bounds(r2, c2) {
                self.lemma_index_in_range(r2, c2);
                if self.index(r2, c2) == self.index(r, c) {
                    self.lemma_index_injective(r, c, r2, c2);
                }
            }
        }
    }

    /// Toggling the same cell twice gives back the grid one started with.
    pub proof fn lemma_toggle_involution(self, r: int, c: int)
        requires
            self.wf(),
            self.in_bounds(r, c),
        ensures
            self.toggled(r, c).toggled(r, c) == self,
    {
        self.lemma_index_in_range(r, c);
        assert(self.toggled(r, c).toggled(r, c).cells =~= self.cells);
    }

    /// Only the eight positions around a cell are counted: flipping any other
    /// cell of the grid, the cell itself included, leaves the count as it
    /// was.
    pub proof fn lemma_distant_cell_not_counted(self, r: int, c: int, far_r: int, far_c: int)
        requires
            self.wf(),
            self.in_bounds(far_r, far_c),
            !adjacent(r, c, far_r, far_c),
        ensures
            self.toggled(far_r, far_c).neighbors(r, c) == self.neighbors(r, c),
    {
        self.lemma_toggled_cells(far_r, far_c);
    }

    /// The first and the last column are not neighbours in a grid more than
    /// two columns wide: whatever lives in one of them is never counted for
    /// a cell in the other.
    pub proof fn lemma_columns_do_not_wrap(self, r: int, far_r: int)
        requires
            self.wf(),
            self.cols > 2,
            0 <= far_r < self.rows,
        ensures
            self.toggled(far_r, self.cols - 1).neighbors(r, 0) == self.neighbors(r, 0),
            self.toggled(far_r, 0).neighbors(r, self.cols - 1) == self.neighbors(
                r,
                self.cols - 1,
            ),
    {
        self.lemma_distant_cell_not_counted(r, 0, far_r, self.cols - 1);
        self.lemma_distant_cell_not_counted(r, self.cols - 1, far_r, 0);
    }

    /// The first and the last row are not neighbours in a grid more than two
    /// rows high: whatever lives in one of them is never counted for a cell
    /// in the other.
    pub proof fn lemma_rows_do_not_wrap(self, c: int, far_c: int)
        requires
            self.wf(),
            self.rows > 2,
            0 <= far_c < self.cols,
        ensures
            self.toggled(self.rows - 1, far_c).neighbors(0, c) == self.neighbors(0, c),
            self.toggled(0, far_c).neighbors(self.rows - 1, c) == self.neighbors(
                self.rows - 1,
                c,
            ),
    {
        self.lemma_distant_cell_not_counted(0, c, self.rows - 1, far_c);
        self.lemma_distant_cell_not_counted(self.rows - 1, c, 0, far_c);
    }

    /// Each of the eight positions around a cell is counted once: bringing
    /// a dead neighbour to life raises the count by one, and killing a live
    /// neighbour lowers it by one.
    pub proof fn lemma_adjacent_cell_counted(self, r: int, c: int, near_r: int, near_c: int)
        requires
            self.wf(),
            self.in_bounds(near_r, near_c),
            adjacent(r, c, near_r, near_c),
        ensures
            self.toggled(near_r, near_c).neighbors(r, c)
                == self.neighbors(r, c) + 1 - 2 * self.cell(near_r, near_c),
    {
        self.lemma_toggled_cells(near_r, near_c);
    }

    /// A generation step keeps the size of the grid and gives a well-formed
    /// grid, in which every cell is what the rule makes of its old state and
    /// its old neighbour count.
    pub proof fn lemma_step_cells(self)
        requires
            self.wf(),
        ensures
            self.step().wf(),
            self.step().rows == self.rows,
            self.step().cols == self.cols,
            forall|r: int, c: int|
                self.in_bounds(r, c) ==> #[trigger] self.step().cell(r, c)
                    == next_state(self.cell(r, c), self.neighbors(r, c)),
    {
        assert forall|r: int, c: int| self.in_bounds(r, c) implies
            #[trigger] self.step().cell(r, c)
            == next_state(self.cell(r, c), self.neighbors(r, c)) by {
            self.lemma_index_in_range(r, c);
            self.lemma_index_coords(r, c);
        }
    }

    /// Two well-formed grids of the same size with the same state in every
    /// cell are the same grid.
    pub proof fn lemma_equal_by_cells(self, other: Board)
        requires
            self.wf(),
            other.wf(),
            self.rows == other.rows,
            self.cols == other.cols,
            forall|r: int, c: int|
                self.in_bounds(r, c) ==> #[trigger] self.cell(r, c) == other.cell(r, c),
        ensures
            self == other,
    {
        assert forall|i: int| 0 <= i < self.cells.len() implies self.cells[i] == other.cells[i] by {
            self.lemma_coords_in_bounds(i);
            let r = i / (self.cols as int);
            let c = i % (self.cols as int);
            assert(self.cell(r, c) == other.cell(r, c));
        }
        assert(self.cells =~= other.cells);
    }

    /// A dead cell with exactly three live neighbours is alive in the next
    /// generation.
    pub proof fn lemma_birth(self, r: int, c: int)
        requires
            self.wf(),
            self.in_bounds(r, c),
            self.cell(r, c) == 0,
            self.neighbors(r, c) == 3,
        ensures
            self.step().cell(r, c) == 1,
    {
        self.lemma_step_cells();
    }

    /// A live cell with two or three live neighbours stays alive.
    pub proof fn lemma_survival(self, r: int, c: int)
        requires
            self.wf(),
            self.in_bounds(r, c),
            self.cell(r, c) == 1,
            self.neighbors(r, c) == 2 || self.neighbors(r, c) == 3,
        ensures
            self.step().cell(r, c) == 1,
    {
        self.lemma_step_cells();
    }

    /// In every other case the cell is dead in the next generation: a live
    /// cell with fewer than two or more than three live neighbours dies, and
    /// a dead cell without exactly three live neighbours stays dead.
    pub proof fn lemma_death(self, r: int, c: int)
        requires
            self.wf(),
            self.in_bounds(r, c),
            self.neighbors(r, c) != 3,
            self.cell(r, c) == 0 || self.neighbors(r, c) != 2,
        ensures
            self.step().cell(r, c) == 0,
    {
        self.lemma_step_cells();
    }

    /// A grid without live cells has none in the next generation either.
    pub proof fn lemma_blank_stays_blank(rows: nat, cols: nat)
        requires
            rows > 0,
            cols > 0,
        ensures
            Board::uniform(rows, cols, 0).wf(),
            Board::uniform(rows, cols, 0).step() == Board::uniform(rows, cols, 0),
    {
        let blank = Board::uniform(rows, cols, 0);
        blank.lemma_step_cells();
        assert forall|r: int, c: int| blank.in_bounds(r, c) implies
            #[trigger] blank.step().cell(r, c) == blank.cell(r, c) by {
            blank.lemma_all_dead_around(r, c);
            blank.lemma_index_in_range(r, c);
        }
        blank.step().lemma_equal_by_cells(blank);
    }

    /// Where no cell of the grid is alive, no neighbour count is above zero.
    proof fn lemma_all_dead_around(self, r: int, c: int)
        requires
            self.wf(),
            forall|i: int| 0 <= i < self.cells.len() ==> self.cells[i] == 0,
        ensures
            self.neighbors(r, c) == 0,
    {
        assert forall|r2: int, c2: int| #[trigger] self.alive(r2, c2) == 0 by {
            if self.in_bounds(r2, c2) {
                self.lemma_index_in_range(r2, c2);
            }
        }
    }

    /// A single live cell in an otherwise dead grid dies, and nothing is
    /// born: the next generation has no live cell.
    pub proof fn lemma_lonely_cell_dies(self, r: int, c: int)
        requires
            self.wf(),
            self.in_bounds(r, c),
            forall|r2: int, c2: int|
                self.in_bounds(r2, c2) ==> (#[trigger] self.cell(r2, c2) == 1
                    <==> r2 == r && c2 == c),
        ensures
            self.neighbors(r, c) == 0,
            self.step().cell(r, c) == 0,
            self.step() == Board::uniform(self.rows, self.cols, 0),
    {
        let blank = Board::uniform(self.rows, self.cols, 0);
        self.lemma_step_cells();
        assert forall|r2: int, c2: int| self.in_bounds(r2, c2) implies
            #[trigger] self.step().cell(r2, c2) == blank.cell(r2, c2) by {
            self.lemma_around_binary(r2, c2);
            self.lemma_alive_binary(r2, c2);
            blank.lemma_index_in_range(r2, c2);
            assert(self.neighbors(r2, c2) <= 1);
            assert(self.cell(r2, c2) == 1 ==> self.neighbors(r2, c2) == 0);
        }
        self.lemma_around_binary(r, c);
        self.step().lemma_equal_by_cells(blank);
    }

    /// A two-by-two block of live cells in an otherwise dead grid is a still
    /// life: the next generation is the same grid. `(r, c)` is the upper left
    /// cell of the block.
    pub proof fn lemma_block_is_still(self, r: int, c: int)
        requires
            self.wf(),
            self.in_bounds(r, c),
            self.in_bounds(r + 1, c + 1),
            forall|r2: int, c2: int|
                self.in_bounds(r2, c2) ==> (#[trigger] self.cell(r2, c2) == 1
                    <==> r <= r2 <= r + 1 && c <= c2 <= c + 1),
        ensures
            self.step() == self,
    {
        self.lemma_step_cells();
        assert forall|r2: int, c2: int| self.in_bounds(r2, c2) implies
            #[trigger] self.step().cell(r2, c2) == self.cell(r2, c2) by {
            self.lemma_around_binary(r2, c2);
            self.lemma_alive_binary(r2, c2);
        }
        self.step().lemma_equal_by_cells(self);
    }
}

} // verus!
