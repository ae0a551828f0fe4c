//! The transition rule for a single cell.

use vstd::prelude::*;

verus! {

/// The state a cell takes in the next generation, given its current state
/// (`0` dead, `1` alive) and the number of its live neighbours.
pub open spec fn next_state(cell: u8, neighbors: int) -> u8 {
    if cell == 1 && (neighbors == 2 || neighbors == 3) {
        1
    } else if cell == 0 && neighbors == 3 {
        1
    } else {
        0
    }
}

/// Applies the rule to one cell.
pub fn evolve(cell: u8, neighbors: u8) -> (next: u8)
    ensures
        next == next_state(cell, neighbors as int),
{
    match (cell, neighbors) {
        (1, 2) | (1, 3) => 1,
        (0, 3) => 1,
        _ => 0,
    }
}

} // verus!
