use vstd::prelude::*;

use crate::world::{cell_in_wall, is_wall_cell};

verus! {

/// The position a move ends at: the previous one when the candidate's cell
/// holds a wall, the candidate otherwise.
pub open spec fn settled<P>(previous: P, candidate: P, cell: (i64, i64)) -> P {
    if is_wall_cell(cell.0 as int, cell.1 as int) {
        previous
    } else {
        candidate
    }
}

/// Resolves a move against the walls: a move whose candidate position lies in
/// a wall cell is rolled back to `previous`.
pub fn settle<P>(previous: P, candidate: P, cell: (i64, i64)) -> (r: P)
    ensures
        r == settled(previous, candidate, cell),
{
    if cell_in_wall(cell.0, cell.1) {
        previous
    } else {
        candidate
    }
}

/// A move that stays where it was settles there, whatever the cell.
pub proof fn lemma_still_move_settles_in_place<P>(position: P, cell: (i64, i64))
    ensures
        settled(position, position, cell) == position,
{
}

/// A move into a wall cell leaves the position as it was before the move.
pub proof fn lemma_blocked_move_rolls_back<P>(previous: P, candidate: P, cell: (i64, i64))
    requires
        is_wall_cell(cell.0 as int, cell.1 as int),
    ensures
        settled(previous, candidate, cell) == previous,
{
}

/// A move into an open cell is kept.
pub proof fn lemma_open_move_is_kept<P>(previous: P, candidate: P, cell: (i64, i64))
    requires
        !is_wall_cell(cell.0 as int, cell.1 as int),
    ensures
        settled(previous, candidate, cell) == candidate,
{
}

} // verus!
