use vstd::prelude::*;

use crate::world::{cell_in_wall, is_wall_cell};

verus! {

/// Upper bound on the number of grid lines a single sweep steps across.
pub const SWEEP_STEPS: usize = 256;

/// Whether the cell `(column, row)` holds a wall.
pub open spec fn blocks(cell: (i64, i64)) -> bool {
    is_wall_cell(cell.0 as int, cell.1 as int)
}

/// `steps` is where a sweep over the sampled `cells` stops: every cell before
/// it is open, and it is the first wall among the samples, or the step budget
/// (or the samples) ran out.
pub open spec fn stops_at(cells: Seq<(i64, i64)>, steps: int) -> bool {
    let limit = if cells.len() < SWEEP_STEPS { cells.len() as int } else { SWEEP_STEPS as int };
    &&& 0 <= steps <= limit
    &&& forall|j: int| 0 <= j < steps ==> !blocks(#[trigger] cells[j])
    &&& steps < limit ==> blocks(cells[steps])
}

/// The number of steps a grid-line sweep takes before it stops, where
/// `cells[k]` is the cell sampled after `k` steps: the index of the first wall
/// cell, or the step budget when no sample within it is a wall.
pub fn sweep_stop(cells: &Vec<(i64, i64)>) -> (r: usize)
    ensures
        stops_at(cells@, r as int),
        r <= SWEEP_STEPS,
{
    let mut k: usize = 0;
    while k < SWEEP_STEPS && k < cells.len()
        invariant
            k <= SWEEP_STEPS,
            k <= cells.len(),
            forall|j: int| 0 <= j < k ==> !blocks(#[trigger] cells@[j]),
        decreases SWEEP_STEPS - k,
    {
        let cell = cells[k];
        if cell_in_wall(cell.0, cell.1) {
            return k;
        }
        k = k + 1;
    }
    k
}

/// Where a sweep stops is determined by its samples: it is the only step
/// count that meets `stops_at`.
pub proof fn lemma_stop_unique(cells: Seq<(i64, i64)>, a: int, b: int)
    requires
        stops_at(cells, a),
        stops_at(cells, b),
    ensures
        a == b,
{
    if a < b {
        assert(!blocks(cells[a]));
    } else if b < a {
        assert(!blocks(cells[b]));
    }
}

/// A sweep stops no later than its first sample that lies in a wall within the
/// step budget; with the map enclosed, a ray that reaches the map's border
/// within the budget stops there at the latest.
pub proof fn lemma_stop_no_later_than_wall(cells: Seq<(i64, i64)>, steps: int, k: int)
    requires
        stops_at(cells, steps),
        0 <= k < cells.len(),
        k < SWEEP_STEPS,
        blocks(cells[k]),
    ensures
        steps <= k,
{
    if k < steps {
        assert(!blocks(cells[k]));
    }
}

} // verus!
