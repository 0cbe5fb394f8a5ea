//! Random fills: where the draws come from, and what a draw decides.

use crate::cell::CellState;
use crate::model::{
    cell_at, height_of, is_grid, lemma_all_cells_is_uniform, uniform, width_of, Rows,
};
use vstd::prelude::*;

verus! {

/// The scale on which the share of alive cells of a random fill is given:
/// so many cells in a million.
pub const FILL_SCALE: u32 = 1_000_000;

/// The state that a draw gives a cell: alive where the draw lies below the
/// number of alive cells in a million that was asked for.
pub open spec fn state_for_draw(draw: u32, alive_per_million: u32) -> CellState {
    if draw < alive_per_million {
        CellState::Alive
    } else {
        CellState::Dead
    }
}

/// Some draw below the scale gives a cell this state.
pub open spec fn can_be_drawn(state: CellState, alive_per_million: u32) -> bool {
    exists|draw: u32|
        draw < FILL_SCALE && state == #[trigger] state_for_draw(draw, alive_per_million)
}

/// The grid is of the given size, and each of its cells holds what some draw
/// below the scale gives it: it can come out of a random fill.
pub open spec fn is_fill_of(rows: Rows, width: int, height: int, alive_per_million: u32) -> bool {
    &&& is_grid(rows)
    &&& width_of(rows) == width
    &&& height_of(rows) == height
    &&& forall|x: int, y: int| can_be_drawn(#[trigger] cell_at(rows, x, y), alive_per_million)
}

/// What a random fill gives is certain at both ends of the scale, whatever
/// is drawn: with a million or more in a million every cell is alive, with
/// none in a million every cell is dead.
pub proof fn lemma_certain_fill(rows: Rows, width: int, height: int, alive_per_million: u32)
    requires
        is_fill_of(rows, width, height, alive_per_million),
    ensures
        alive_per_million >= FILL_SCALE ==> rows == uniform(width, height, CellState::Alive),
        alive_per_million == 0 ==> rows == uniform(width, height, CellState::Dead),
{
    lemma_all_cells_is_uniform(rows, CellState::Alive);
    lemma_all_cells_is_uniform(rows, CellState::Dead);
}

/// Decides the state of one cell from one draw.
pub fn cell_for_draw(draw: u32, alive_per_million: u32) -> (state: CellState)
    ensures
        state == state_for_draw(draw, alive_per_million),
{
    if draw < alive_per_million {
        CellState::Alive
    } else {
        CellState::Dead
    }
}

/// One draw from `macroquad::rand::gen_range` (the function `gen_range` of
/// the crate quad-rand, which macroquad hands on), with 0 as the lower end
/// of the range and `bound` as the upper one. The generator is a
/// process-wide pseudo-random sequence, so nothing is claimed of which
/// number comes: only that it lies below `bound`. The outside function
/// scales a 32-bit number `k` to `bound * k / 2^32` in double precision and
/// cuts off the fraction, which stays below `bound` for every `k`.
#[verifier::external_body]
pub(crate) fn random_below(bound: u32) -> (draw: u32)
    requires
        bound > 0,
    ensures
        draw < bound,
{
    macroquad::rand::gen_range::<u32>(0, bound)
}

/// Draws the state of one cell.
pub fn random_cell(alive_per_million: u32) -> (state: CellState)
    ensures
        can_be_drawn(state, alive_per_million),
{
    let draw: u32 = random_below(FILL_SCALE);
    cell_for_draw(draw, alive_per_million)
}

} // verus!
