//! The state of a single cell.

use vstd::prelude::*;

verus! {

/// One cell of the grid is either dead or alive.
#[derive(Clone, Copy, Debug, PartialEq, Eq, Structural)]
pub enum CellState {
    /// Nothing lives in the cell.
    Dead,
    /// The cell is alive.
    Alive,
}

impl CellState {
    /// `true` exactly for `Alive`.
    pub fn is_alive(self) -> (alive: bool)
        ensures
            alive == (self == CellState::Alive),
    {
        self == CellState::Alive
    }
}

} // verus!
