//! Manual edits: what the keys and the pointer of one frame do to a grid.

use crate::cell::CellState;
use crate::grid::Grid;
use crate::model::{height_of, uniform, width_of, with_cell, Rows};
use crate::random::is_fill_of;
use vstd::prelude::*;

verus! {

/// The share of alive cells, in a million, of the random fill that the
/// randomise key asks for.
pub const DEFAULT_FILL_PER_MILLION: u32 = 400_000;

/// What the pointer does to the cell under it.
#[derive(Clone, Copy, Debug, PartialEq, Eq, Structural)]
pub enum DrawMode {
    /// The pointer makes cells alive.
    Draw,
    /// The pointer makes cells dead.
    Erase,
}

impl DrawMode {
    /// The other mode.
    pub open spec fn spec_toggled(self) -> DrawMode {
        match self {
            DrawMode::Draw => DrawMode::Erase,
            DrawMode::Erase => DrawMode::Draw,
        }
    }

    /// The state that the pointer writes in this mode.
    pub open spec fn spec_brush(self) -> CellState {
        match self {
            DrawMode::Draw => CellState::Alive,
            DrawMode::Erase => CellState::Dead,
        }
    }

    /// The mode in which editing starts.
    pub fn initial() -> (mode: DrawMode)
        ensures
            mode == DrawMode::Draw,
    {
        DrawMode::Draw
    }

    /// The other mode.
    pub fn toggled(self) -> (other: DrawMode)
        ensures
            other == self.spec_toggled(),
    {
        match self {
            DrawMode::Draw => DrawMode::Erase,
            DrawMode::Erase => DrawMode::Draw,
        }
    }

    /// The state that the pointer writes in this mode.
    pub fn brush(self) -> (state: CellState)
        ensures
            state == self.spec_brush(),
    {
        match self {
            DrawMode::Draw => CellState::Alive,
            DrawMode::Erase => CellState::Dead,
        }
    }
}

/// The signals of one frame.
#[derive(Clone, Copy, Debug)]
pub struct InputEvents {
    /// The key that fills the grid at random was pressed.
    pub randomize: bool,
    /// The key that switches between drawing and erasing was pressed.
    pub toggle_draw_mode: bool,
    /// The column and the row under the pointer while its button is down.
    pub pointer: Option<(usize, usize)>,
    /// The key that clears the grid was pressed.
    pub clear: bool,
}

/// The grid after the pointer has written `brush` and the clear key was
/// heard: where `clear` holds every cell is dead; else the cell under the
/// pointer holds `brush`, if the pointer is over a cell of the grid, and
/// every other cell is as in `rows`.
pub open spec fn edited(
    rows: Rows,
    brush: CellState,
    pointer: Option<(usize, usize)>,
    clear: bool,
) -> Rows {
    if clear {
        uniform(width_of(rows), height_of(rows), CellState::Dead)
    } else {
        match pointer {
            Some((column, row)) => if column < width_of(rows) && row < height_of(rows) {
                with_cell(rows, column as int, row as int, brush)
            } else {
                rows
            },
            None => rows,
        }
    }
}

impl Grid {
    /// Writes `brush` into the cell under the pointer, if there is one, and
    /// then clears the grid if `clear` holds. A pointer outside the grid
    /// writes nothing.
    pub fn edit(&mut self, brush: CellState, pointer: Option<(usize, usize)>, clear: bool)
        requires
            old(self).wf(),
        ensures
            final(self).wf(),
            final(self).spec_width() == old(self).spec_width(),
            final(self).spec_height() == old(self).spec_height(),
            final(self)@ == edited(old(self)@, brush, pointer, clear),
    {
        match pointer {
            Some((column, row)) => {
                if column < self.width() && row < self.height() {
                    self.put(column, row, brush);
                }
            },
            None => {},
        }
        if clear {
            self.clear();
        }
    }

    /// Applies the signals of one frame, in this order: the randomise key
    /// fills the grid at random, with `DEFAULT_FILL_PER_MILLION` alive cells
    /// in a million; the mode key switches `mode`; the pointer writes the
    /// state of the mode as it is then; the clear key makes every cell dead.
    pub fn handle_input(&mut self, mode: &mut DrawMode, events: &InputEvents)
        requires
            old(self).wf(),
        ensures
            final(self).wf(),
            final(self).spec_width() == old(self).spec_width(),
            final(self).spec_height() == old(self).spec_height(),
            *final(mode) == if events.toggle_draw_mode {
                old(mode).spec_toggled()
            } else {
                *old(mode)
            },
            !events.randomize ==> final(self)@ == edited(
                old(self)@,
                final(mode).spec_brush(),
                events.pointer,
                events.clear,
            ),
            events.randomize ==> exists|filled: Rows|
                is_fill_of(
                    filled,
                    old(self).spec_width() as int,
                    old(self).spec_height() as int,
                    DEFAULT_FILL_PER_MILLION,
                ) && final(self)@ == #[trigger] edited(
                    filled,
                    final(mode).spec_brush(),
                    events.pointer,
                    events.clear,
                ),
    {
        if events.randomize {
            self.random_fill(DEFAULT_FILL_PER_MILLION);
        }
        if events.toggle_draw_mode {
            *mode = mode.toggled();
        }
        self.edit(mode.brush(), events.pointer, events.clear);
    }
}

} // verus!
