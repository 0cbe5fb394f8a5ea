//! The grid: a fixed-size rectangle of cells whose edges wrap around.

use crate::cell::CellState;
use crate::model::{
    cell_at, height_of, is_grid, lemma_cell_at_index, lemma_live_neighbours_wrap, lemma_with_cell,
    live_neighbours, uniform, width_of, with_cell, Rows,
};
use crate::random::{can_be_drawn, is_fill_of, lemma_certain_fill, random_cell, FILL_SCALE};
use crate::torus::{index_after, index_before, lemma_wrap_of_index, wrap, wrap_index};
use vstd::prelude::*;

verus! {

/// Why a grid could not be made.
#[derive(Clone, Copy, Debug, PartialEq, Eq, Structural)]
pub enum ConfigError {
    /// The width or the height was zero.
    ZeroSized,
}

/// A rectangle of cells on a torus. Its size is fixed when it is made.
#[derive(Debug)]
pub struct Grid {
    width: usize,
    height: usize,
    cells: Vec<Vec<CellState>>,
}

/// The rows that a vector of row vectors holds.
spec fn rows_of(cells: Seq<Vec<CellState>>) -> Rows {
    Seq::new(cells.len(), |r: int| cells[r]@)
}

impl View for Grid {
    type V = Rows;

    /// The rows of the grid, from the top one down.
    closed spec fn view(&self) -> Rows {
        rows_of(self.cells@)
    }
}

/// A row of `width` cells that all hold `state`.
fn uniform_row(width: usize, state: CellState) -> (row: Vec<CellState>)
    ensures
        row@ == Seq::new(width as nat, |x: int| state),
{
    let mut row: Vec<CellState> = Vec::new();
    let mut x: usize = 0;
    while x < width
        invariant
            x <= width,
            row@ == Seq::new(x as nat, |i: int| state),
        decreases width - x,
    {
        row.push(state);
        x += 1;
    }
    row
}

/// `height` rows of `width` cells that all hold `state`.
fn uniform_cells(width: usize, height: usize, state: CellState) -> (cells: Vec<Vec<CellState>>)
    ensures
        rows_of(cells@) == uniform(width as int, height as int, state),
{
    let mut cells: Vec<Vec<CellState>> = Vec::new();
    let mut y: usize = 0;
    while y < height
        invariant
            y <= height,
            cells@.len() == y,
            rows_of(cells@) == uniform(width as int, y as int, state),
        decreases height - y,
    {
        let ghost before = rows_of(cells@);
        let row = uniform_row(width, state);
        cells.push(row);
        y += 1;
        assert forall|r: int| 0 <= r < y implies #[trigger] rows_of(cells@)[r] == uniform(
            width as int,
            y as int,
            state,
        )[r] by {
            if r < y - 1 {
                assert(rows_of(cells@)[r] == before[r]);
            }
        }
    }
    cells
}

/// A row with the cells of `row`.
fn copied_row(row: &Vec<CellState>) -> (copy: Vec<CellState>)
    ensures
        copy@ == row@,
{
    let mut copy: Vec<CellState> = Vec::new();
    let mut x: usize = 0;
    while x < row.len()
        invariant
            x <= row.len(),
            copy@ == row@.take(x as int),
        decreases row.len() - x,
    {
        copy.push(row[x]);
        x += 1;
    }
    copy
}

impl Clone for Grid {
    /// A grid of its own with the same cells.
    fn clone(&self) -> (copy: Grid)
        ensures
            copy@ == self@,
            copy.spec_width() == self.spec_width(),
            copy.spec_height() == self.spec_height(),
    {
        let mut cells: Vec<Vec<CellState>> = Vec::new();
        let mut y: usize = 0;
        while y < self.cells.len()
            invariant
                y <= self.cells.len(),
                cells@.len() == y,
                forall|r: int| 0 <= r < y ==> (#[trigger] cells@[r])@ == self.cells@[r]@,
            decreases self.cells.len() - y,
        {
            let row = copied_row(&self.cells[y]);
            cells.push(row);
            y += 1;
        }
        Grid { width: self.width, height: self.height, cells }
    }
}

/// A row of `width` cells, each drawn on its own.
fn random_row(width: usize, alive_per_million: u32) -> (row: Vec<CellState>)
    ensures
        row@.len() == width,
        forall|x: int| 0 <= x < width ==> can_be_drawn(#[trigger] row@[x], alive_per_million),
{
    let mut row: Vec<CellState> = Vec::new();
    let mut x: usize = 0;
    while x < width
        invariant
            x <= width,
            row@.len() == x,
            forall|i: int| 0 <= i < x ==> can_be_drawn(#[trigger] row@[i], alive_per_million),
        decreases width - x,
    {
        let state = random_cell(alive_per_million);
        row.push(state);
        x += 1;
    }
    row
}

/// `height` rows of `width` cells, each cell drawn on its own.
fn random_cells(width: usize, height: usize, alive_per_million: u32) -> (cells: Vec<
    Vec<CellState>,
>)
    ensures
        cells@.len() == height,
        forall|y: int| 0 <= y < height ==> (#[trigger] cells@[y])@.len() == width,
        forall|x: int, y: int|
            0 <= y < height && 0 <= x < width ==> can_be_drawn(
                #[trigger] cells@[y]@[x],
                alive_per_million,
            ),
{
    let mut cells: Vec<Vec<CellState>> = Vec::new();
    let mut y: usize = 0;
    while y < height
        invariant
            y <= height,
            cells@.len() == y,
            forall|r: int| 0 <= r < y ==> (#[trigger] cells@[r])@.len() == width,
            forall|x: int, r: int|
                0 <= r < y && 0 <= x < width ==> can_be_drawn(
                    #[trigger] cells@[r]@[x],
                    alive_per_million,
                ),
        decreases height - y,
    {
        let row = random_row(width, alive_per_million);
        cells.push(row);
        y += 1;
    }
    cells
}

impl Grid {
    /// The number of columns.
    pub closed spec fn spec_width(&self) -> usize {
        self.width
    }

    /// The number of rows.
    pub closed spec fn spec_height(&self) -> usize {
        self.height
    }

    /// What holds of every grid that this library hands out: its rows form a
    /// rectangle with at least one cell, of the width and height it reports.
    pub open spec fn wf(&self) -> bool {
        &&& is_grid(self@)
        &&& self.spec_width() == width_of(self@)
        &&& self.spec_height() == height_of(self@)
    }

    /// A grid of the given size with every cell dead.
    pub fn new(width: usize, height: usize) -> (grid: Grid)
        requires
            width > 0,
            height > 0,
        ensures
            grid.wf(),
            grid@ == uniform(width as int, height as int, CellState::Dead),
            forall|x: int, y: int| #[trigger] cell_at(grid@, x, y) == CellState::Dead,
    {
        Grid { width, height, cells: uniform_cells(width, height, CellState::Dead) }
    }

    /// A grid of the given size with every cell dead, or the reason why there
    /// is no such grid: a grid has at least one row and one column.
    pub fn try_new(width: usize, height: usize) -> (made: Result<Grid, ConfigError>)
        ensures
            width == 0 || height == 0 <==> made == Err::<Grid, ConfigError>(ConfigError::ZeroSized),
            width > 0 && height > 0 <==> made is Ok,
            made matches Ok(grid) ==> grid.wf() && grid@ == uniform(
                width as int,
                height as int,
                CellState::Dead,
            ),
    {
        if width == 0 || height == 0 {
            Err(ConfigError::ZeroSized)
        } else {
            Ok(Grid::new(width, height))
        }
    }

    /// The number of columns.
    #[verifier::when_used_as_spec(spec_width)]
    pub fn width(&self) -> (width: usize)
        requires
            self.wf(),
        ensures
            width == self.spec_width(),
            width == width_of(self@),
            width > 0,
    {
        self.width
    }

    /// The number of rows.
    #[verifier::when_used_as_spec(spec_height)]
    pub fn height(&self) -> (height: usize)
        requires
            self.wf(),
        ensures
            height == self.spec_height(),
            height == height_of(self@),
            height > 0,
    {
        self.height
    }

    /// The state of the cell that `(x, y)` denotes. Any pair of integers
    /// denotes a cell: both coordinates wrap around the edges.
    pub fn get(&self, x: i64, y: i64) -> (state: CellState)
        requires
            self.wf(),
        ensures
            state == cell_at(self@, x as int, y as int),
    {
        let row: usize = wrap_index(y, self.height);
        let column: usize = wrap_index(x, self.width);
        self.cells[row][column]
    }

    /// Writes `state` into the cell that `(x, y)` denotes and leaves every
    /// other cell as it was. The coordinates wrap around the edges, as they
    /// do for `get`, so no pair of integers is out of range.
    pub fn set(&mut self, x: i64, y: i64, state: CellState)
        requires
            old(self).wf(),
        ensures
            final(self).wf(),
            final(self).spec_width() == old(self).spec_width(),
            final(self).spec_height() == old(self).spec_height(),
            final(self)@ == with_cell(old(self)@, x as int, y as int, state),
    {
        let row: usize = wrap_index(y, self.height);
        let column: usize = wrap_index(x, self.width);
        proof {
            lemma_wrap_of_index(column as int, self.width as int);
            lemma_wrap_of_index(row as int, self.height as int);
        }
        self.put(column, row, state);
    }

    /// Writes `state` into the cell in column `column` of row `row`.
    pub(crate) fn put(&mut self, column: usize, row: usize, state: CellState)
        requires
            old(self).wf(),
            column < old(self).spec_width(),
            row < old(self).spec_height(),
        ensures
            final(self).wf(),
            final(self).spec_width() == old(self).spec_width(),
            final(self).spec_height() == old(self).spec_height(),
            final(self)@ == with_cell(old(self)@, column as int, row as int, state),
    {
        proof {
            lemma_wrap_of_index(column as int, self.width as int);
            lemma_wrap_of_index(row as int, self.height as int);
            lemma_with_cell(self@, column as int, row as int, state);
        }
        self.cells[row][column] = state;
        assert(self@ =~~= with_cell(old(self)@, column as int, row as int, state));
    }

    /// Makes every cell dead.
    pub fn clear(&mut self)
        requires
            old(self).wf(),
        ensures
            final(self).wf(),
            final(self).spec_width() == old(self).spec_width(),
            final(self).spec_height() == old(self).spec_height(),
            final(self)@ == uniform(
                old(self).spec_width() as int,
                old(self).spec_height() as int,
                CellState::Dead,
            ),
            forall|x: int, y: int| #[trigger] cell_at(final(self)@, x, y) == CellState::Dead,
    {
        self.cells = uniform_cells(self.width, self.height, CellState::Dead);
    }

    /// Gives every cell a state drawn on its own: alive in
    /// `alive_per_million` of a million draws (in all of them where that is
    /// a million or more), dead in the others. What the cells were before
    /// plays no part.
    pub fn random_fill(&mut self, alive_per_million: u32)
        requires
            old(self).wf(),
        ensures
            final(self).wf(),
            final(self).spec_width() == old(self).spec_width(),
            final(self).spec_height() == old(self).spec_height(),
            is_fill_of(
                final(self)@,
                old(self).spec_width() as int,
                old(self).spec_height() as int,
                alive_per_million,
            ),
            alive_per_million >= FILL_SCALE ==> final(self)@ == uniform(
                old(self).spec_width() as int,
                old(self).spec_height() as int,
                CellState::Alive,
            ),
            alive_per_million == 0 ==> final(self)@ == uniform(
                old(self).spec_width() as int,
                old(self).spec_height() as int,
                CellState::Dead,
            ),
    {
        self.cells = random_cells(self.width, self.height, alive_per_million);
        proof {
            lemma_certain_fill(
                self@,
                self.width as int,
                self.height as int,
                alive_per_million,
            );
        }
    }

    /// The state of the cell in column `column` of row `row`.
    pub(crate) fn state_at(&self, column: usize, row: usize) -> (state: CellState)
        requires
            self.wf(),
            column < self.spec_width(),
            row < self.spec_height(),
        ensures
            state == self@[row as int][column as int],
            state == cell_at(self@, column as int, row as int),
    {
        proof {
            lemma_cell_at_index(self@, column as int, row as int);
        }
        self.cells[row][column]
    }

    /// 1 where the cell in row `row` and column `column` is alive, else 0.
    fn alive_at(&self, column: usize, row: usize) -> (n: usize)
        requires
            self.wf(),
            column < self.spec_width(),
            row < self.spec_height(),
        ensures
            n == if self@[row as int][column as int] == CellState::Alive {
                1int
            } else {
                0int
            },
    {
        if self.cells[row][column].is_alive() {
            1
        } else {
            0
        }
    }

    /// How many of the eight cells around the cell that `(x, y)` denotes are
    /// alive. The neighbourhood wraps around the edges, each axis by its own
    /// size.
    pub fn count_live_neighbours(&self, x: i64, y: i64) -> (count: usize)
        requires
            self.wf(),
        ensures
            count == live_neighbours(self@, x as int, y as int),
            count <= 8,
    {
        let row: usize = wrap_index(y, self.height);
        let column: usize = wrap_index(x, self.width);
        proof {
            lemma_live_neighbours_wrap(self@, x as int, y as int);
        }
        self.neighbours_at(column, row)
    }

    /// How many of the eight cells around the cell in column `column` of row
    /// `row` are alive.
    pub(crate) fn neighbours_at(&self, column: usize, row: usize) -> (count: usize)
        requires
            self.wf(),
            column < self.spec_width(),
            row < self.spec_height(),
        ensures
            count == live_neighbours(self@, column as int, row as int),
            count <= 8,
    {
        let up: usize = index_before(row, self.height);
        let down: usize = index_after(row, self.height);
        let left: usize = index_before(column, self.width);
        let right: usize = index_after(column, self.width);
        proof {
            lemma_wrap_of_index(column as int, self.width as int);
            lemma_wrap_of_index(row as int, self.height as int);
        }
        self.alive_at(left, up) + self.alive_at(column, up) + self.alive_at(right, up)
            + self.alive_at(left, row) + self.alive_at(right, row) + self.alive_at(left, down)
            + self.alive_at(column, down) + self.alive_at(right, down)
    }

    /// What a rule that is handed in is asked for the cell in column `x` of
    /// row `y`: the cell's state, the number of its live neighbours, its
    /// column, its row and the grid.
    pub open spec fn asked(&self, x: usize, y: usize) -> (CellState, usize, usize, usize, &Grid) {
        (
            cell_at(self@, x as int, y as int),
            live_neighbours(self@, x as int, y as int) as usize,
            x,
            y,
            self,
        )
    }

    /// The rule that is handed in can be asked for every cell of the grid.
    pub open spec fn may_ask<F>(&self, rule: F) -> bool where
        F: Fn(CellState, usize, usize, usize, &Grid) -> CellState,
     {
        forall|x: usize, y: usize|
            x < self.spec_width() && y < self.spec_height() ==> call_requires(
                rule,
                #[trigger] self.asked(x, y),
            )
    }

    /// Every cell of `next` holds an answer of the rule that is handed in to
    /// what it is asked for that cell of this grid.
    pub open spec fn answered_by<F>(&self, rule: F, next: Grid) -> bool where
        F: Fn(CellState, usize, usize, usize, &Grid) -> CellState,
     {
        forall|x: usize, y: usize|
            x < self.spec_width() && y < self.spec_height() ==> call_ensures(
                rule,
                self.asked(x, y),
                #[trigger] next@[y as int][x as int],
            )
    }

    /// The next generation under a rule that is handed in: `rule` is asked
    /// once for every cell, with the cell's state, the number of its live
    /// neighbours, its column, its row and this grid, and answers with the
    /// state that the cell has in the grid that is returned. Every answer is
    /// taken from this grid as it stands: no cell sees the new state of
    /// another.
    pub fn step_with<F>(&self, rule: F) -> (next: Grid) where
        F: Fn(CellState, usize, usize, usize, &Grid) -> CellState,

        requires
            self.wf(),
            self.may_ask(rule),
        ensures
            next.wf(),
            next.spec_width() == self.spec_width(),
            next.spec_height() == self.spec_height(),
            self.answered_by(rule, next),
    {
        let mut cells: Vec<Vec<CellState>> = Vec::new();
        let mut y: usize = 0;
        while y < self.height
            invariant
                self.wf(),
                y <= self.height,
                cells@.len() == y,
                forall|r: int| 0 <= r < y ==> (#[trigger] cells@[r])@.len() == self.width,
                self.may_ask(rule),
                forall|c: usize, r: usize|
                    c < self.width && r < y ==> call_ensures(
                        rule,
                        self.asked(c, r),
                        #[trigger] cells@[r as int]@[c as int],
                    ),
            decreases self.height - y,
        {
            let mut row: Vec<CellState> = Vec::new();
            let mut x: usize = 0;
            while x < self.width
                invariant
                    self.wf(),
                    y < self.height,
                    x <= self.width,
                    row@.len() == x,
                    self.may_ask(rule),
                    forall|c: usize|
                        c < x ==> call_ensures(rule, self.asked(c, y), #[trigger] row@[c as int]),
                decreases self.width - x,
            {
                let state = self.state_at(x, y);
                let count = self.neighbours_at(x, y);
                assert(call_requires(rule, self.asked(x, y)));
                let next = rule(state, count, x, y, self);
                row.push(next);
                x += 1;
            }
            cells.push(row);
            y += 1;
        }
        Grid { width: self.width, height: self.height, cells }
    }
}

} // verus!
