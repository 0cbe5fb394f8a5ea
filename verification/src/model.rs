//! The mathematical model of a grid.
//!
//! A grid is a sequence of rows, from the top one down, each a sequence of
//! cells from the left one on. All rows have one length, and there is at
//! least one row and one column. Coordinates are integers: `x` counts columns,
//! `y` counts rows, and both wrap around the edges.

use crate::cell::CellState;
use crate::torus::{lemma_wrap_of_index, lemma_wrap_shift, wrap};
use vstd::prelude::*;

verus! {

/// The rows of a grid.
pub type Rows = Seq<Seq<CellState>>;

/// The number of rows.
pub open spec fn height_of(rows: Rows) -> int {
    rows.len() as int
}

/// The number of columns.
pub open spec fn width_of(rows: Rows) -> int {
    rows[0].len() as int
}

/// The rows form a rectangle with at least one cell.
pub open spec fn is_grid(rows: Rows) -> bool {
    &&& rows.len() > 0
    &&& rows[0].len() > 0
    &&& forall|r: int| 0 <= r < rows.len() ==> (#[trigger] rows[r]).len() == rows[0].len()
}

/// The cell that the coordinates `(x, y)` denote.
pub open spec fn cell_at(rows: Rows, x: int, y: int) -> CellState
    recommends
        is_grid(rows),
{
    rows[wrap(y, height_of(rows))][wrap(x, width_of(rows))]
}

/// The grid of the given size whose cells all hold `state`.
pub open spec fn uniform(width: int, height: int, state: CellState) -> Rows {
    Seq::new(height as nat, |y: int| Seq::new(width as nat, |x: int| state))
}

/// The grid that differs from `rows` in the one cell that `(x, y)` denotes,
/// which holds `state`.
pub open spec fn with_cell(rows: Rows, x: int, y: int, state: CellState) -> Rows
    recommends
        is_grid(rows),
{
    let row = wrap(y, height_of(rows));
    let column = wrap(x, width_of(rows));
    rows.update(row, rows[row].update(column, state))
}

/// The grid of the given size in which the one cell that `(x, y)` denotes
/// is alive and every other cell is dead.
pub open spec fn single(width: int, height: int, x: int, y: int) -> Rows {
    with_cell(uniform(width, height, CellState::Dead), x, y, CellState::Alive)
}

/// Every coordinate denotes a cell in this state.
pub open spec fn all_cells(rows: Rows, state: CellState) -> bool {
    forall|x: int, y: int| #[trigger] cell_at(rows, x, y) == state
}

/// 1 where the cell that `(x, y)` denotes is alive, 0 where it is dead.
pub open spec fn alive(rows: Rows, x: int, y: int) -> nat
    recommends
        is_grid(rows),
{
    if cell_at(rows, x, y) == CellState::Alive {
        1
    } else {
        0
    }
}

/// How many of the eight cells around `(x, y)` are alive. On a grid with
/// fewer than three rows or columns one cell stands at several of the eight
/// places, and counts once for each.
pub open spec fn live_neighbours(rows: Rows, x: int, y: int) -> nat
    recommends
        is_grid(rows),
{
    alive(rows, x - 1, y - 1) + alive(rows, x, y - 1) + alive(rows, x + 1, y - 1)
        + alive(rows, x - 1, y) + alive(rows, x + 1, y)
        + alive(rows, x - 1, y + 1) + alive(rows, x, y + 1) + alive(rows, x + 1, y + 1)
}

/// Writing a cell keeps the size, puts the state where the coordinates
/// point, and leaves every other cell as it was.
pub proof fn lemma_with_cell(rows: Rows, x: int, y: int, state: CellState)
    requires
        is_grid(rows),
    ensures
        is_grid(with_cell(rows, x, y, state)),
        width_of(with_cell(rows, x, y, state)) == width_of(rows),
        height_of(with_cell(rows, x, y, state)) == height_of(rows),
        cell_at(with_cell(rows, x, y, state), x, y) == state,
        forall|u: int, v: int|
            wrap(u, width_of(rows)) != wrap(x, width_of(rows)) || wrap(v, height_of(rows)) != wrap(
                y,
                height_of(rows),
            ) ==> #[trigger] cell_at(with_cell(rows, x, y, state), u, v) == cell_at(rows, u, v),
{
}

/// A grid in which every coordinate denotes a cell in one state is the
/// uniform grid of its size in that state.
pub proof fn lemma_all_cells_is_uniform(rows: Rows, state: CellState)
    requires
        is_grid(rows),
    ensures
        all_cells(rows, state) <==> rows == uniform(width_of(rows), height_of(rows), state),
{
    let w = width_of(rows);
    let h = height_of(rows);
    if all_cells(rows, state) {
        assert forall|y: int, x: int| 0 <= y < h && 0 <= x < w implies rows[y][x] == state by {
            lemma_cell_at_index(rows, x, y);
        }
        assert(rows =~~= uniform(w, h, state));
    }
}

/// Moving by `(dx, dy)` from coordinates or from the indices they denote
/// ends on the same cell.
pub proof fn lemma_cell_at_shift(rows: Rows, x: int, y: int, dx: int, dy: int)
    requires
        is_grid(rows),
    ensures
        cell_at(rows, wrap(x, width_of(rows)) + dx, wrap(y, height_of(rows)) + dy) == cell_at(
            rows,
            x + dx,
            y + dy,
        ),
{
    lemma_wrap_shift(x, dx, width_of(rows));
    lemma_wrap_shift(y, dy, height_of(rows));
}

/// The live neighbours of coordinates are those of the indices they denote.
pub proof fn lemma_live_neighbours_wrap(rows: Rows, x: int, y: int)
    requires
        is_grid(rows),
    ensures
        live_neighbours(rows, x, y) == live_neighbours(
            rows,
            wrap(x, width_of(rows)),
            wrap(y, height_of(rows)),
        ),
        live_neighbours(rows, x, y) <= 8,
{
    lemma_cell_at_shift(rows, x, y, -1, -1);
    lemma_cell_at_shift(rows, x, y, 0, -1);
    lemma_cell_at_shift(rows, x, y, 1, -1);
    lemma_cell_at_shift(rows, x, y, -1, 0);
    lemma_cell_at_shift(rows, x, y, 1, 0);
    lemma_cell_at_shift(rows, x, y, -1, 1);
    lemma_cell_at_shift(rows, x, y, 0, 1);
    lemma_cell_at_shift(rows, x, y, 1, 1);
}

/// For coordinates inside the grid, `cell_at` is plain indexing.
pub proof fn lemma_cell_at_index(rows: Rows, x: int, y: int)
    requires
        is_grid(rows),
        0 <= x < width_of(rows),
        0 <= y < height_of(rows),
    ensures
        cell_at(rows, x, y) == rows[y][x],
{
    lemma_wrap_of_index(x, width_of(rows));
    lemma_wrap_of_index(y, height_of(rows));
}

} // verus!
