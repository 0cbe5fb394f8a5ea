//! What holds of every grid and every step.

use crate::cell::CellState;
use crate::model::{
    all_cells, cell_at, height_of, is_grid, lemma_all_cells_is_uniform, lemma_live_neighbours_wrap,
    live_neighbours, single, uniform, width_of, Rows,
};
use crate::rules::{next_cell, step, RuleSet};
use crate::torus::{
    lemma_wrap_after, lemma_wrap_before, lemma_wrap_move_back, lemma_wrap_of_index, wrap,
};
use vstd::prelude::*;

verus! {

/// Every coordinate denotes an index of its axis: nothing is out of range.
pub proof fn lemma_every_coordinate_is_an_index(v: int, n: int)
    requires
        n > 0,
    ensures
        0 <= wrap(v, n) < n,
{
}

/// A step keeps the size of the grid.
pub proof fn lemma_step_keeps_the_size(rule: RuleSet, rows: Rows)
    requires
        is_grid(rows),
    ensures
        is_grid(step(rule, rows)),
        width_of(step(rule, rows)) == width_of(rows),
        height_of(step(rule, rows)) == height_of(rows),
{
}

/// After a step, the cell that any pair of coordinates denotes holds what
/// the rule makes of that cell and its neighbours before the step.
pub proof fn lemma_step_cell(rule: RuleSet, rows: Rows, x: int, y: int)
    requires
        is_grid(rows),
    ensures
        cell_at(step(rule, rows), x, y) == next_cell(rule, rows, x, y),
{
    let w = width_of(rows);
    let h = height_of(rows);
    lemma_wrap_of_index(wrap(x, w), w);
    lemma_wrap_of_index(wrap(y, h), h);
    lemma_live_neighbours_wrap(rows, x, y);
}

/// In a new grid every coordinate denotes a dead cell, whatever the size.
pub proof fn lemma_new_grid_is_dead(width: int, height: int, x: int, y: int)
    requires
        width > 0,
        height > 0,
    ensures
        cell_at(uniform(width, height, CellState::Dead), x, y) == CellState::Dead,
{
}

/// A cell counts among the neighbours of another as often as the other
/// counts among its own: with `(a, b)` the only live cell, `(x, y)` has as
/// many live neighbours as `(a, b)` has with `(x, y)` the only live cell.
pub proof fn lemma_neighbourhood_is_symmetric(
    width: int,
    height: int,
    a: int,
    b: int,
    x: int,
    y: int,
)
    requires
        width > 0,
        height > 0,
    ensures
        live_neighbours(single(width, height, a, b), x, y) == live_neighbours(
            single(width, height, x, y),
            a,
            b,
        ),
{
    lemma_wrap_move_back(x, a, -1, width);
    lemma_wrap_move_back(x, a, 1, width);
    lemma_wrap_move_back(y, b, -1, height);
    lemma_wrap_move_back(y, b, 1, height);
}

/// On a grid of at least three columns and three rows whose only live cell
/// is the one in the top left corner, the cell in the bottom right corner
/// has exactly one live neighbour: the corners touch across both edges.
pub proof fn lemma_corner_neighbour(width: int, height: int)
    requires
        width >= 3,
        height >= 3,
    ensures
        live_neighbours(single(width, height, 0, 0), width - 1, height - 1) == 1,
{
    lemma_wrap_of_index(width - 2, width);
    lemma_wrap_of_index(height - 2, height);
    lemma_wrap_after(width - 1, width);
    lemma_wrap_after(height - 1, height);
}

/// The Sierpinski step is a pattern, not a transition: it gives the same
/// grid from every grid of one size.
pub proof fn lemma_sierpinski_ignores_the_grid(a: Rows, b: Rows)
    requires
        is_grid(a),
        is_grid(b),
        width_of(a) == width_of(b),
        height_of(a) == height_of(b),
    ensures
        step(RuleSet::SierpinskiTriangle, a) == step(RuleSet::SierpinskiTriangle, b),
{
    assert(step(RuleSet::SierpinskiTriangle, a) =~~= step(RuleSet::SierpinskiTriangle, b));
}

/// Two Sierpinski steps give what one gives.
pub proof fn lemma_sierpinski_is_idempotent(rows: Rows)
    requires
        is_grid(rows),
    ensures
        step(RuleSet::SierpinskiTriangle, step(RuleSet::SierpinskiTriangle, rows)) == step(
            RuleSet::SierpinskiTriangle,
            rows,
        ),
{
    lemma_sierpinski_ignores_the_grid(step(RuleSet::SierpinskiTriangle, rows), rows);
}

/// Under Diffusion a cell with fewer than two live neighbours is dead after
/// the step, whatever it was before: a live cell alone dies.
pub proof fn lemma_diffusion_needs_two_neighbours(rows: Rows, x: int, y: int)
    requires
        is_grid(rows),
    ensures
        cell_at(step(RuleSet::Diffusion, rows), x, y) == CellState::Alive <==> live_neighbours(
            rows,
            x,
            y,
        ) >= 2,
        live_neighbours(rows, x, y) < 2 ==> cell_at(step(RuleSet::Diffusion, rows), x, y)
            == CellState::Dead,
{
    lemma_step_cell(RuleSet::Diffusion, rows, x, y);
}

/// On a grid of at least two columns and two rows, a live cell that is the
/// only one has no live neighbour, and is dead after one step of Diffusion.
pub proof fn lemma_diffusion_lone_cell_dies(width: int, height: int, a: int, b: int)
    requires
        width >= 2,
        height >= 2,
    ensures
        live_neighbours(single(width, height, a, b), a, b) == 0,
        cell_at(step(RuleSet::Diffusion, single(width, height, a, b)), a, b) == CellState::Dead,
{
    let rows = single(width, height, a, b);
    lemma_wrap_after(a, width);
    lemma_wrap_before(a, width);
    lemma_wrap_after(b, height);
    lemma_wrap_before(b, height);
    lemma_diffusion_needs_two_neighbours(rows, a, b);
}

/// On a grid of at least three columns and three rows with a single live
/// cell, one step of Diffusion leaves no cell alive.
pub proof fn lemma_diffusion_single_cell_dies(width: int, height: int, a: int, b: int)
    requires
        width >= 3,
        height >= 3,
    ensures
        step(RuleSet::Diffusion, single(width, height, a, b)) == uniform(
            width,
            height,
            CellState::Dead,
        ),
{
    let rows = single(width, height, a, b);
    assert forall|y: int, x: int| 0 <= y < height && 0 <= x < width implies step(
        RuleSet::Diffusion,
        rows,
    )[y][x] == CellState::Dead by {
        lemma_wrap_after(x, width);
        lemma_wrap_before(x, width);
        lemma_wrap_after(y, height);
        lemma_wrap_before(y, height);
    }
    assert(step(RuleSet::Diffusion, rows) =~~= uniform(width, height, CellState::Dead));
}

/// A rule that decides by the number of live neighbours leaves a dead cell
/// without live neighbours dead.
pub proof fn lemma_no_birth_without_neighbours(rule: RuleSet, x: int, y: int)
    requires
        rule.counts_neighbours(),
    ensures
        rule.spec_next_state(CellState::Dead, 0, x, y) == CellState::Dead,
{
}

/// A rule that decides by the number of live neighbours makes a grid of
/// dead cells from a grid of dead cells.
pub proof fn lemma_dead_grid_steps_to_dead(rule: RuleSet, rows: Rows)
    requires
        rule.counts_neighbours(),
        is_grid(rows),
        all_cells(rows, CellState::Dead),
    ensures
        step(rule, rows) == uniform(width_of(rows), height_of(rows), CellState::Dead),
{
    assert(step(rule, rows) =~~= uniform(width_of(rows), height_of(rows), CellState::Dead));
}

/// Nothing comes from nothing: a rule that decides by the number of live
/// neighbours leaves a grid of dead cells as it is.
pub proof fn lemma_dead_grid_stays_dead(rule: RuleSet, rows: Rows)
    requires
        rule.counts_neighbours(),
        is_grid(rows),
        all_cells(rows, CellState::Dead),
    ensures
        step(rule, rows) == rows,
{
    lemma_dead_grid_steps_to_dead(rule, rows);
    lemma_all_cells_is_uniform(rows, CellState::Dead);
}

/// Every built-in rule is found again under the name it is offered by.
pub proof fn lemma_name_selects_its_rule(rule: RuleSet)
    requires
        !(rule is Custom),
    ensures
        RuleSet::spec_from_name(rule.spec_name()) == Some(rule),
{
    reveal_strlit("Game of Life");
    reveal_strlit("HighLife");
    reveal_strlit("Brian's Brain");
    reveal_strlit("Seeded");
    reveal_strlit("Day & Night");
    reveal_strlit("Morley's Garden");
    reveal_strlit("Diffusion");
    reveal_strlit("Sierpinski Triangle");
    // No two of the names have one length.
    assert("Game of Life"@.len() == 12);
    assert("HighLife"@.len() == 8);
    assert("Brian's Brain"@.len() == 13);
    assert("Seeded"@.len() == 6);
    assert("Day & Night"@.len() == 11);
    assert("Morley's Garden"@.len() == 15);
    assert("Diffusion"@.len() == 9);
    assert("Sierpinski Triangle"@.len() == 19);
}

} // verus!
