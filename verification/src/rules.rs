//! The transition rules and the step from one generation to the next.

use crate::cell::CellState;
use crate::grid::Grid;
use crate::model::{
    cell_at, height_of, is_grid, lemma_cell_at_index, live_neighbours, width_of, Rows,
};
use crate::torus::{lemma_wrap_of_index, wrap};
use vstd::prelude::*;

verus! {

/// The rules by which a generation follows from the one before. A rule
/// holds no state of its own and can be exchanged between any two steps.
#[derive(Debug)]
pub enum RuleSet {
    /// Conway's Game of Life.
    GameOfLife,
    /// Life with one more birth, at six neighbours.
    HighLife,
    /// Brian's Brain, with its three states folded into two: a live cell
    /// always dies, a dead one fires at two neighbours.
    BriansBrain,
    /// Birth at three neighbours, and nothing survives otherwise.
    Seeded,
    /// Day & Night.
    DayNight,
    /// Morley's Garden.
    MorleysGarden,
    /// A cell lives wherever at least two neighbours do.
    Diffusion,
    /// No transition but a pattern: the Sierpinski gasket, drawn anew at
    /// every step whatever the grid held.
    SierpinskiTriangle,
    /// A rule named by a descriptor. The descriptor is resolved outside this
    /// type (see `apply_with`); where nothing resolves it the step leaves
    /// the grid as it is.
    Custom(String),
}

impl Clone for RuleSet {
    /// The same rule, with a descriptor of its own where it has one.
    fn clone(&self) -> (copy: RuleSet)
        ensures
            copy == *self,
    {
        match self {
            RuleSet::GameOfLife => RuleSet::GameOfLife,
            RuleSet::HighLife => RuleSet::HighLife,
            RuleSet::BriansBrain => RuleSet::BriansBrain,
            RuleSet::Seeded => RuleSet::Seeded,
            RuleSet::DayNight => RuleSet::DayNight,
            RuleSet::MorleysGarden => RuleSet::MorleysGarden,
            RuleSet::Diffusion => RuleSet::Diffusion,
            RuleSet::SierpinskiTriangle => RuleSet::SierpinskiTriangle,
            RuleSet::Custom(descriptor) => RuleSet::Custom(descriptor.clone()),
        }
    }
}

impl RuleSet {
    /// The name under which a rule is offered for selection. A custom rule
    /// goes by its descriptor.
    pub open spec fn spec_name(self) -> Seq<char> {
        match self {
            RuleSet::GameOfLife => "Game of Life"@,
            RuleSet::HighLife => "HighLife"@,
            RuleSet::BriansBrain => "Brian's Brain"@,
            RuleSet::Seeded => "Seeded"@,
            RuleSet::DayNight => "Day & Night"@,
            RuleSet::MorleysGarden => "Morley's Garden"@,
            RuleSet::Diffusion => "Diffusion"@,
            RuleSet::SierpinskiTriangle => "Sierpinski Triangle"@,
            RuleSet::Custom(descriptor) => descriptor@,
        }
    }

    /// The built-in rule that is offered under `name`, if there is one.
    pub open spec fn spec_from_name(name: Seq<char>) -> Option<RuleSet> {
        if name == "Game of Life"@ {
            Some(RuleSet::GameOfLife)
        } else if name == "HighLife"@ {
            Some(RuleSet::HighLife)
        } else if name == "Brian's Brain"@ {
            Some(RuleSet::BriansBrain)
        } else if name == "Seeded"@ {
            Some(RuleSet::Seeded)
        } else if name == "Day & Night"@ {
            Some(RuleSet::DayNight)
        } else if name == "Morley's Garden"@ {
            Some(RuleSet::MorleysGarden)
        } else if name == "Diffusion"@ {
            Some(RuleSet::Diffusion)
        } else if name == "Sierpinski Triangle"@ {
            Some(RuleSet::SierpinskiTriangle)
        } else {
            None
        }
    }

    /// The built-in rule that is offered under `name`, or `None` where no
    /// built-in rule has that name.
    pub fn from_name(name: &str) -> (rule: Option<RuleSet>)
        ensures
            rule == RuleSet::spec_from_name(name@),
    {
        let wanted: String = name.to_owned();
        if wanted == "Game of Life".to_owned() {
            Some(RuleSet::GameOfLife)
        } else if wanted == "HighLife".to_owned() {
            Some(RuleSet::HighLife)
        } else if wanted == "Brian's Brain".to_owned() {
            Some(RuleSet::BriansBrain)
        } else if wanted == "Seeded".to_owned() {
            Some(RuleSet::Seeded)
        } else if wanted == "Day & Night".to_owned() {
            Some(RuleSet::DayNight)
        } else if wanted == "Morley's Garden".to_owned() {
            Some(RuleSet::MorleysGarden)
        } else if wanted == "Diffusion".to_owned() {
            Some(RuleSet::Diffusion)
        } else if wanted == "Sierpinski Triangle".to_owned() {
            Some(RuleSet::SierpinskiTriangle)
        } else {
            None
        }
    }

    /// Follows a selection by name: this rule becomes the built-in rule that
    /// is offered under `name`, and stays what it is where no built-in rule
    /// has that name.
    pub fn select(&mut self, name: &str)
        ensures
            *final(self) == match RuleSet::spec_from_name(name@) {
                Some(rule) => rule,
                None => *old(self),
            },
    {
        match RuleSet::from_name(name) {
            Some(rule) => {
                *self = rule;
            },
            None => {},
        }
    }

    /// The names of the built-in rules, in the order in which they are
    /// offered for selection.
    pub fn names() -> (names: Vec<&'static str>)
        ensures
            names@.len() == 8,
            names@[0]@ == RuleSet::GameOfLife.spec_name(),
            names@[1]@ == RuleSet::HighLife.spec_name(),
            names@[2]@ == RuleSet::BriansBrain.spec_name(),
            names@[3]@ == RuleSet::Seeded.spec_name(),
            names@[4]@ == RuleSet::DayNight.spec_name(),
            names@[5]@ == RuleSet::MorleysGarden.spec_name(),
            names@[6]@ == RuleSet::Diffusion.spec_name(),
            names@[7]@ == RuleSet::SierpinskiTriangle.spec_name(),
    {
        let mut names: Vec<&'static str> = Vec::new();
        names.push("Game of Life");
        names.push("HighLife");
        names.push("Brian's Brain");
        names.push("Seeded");
        names.push("Day & Night");
        names.push("Morley's Garden");
        names.push("Diffusion");
        names.push("Sierpinski Triangle");
        names
    }

    /// Whether the rule decides by a cell's state and the number of its live
    /// neighbours alone.
    pub open spec fn counts_neighbours(self) -> bool {
        !(self is SierpinskiTriangle) && !(self is Custom)
    }

    /// Whether a cell is alive in the next generation: `state` is what it
    /// holds now, `neighbours` the number of its live neighbours, `x` its
    /// column and `y` its row.
    pub open spec fn alive_next(self, state: CellState, neighbours: nat, x: int, y: int) -> bool {
        match self {
            RuleSet::GameOfLife => (state == CellState::Alive && neighbours == 2) || neighbours
                == 3,
            RuleSet::HighLife => neighbours == 3 || neighbours == 6 || (state == CellState::Alive
                && neighbours == 2),
            RuleSet::BriansBrain => state == CellState::Dead && neighbours == 2,
            RuleSet::Seeded => neighbours == 3,
            RuleSet::DayNight => neighbours == 3 || neighbours == 6 || neighbours == 7
                || neighbours == 8 || (state == CellState::Alive && neighbours == 2),
            RuleSet::MorleysGarden => neighbours == 3 || neighbours == 6,
            RuleSet::Diffusion => neighbours >= 2,
            RuleSet::SierpinskiTriangle => ((x as usize) & (y as usize)) == 0,
            RuleSet::Custom(_) => state == CellState::Alive,
        }
    }

    /// The state of a cell in the next generation.
    pub open spec fn spec_next_state(
        self,
        state: CellState,
        neighbours: nat,
        x: int,
        y: int,
    ) -> CellState {
        if self.alive_next(state, neighbours, x, y) {
            CellState::Alive
        } else {
            CellState::Dead
        }
    }

    /// The state of a cell in the next generation: `state` is what it holds
    /// now, `neighbours` the number of its live neighbours, `x` its column
    /// and `y` its row.
    pub fn next_state(&self, state: CellState, neighbours: usize, x: usize, y: usize) -> (next:
        CellState)
        ensures
            next == self.spec_next_state(state, neighbours as nat, x as int, y as int),
    {
        let alive: bool = match self {
            RuleSet::GameOfLife => (state.is_alive() && neighbours == 2) || neighbours == 3,
            RuleSet::HighLife => neighbours == 3 || neighbours == 6 || (state.is_alive()
                && neighbours == 2),
            RuleSet::BriansBrain => !state.is_alive() && neighbours == 2,
            RuleSet::Seeded => neighbours == 3,
            RuleSet::DayNight => neighbours == 3 || neighbours == 6 || neighbours == 7
                || neighbours == 8 || (state.is_alive() && neighbours == 2),
            RuleSet::MorleysGarden => neighbours == 3 || neighbours == 6,
            RuleSet::Diffusion => neighbours >= 2,
            RuleSet::SierpinskiTriangle => (x & y) == 0,
            RuleSet::Custom(_) => state.is_alive(),
        };
        if alive {
            CellState::Alive
        } else {
            CellState::Dead
        }
    }
}

/// The state in the next generation of the cell that `(x, y)` denotes.
pub open spec fn next_cell(rule: RuleSet, rows: Rows, x: int, y: int) -> CellState
    recommends
        is_grid(rows),
{
    rule.spec_next_state(
        cell_at(rows, x, y),
        live_neighbours(rows, x, y),
        wrap(x, width_of(rows)),
        wrap(y, height_of(rows)),
    )
}

/// The next generation: a grid of the same size in which every cell holds
/// what the rule makes of the cell and its neighbours in `rows`.
pub open spec fn step(rule: RuleSet, rows: Rows) -> Rows
    recommends
        is_grid(rows),
{
    Seq::new(
        height_of(rows) as nat,
        |y: int| Seq::new(width_of(rows) as nat, |x: int| next_cell(rule, rows, x, y)),
    )
}

/// Under a custom rule that nothing resolves, a step leaves the grid as it
/// is.
pub proof fn lemma_custom_step_is_identity(descriptor: String, rows: Rows)
    requires
        is_grid(rows),
    ensures
        step(RuleSet::Custom(descriptor), rows) == rows,
{
    let rule = RuleSet::Custom(descriptor);
    let w = width_of(rows);
    let h = height_of(rows);
    assert forall|y: int, x: int| 0 <= y < h && 0 <= x < w implies step(rule, rows)[y][x]
        == rows[y][x] by {
        lemma_cell_at_index(rows, x, y);
    }
    assert(step(rule, rows) =~~= rows);
}

impl RuleSet {
    /// The next generation of `grid` under this rule, as a grid of its own:
    /// `grid` stays as it is, and every cell of the result is decided from
    /// `grid` alone. Under `Custom` the result equals `grid`, since no
    /// descriptor is known to this function.
    pub fn apply(&self, grid: &Grid) -> (next: Grid)
        requires
            grid.wf(),
        ensures
            next.wf(),
            next.spec_width() == grid.spec_width(),
            next.spec_height() == grid.spec_height(),
            next@ == step(*self, grid@),
    {
        let rule = |state: CellState, neighbours: usize, x: usize, y: usize, _on: &Grid| -> (next:
            CellState)
            ensures
                next == self.spec_next_state(state, neighbours as nat, x as int, y as int),
            { self.next_state(state, neighbours, x, y) };
        let next = grid.step_with(rule);
        proof {
            let w = width_of(grid@);
            let h = height_of(grid@);
            assert forall|y: int, x: int| 0 <= y < h && 0 <= x < w implies next@[y][x] == step(
                *self,
                grid@,
            )[y][x] by {
                lemma_wrap_of_index(x, w);
                lemma_wrap_of_index(y, h);
                assert(call_ensures(
                    rule,
                    grid.asked(x as usize, y as usize),
                    next@[y as usize as int][x as usize as int],
                ));
            }
            assert(next@ =~~= step(*self, grid@));
        }
        next
    }

    /// `next` is the next generation of `grid` under this rule, where
    /// `resolved` is what the descriptor of a custom rule stands for: a
    /// custom rule that stands for a rule answers for every cell, every other
    /// rule goes by its own table, and a custom rule that stands for none
    /// leaves the grid as it is.
    pub open spec fn steps_to<F>(self, grid: Grid, resolved: Option<F>, next: Grid) -> bool where
        F: Fn(CellState, usize, usize, usize, &Grid) -> CellState,
     {
        &&& next.wf()
        &&& next.spec_width() == grid.spec_width()
        &&& next.spec_height() == grid.spec_height()
        &&& match resolved {
            Some(custom) => if self is Custom {
                grid.answered_by(custom, next)
            } else {
                next@ == step(self, grid@)
            },
            None => if self is Custom {
                next@ == grid@
            } else {
                next@ == step(self, grid@)
            },
        }
    }

    /// The next generation of `grid` under this rule, where the caller has
    /// looked the descriptor of a custom rule up: `resolved` is the rule it
    /// stands for, or `None` where it stands for none. A custom rule that
    /// was resolved is asked once for every cell, as `Grid::step_with` says;
    /// one that was not leaves the grid as it is. Every other rule goes by
    /// its own table, whatever `resolved` holds.
    pub fn apply_resolved<F>(&self, grid: &Grid, resolved: Option<F>) -> (next: Grid) where
        F: Fn(CellState, usize, usize, usize, &Grid) -> CellState,

        requires
            grid.wf(),
            self is Custom ==> (resolved matches Some(custom) ==> grid.may_ask(custom)),
        ensures
            self.steps_to(*grid, resolved, next),
    {
        match self {
            RuleSet::Custom(descriptor) => {
                match resolved {
                    Some(custom) => grid.step_with(custom),
                    None => {
                        proof {
                            lemma_custom_step_is_identity(*descriptor, grid@);
                        }
                        self.apply(grid)
                    },
                }
            },
            _ => self.apply(grid),
        }
    }

    /// The next generation of `grid` under this rule, with `resolve` to look
    /// the descriptor of a custom rule up. For a custom rule `resolve` is
    /// called once, with the descriptor, and the step goes by what it
    /// answers, as `apply_resolved` says; for every other rule it is not
    /// called.
    pub fn apply_with<R, F>(&self, grid: &Grid, resolve: R) -> (next: Grid) where
        R: Fn(&String) -> Option<F>,
        F: Fn(CellState, usize, usize, usize, &Grid) -> CellState,

        requires
            grid.wf(),
            self matches RuleSet::Custom(descriptor) ==> call_requires(resolve, (&descriptor,)),
            self matches RuleSet::Custom(descriptor) ==> forall|custom: F|
                call_ensures(resolve, (&descriptor,), Some(custom)) ==> grid.may_ask(custom),
        ensures
            next.wf(),
            next.spec_width() == grid.spec_width(),
            next.spec_height() == grid.spec_height(),
            !(self is Custom) ==> next@ == step(*self, grid@),
            self matches RuleSet::Custom(descriptor) ==> exists|resolved: Option<F>|
                call_ensures(resolve, (&descriptor,), resolved) && #[trigger] self.steps_to(
                    *grid,
                    resolved,
                    next,
                ),
    {
        match self {
            RuleSet::Custom(descriptor) => {
                let resolved = resolve(descriptor);
                self.apply_resolved(grid, resolved)
            },
            _ => self.apply(grid),
        }
    }

    /// Replaces `grid` by its next generation under this rule.
    pub fn update_grid(&self, grid: &mut Grid)
        requires
            old(grid).wf(),
        ensures
            final(grid).wf(),
            final(grid).spec_width() == old(grid).spec_width(),
            final(grid).spec_height() == old(grid).spec_height(),
            final(grid)@ == step(*self, old(grid)@),
    {
        match self {
            RuleSet::GameOfLife => grid.update_conway(),
            RuleSet::HighLife => grid.update_highlife(),
            RuleSet::BriansBrain => grid.update_brians_brain(),
            RuleSet::Seeded => grid.update_seeded(),
            RuleSet::DayNight => grid.update_day_night(),
            RuleSet::MorleysGarden => grid.update_morleys_garden(),
            RuleSet::Diffusion => grid.update_diffusion(),
            RuleSet::SierpinskiTriangle => grid.update_sierpinski(),
            RuleSet::Custom(custom_rule) => {
                proof {
                    lemma_custom_step_is_identity(*custom_rule, grid@);
                }
                grid.update_custom(custom_rule)
            },
        }
    }
}

impl Grid {
    /// One generation of Conway's Game of Life: a cell lives on with two or
    /// three live neighbours and is born with three.
    pub fn update_conway(&mut self)
        requires
            old(self).wf(),
        ensures
            final(self).wf(),
            final(self).spec_width() == old(self).spec_width(),
            final(self).spec_height() == old(self).spec_height(),
            final(self)@ == step(RuleSet::GameOfLife, old(self)@),
    {
        let next = RuleSet::GameOfLife.apply(self);
        *self = next;
    }

    /// One generation of HighLife: as Life, with a birth at six live
    /// neighbours too.
    pub fn update_highlife(&mut self)
        requires
            old(self).wf(),
        ensures
            final(self).wf(),
            final(self).spec_width() == old(self).spec_width(),
            final(self).spec_height() == old(self).spec_height(),
            final(self)@ == step(RuleSet::HighLife, old(self)@),
    {
        let next = RuleSet::HighLife.apply(self);
        *self = next;
    }

    /// One generation of Brian's Brain in two states: every live cell dies,
    /// and a dead cell with exactly two live neighbours comes alive.
    pub fn update_brians_brain(&mut self)
        requires
            old(self).wf(),
        ensures
            final(self).wf(),
            final(self).spec_width() == old(self).spec_width(),
            final(self).spec_height() == old(self).spec_height(),
            final(self)@ == step(RuleSet::BriansBrain, old(self)@),
    {
        let next = RuleSet::BriansBrain.apply(self);
        *self = next;
    }

    /// One generation of Seeded: a cell is alive exactly where it has three
    /// live neighbours.
    pub fn update_seeded(&mut self)
        requires
            old(self).wf(),
        ensures
            final(self).wf(),
            final(self).spec_width() == old(self).spec_width(),
            final(self).spec_height() == old(self).spec_height(),
            final(self)@ == step(RuleSet::Seeded, old(self)@),
    {
        let next = RuleSet::Seeded.apply(self);
        *self = next;
    }

    /// One generation of Day & Night: a cell is alive with three, six, seven
    /// or eight live neighbours, and lives on with two.
    pub fn update_day_night(&mut self)
        requires
            old(self).wf(),
        ensures
            final(self).wf(),
            final(self).spec_width() == old(self).spec_width(),
            final(self).spec_height() == old(self).spec_height(),
            final(self)@ == step(RuleSet::DayNight, old(self)@),
    {
        let next = RuleSet::DayNight.apply(self);
        *self = next;
    }

    /// One generation of Morley's Garden: a cell is alive exactly where it
    /// has three or six live neighbours.
    pub fn update_morleys_garden(&mut self)
        requires
            old(self).wf(),
        ensures
            final(self).wf(),
            final(self).spec_width() == old(self).spec_width(),
            final(self).spec_height() == old(self).spec_height(),
            final(self)@ == step(RuleSet::MorleysGarden, old(self)@),
    {
        let next = RuleSet::MorleysGarden.apply(self);
        *self = next;
    }

    /// One generation of Diffusion: a cell is alive exactly where at least
    /// two of its neighbours are.
    pub fn update_diffusion(&mut self)
        requires
            old(self).wf(),
        ensures
            final(self).wf(),
            final(self).spec_width() == old(self).spec_width(),
            final(self).spec_height() == old(self).spec_height(),
            final(self)@ == step(RuleSet::Diffusion, old(self)@),
    {
        let next = RuleSet::Diffusion.apply(self);
        *self = next;
    }

    /// Draws the Sierpinski gasket over the grid: a cell is alive exactly
    /// where its column and its row have no bit in common.
    pub fn update_sierpinski(&mut self)
        requires
            old(self).wf(),
        ensures
            final(self).wf(),
            final(self).spec_width() == old(self).spec_width(),
            final(self).spec_height() == old(self).spec_height(),
            final(self)@ == step(RuleSet::SierpinskiTriangle, old(self)@),
    {
        let next = RuleSet::SierpinskiTriangle.apply(self);
        *self = next;
    }

    /// The step of a custom rule whose descriptor nothing resolves: the grid
    /// stays as it is.
    pub fn update_custom(&mut self, custom_rule: &String)
        requires
            old(self).wf(),
        ensures
            final(self).wf(),
            final(self).spec_width() == old(self).spec_width(),
            final(self).spec_height() == old(self).spec_height(),
            final(self)@ == old(self)@,
    {
    }
}

} // verus!
