//! The run state of a simulation: paused or running, and when a generation
//! is due.

use crate::grid::Grid;
use crate::rules::{step, RuleSet};
use vstd::prelude::*;

verus! {

/// Whether generations follow each other by themselves.
#[derive(Clone, Copy, Debug, PartialEq, Eq, Structural)]
pub enum RunState {
    /// No generation is computed but on an explicit signal.
    Paused,
    /// Every tick computes one generation.
    Running,
}

impl RunState {
    /// The other state.
    pub open spec fn spec_toggled(self) -> RunState {
        match self {
            RunState::Paused => RunState::Running,
            RunState::Running => RunState::Paused,
        }
    }

    /// The state after a tick: the other one where the pause signal came,
    /// else the same.
    pub open spec fn after_tick(self, toggle: bool) -> RunState {
        if toggle {
            self.spec_toggled()
        } else {
            self
        }
    }

    /// Whether a tick computes a generation: it does where the state after
    /// the tick is `Running`, and where the signal to advance came.
    pub open spec fn steps_on_tick(self, toggle: bool, advance: bool) -> bool {
        self.after_tick(toggle) == RunState::Running || advance
    }

    /// The state in which a simulation starts.
    pub fn initial() -> (state: RunState)
        ensures
            state == RunState::Paused,
    {
        RunState::Paused
    }

    /// The other state.
    pub fn toggled(self) -> (other: RunState)
        ensures
            other == self.spec_toggled(),
    {
        match self {
            RunState::Paused => RunState::Running,
            RunState::Running => RunState::Paused,
        }
    }

    /// Decides one tick. `toggle` says that the pause signal came, `advance`
    /// that the signal for a single generation came. The first part of the
    /// answer is the state after the tick, the second says whether one
    /// generation is to be computed in this tick. A single generation asked
    /// for while paused is computed once, and the state stays `Paused`.
    pub fn on_tick(self, toggle: bool, advance: bool) -> (decision: (RunState, bool))
        ensures
            decision.0 == self.after_tick(toggle),
            decision.1 == self.steps_on_tick(toggle, advance),
    {
        let next = if toggle {
            self.toggled()
        } else {
            self
        };
        let steps = next == RunState::Running || advance;
        (next, steps)
    }

    /// Runs one tick on `grid`: decides as `on_tick` does, and where a
    /// generation is due replaces `grid` by its next generation under
    /// `rule`; else `grid` stays as it is. The answer is that of `on_tick`.
    pub fn tick(self, toggle: bool, advance: bool, rule: &RuleSet, grid: &mut Grid) -> (decision:
        (RunState, bool))
        requires
            old(grid).wf(),
        ensures
            decision.0 == self.after_tick(toggle),
            decision.1 == self.steps_on_tick(toggle, advance),
            final(grid).wf(),
            final(grid).spec_width() == old(grid).spec_width(),
            final(grid).spec_height() == old(grid).spec_height(),
            final(grid)@ == if self.steps_on_tick(toggle, advance) {
                step(*rule, old(grid)@)
            } else {
                old(grid)@
            },
    {
        let decision = self.on_tick(toggle, advance);
        if decision.1 {
            rule.update_grid(grid);
        }
        decision
    }
}

} // verus!
