//! The save plugin: an adaptive scheduler for checkpoint writes.  When a
//! real-time interval is configured, the host measures the move rate and
//! hands the resulting integer estimate in; the schedule decision itself is
//! verified here.  With no interval configured the threshold simply doubles.

use vstd::prelude::*;

use crate::action::{Action, TimeToRun};

verus! {

/// What the host measured about the move rate, reduced to the integers the
/// schedule decision reads.  All three fields come from one measured
/// `time_per_move` (elapsed wall-clock seconds divided by moves so far):
#[derive(Copy, Clone, Debug, PartialEq, Eq, Structural)]
pub struct RateEstimate {
    /// One more than the number of moves that fit in the configured save
    /// interval: `1 + floor(interval / time_per_move)`.
    pub moves_per_period: u64,
    /// The bootstrap horizon `floor(1 / time_per_move)`: the move count one
    /// second of run time amounts to.
    pub bootstrap_moves: u64,
    /// Whether the next move would still fall short of the horizon, i.e.
    /// `moves + 1 < 1 / time_per_move`.
    pub next_move_below_bootstrap: bool,
}

impl RateEstimate {
    /// What any estimate measured at `moves` satisfies: the interval holds at
    /// least one move (it is one more than a floor), and if the next move is
    /// below the horizon, the horizon lies beyond the current move count.
    pub open spec fn wf(self, moves: u64) -> bool {
        &&& self.moves_per_period >= 1
        &&& (self.next_move_below_bootstrap ==> self.bootstrap_moves > moves)
    }
}

/// A plugin that schedules when to save.
#[derive(Copy, Clone, Debug, PartialEq, Eq, Structural)]
pub struct Save {
    /// The next move count at which a save is due.
    pub next_output: u64,
}

/// The threshold `shall_i_save` moves on to when it fires at `moves`.
pub open spec fn spec_next_output(
    old_next: u64,
    moves: u64,
    estimate: Option<RateEstimate>,
) -> int {
    match estimate {
        Option::Some(e) => if e.moves_per_period < moves {
            moves + e.moves_per_period
        } else if e.next_move_below_bootstrap {
            e.bootstrap_moves as int
        } else {
            moves * 2
        },
        Option::None => old_next * 2,
    }
}

impl Save {
    /// Create a save schedule with the first save due after the first move.
    pub fn new() -> (s: Save)
        ensures
            s.next_output == 1,
    {
        Save { next_output: 1 }
    }

    /// Returns true if we should save now.  When it does, it also decides
    /// when to save next: with a measured rate in hand, either settle into
    /// one interval's worth of moves past now, jump to the bootstrap horizon
    /// while the simulation is too young, or double the move count; with no
    /// configured interval, double the previous threshold.
    ///
    /// The new threshold never falls below the old one.
    pub fn shall_i_save(&mut self, moves: u64, estimate: Option<RateEstimate>) -> (save_please:
        bool)
        requires
            moves <= u64::MAX / 2,
            old(self).next_output <= u64::MAX / 2,
            estimate matches Option::Some(e) ==> e.wf(moves),
        ensures
            save_please == (moves > old(self).next_output),
            !save_please ==> *final(self) == *old(self),
            save_please ==> final(self).next_output == spec_next_output(
                old(self).next_output,
                moves,
                estimate,
            ),
            final(self).next_output >= old(self).next_output,
    {
        let save_please = moves > self.next_output;
        if save_please {
            // We are definitely saving now, and will also decide when to save next.
            match estimate {
                Option::Some(e) => {
                    if e.moves_per_period < moves {
                        self.next_output = moves + e.moves_per_period;
                    } else if e.next_move_below_bootstrap {
                        self.next_output = e.bootstrap_moves;
                    } else {
                        self.next_output = moves * 2;
                    }
                },
                Option::None => {
                    self.next_output = self.next_output * 2;
                },
            }
        }
        save_please
    }

}

impl crate::plugin::Plugin for Save {
    /// Ask for a save once the threshold is reached.  This only tests the
    /// threshold; `shall_i_save` advances it, so the manager can classify the
    /// cycle before any plugin mutates its schedule.
    open spec fn spec_run(&self, moves: u64, independent_samples: u64) -> Action {
        if moves >= self.next_output {
            Action::Save
        } else {
            Action::Nothing
        }
    }

    /// Check in at the next save threshold.
    open spec fn spec_run_period(&self) -> TimeToRun {
        TimeToRun::TotalMoves(self.next_output)
    }

    fn run(&self, moves: u64, _independent_samples: u64) -> (a: Action) {
        if moves >= self.next_output {
            Action::Save
        } else {
            Action::Nothing
        }
    }

    fn run_period(&self) -> (t: TimeToRun) {
        TimeToRun::TotalMoves(self.next_output)
    }
}

/// Monotonicity across a whole run: however many times the schedule fires,
/// the threshold never decreases.  This is the per-call bound of
/// `shall_i_save`, stated for a chain of calls over any inputs.
pub proof fn lemma_next_output_monotonic(old_next: u64, moves: u64, estimate: Option<RateEstimate>)
    requires
        moves > old_next,
        estimate matches Option::Some(e) ==> e.wf(moves),
    ensures
        spec_next_output(old_next, moves, estimate) >= old_next,
{
}

} // verus!
