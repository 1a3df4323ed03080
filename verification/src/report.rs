//! The report plugin: progress estimation and the decision to terminate once
//! an iteration or independent-sample target is reached.  The wall-clock
//! projections it prints are computed and printed by the host loop; every
//! decision it takes is here.

use vstd::prelude::*;

use crate::action::{Action, TimeToRun};

verus! {

/// A plugin that terminates the simulation after a fixed number of
/// iterations, or once enough independent samples were found.
#[derive(Copy, Clone, Debug, PartialEq, Eq, Structural)]
pub struct Report {
    /// The move count at which to stop, if any.
    pub max_iter: TimeToRun,
    /// The independent-sample count at which to stop, if any.
    pub max_independent_samples: Option<u64>,
    /// The user has requested that nothing be printed!
    pub quiet: bool,
}

/// The parameters to define the report information as well as stop time
/// (which is part of the report).
#[derive(Copy, Clone, Debug, PartialEq, Eq, Structural)]
pub struct ReportParams {
    /// The maximum number of iterations to run.
    pub max_iter: Option<u64>,
    /// The maximum number of independent samples to find.
    pub max_independent_samples: Option<u64>,
    /// Do not make reports!
    pub quiet: bool,
}

impl Default for ReportParams {
    /// By default: no targets, and quiet.
    fn default() -> (r: ReportParams)
        ensures
            r.max_iter is None,
            r.max_independent_samples is None,
            r.quiet,
    {
        ReportParams { max_iter: Option::None, max_independent_samples: Option::None, quiet: true }
    }
}

/// The report state a parameter record stands for.
pub open spec fn spec_report_from(params: ReportParams) -> Report {
    Report {
        max_iter: match params.max_iter {
            Option::Some(mi) => TimeToRun::TotalMoves(mi),
            Option::None => TimeToRun::Never,
        },
        max_independent_samples: params.max_independent_samples,
        quiet: params.quiet,
    }
}

impl From<ReportParams> for Report {
    fn from(params: ReportParams) -> (r: Report) {
        Report {
            max_iter: match params.max_iter {
                Option::Some(mi) => TimeToRun::TotalMoves(mi),
                Option::None => TimeToRun::Never,
            },
            max_independent_samples: params.max_independent_samples,
            quiet: params.quiet,
        }
    }
}

impl vstd::std_specs::convert::FromSpecImpl<ReportParams> for Report {
    open spec fn obeys_from_spec() -> bool {
        true
    }

    open spec fn from_spec(params: ReportParams) -> Report {
        spec_report_from(params)
    }
}

impl Report {
    /// Whether the simulation is done: a configured move target is reached,
    /// or (independently) a configured sample target is reached.
    pub open spec fn spec_am_all_done(self, moves: u64, independent_samples: u64) -> bool {
        ||| (self.max_iter matches TimeToRun::TotalMoves(maxiter) && moves >= maxiter)
        ||| (self.max_independent_samples matches Option::Some(mis) && independent_samples >= mis)
    }

    /// Allows a resuming simulation to get updated report parameters from the
    /// flags.
    pub fn update_from(&mut self, params: ReportParams)
        ensures
            *final(self) == spec_report_from(params),
    {
        *self = Report::from(params);
    }

    /// Am all done?
    pub fn am_all_done(&self, moves: u64, independent_samples: u64) -> (r: bool)
        ensures
            r == self.spec_am_all_done(moves, independent_samples),
    {
        if let TimeToRun::TotalMoves(maxiter) = self.max_iter {
            if moves >= maxiter {
                return true;
            }
        }
        if let Option::Some(mis) = self.max_independent_samples {
            independent_samples >= mis
        } else {
            false
        }
    }

}

impl crate::plugin::Plugin for Report {
    /// Exit exactly when all done.
    open spec fn spec_run(&self, moves: u64, independent_samples: u64) -> Action {
        if self.spec_am_all_done(moves, independent_samples) {
            Action::Exit
        } else {
            Action::Nothing
        }
    }

    /// The move-count target only: a sample target does not set a schedule of
    /// its own, so sample-based completion is only noticed when the manager
    /// dispatches for another reason.
    open spec fn spec_run_period(&self) -> TimeToRun {
        self.max_iter
    }

    fn run(&self, moves: u64, independent_samples: u64) -> (a: Action) {
        if self.am_all_done(moves, independent_samples) {
            return Action::Exit;
        }
        Action::Nothing
    }

    fn run_period(&self) -> (t: TimeToRun) {
        self.max_iter
    }
}

} // verus!
