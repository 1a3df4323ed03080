//! A `Plugin` is an object that can be used to configure a Monte Carlo
//! simulation.  The manager calls it regularly, and it gets a chance to ask
//! for data to be saved or for the simulation to be terminated.
//!
//! A plugin's remaining two operations, saving and logging, act on the host
//! and its output and are performed by the host loop; the two here are its
//! decisions, and each implementation pins them down exactly.

use vstd::prelude::*;

use crate::action::{Action, TimeToRun};

verus! {

/// The decision interface of a plugin.
pub trait Plugin {
    /// What the plugin decides for a dispatch cycle at this point of the
    /// simulation.
    spec fn spec_run(&self, moves: u64, independent_samples: u64) -> Action;

    /// The schedule the plugin asks the manager for.
    spec fn spec_run_period(&self) -> TimeToRun;

    /// Run and do something.  If the simulation needs to be terminated,
    /// `Action::Exit` is returned.
    fn run(&self, moves: u64, independent_samples: u64) -> (a: Action)
        ensures
            a == self.spec_run(moves, independent_samples),
    ;

    /// How often we need the plugin to run.  `Never` means that this plugin
    /// never needs to run.  Note that this period may change any time the
    /// plugin is called, and that it is an upper, not a lower bound.
    fn run_period(&self) -> (t: TimeToRun)
        ensures
            t == self.spec_run_period(),
    ;
}

} // verus!
