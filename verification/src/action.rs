//! The two small value types that plugins use to talk to the manager: the
//! `Action` a plugin requests this cycle, and the `TimeToRun` schedule it
//! declares for its next visit.

use vstd::prelude::*;

verus! {

/// A time when a plugin wants to be run again.
#[derive(Copy, Clone, Debug, PartialOrd, Ord, PartialEq, Eq, Structural)]
pub enum TimeToRun {
    /// Don't stop on our behalf!
    Never,
    /// After this many moves in total.
    TotalMoves(u64),
    /// This often.
    Period(u64),
}

/// An action that should be taken based on a plugin's decision, ordered from
/// least to most urgent: `Nothing < Log < Save < Exit`.
#[derive(Copy, Clone, Debug, PartialOrd, Ord, PartialEq, Eq, Structural)]
pub enum Action {
    /// Nothing special need be done.
    Nothing,
    /// Log interesting information.
    Log,
    /// Save things.
    Save,
    /// Exit the program.
    Exit,
}

impl Action {
    /// The position of an action in the urgency order.
    pub open spec fn rank(self) -> int {
        match self {
            Action::Nothing => 0,
            Action::Log => 1,
            Action::Save => 2,
            Action::Exit => 3,
        }
    }

    /// What doing both of two actions amounts to: the more urgent of the two.
    pub open spec fn spec_and(self, other: Action) -> Action {
        if other.rank() > self.rank() {
            other
        } else {
            self
        }
    }

    /// The urgency order, executably.
    fn urgency(self) -> (r: u8)
        ensures
            r as int == self.rank(),
    {
        match self {
            Action::Nothing => 0,
            Action::Log => 1,
            Action::Save => 2,
            Action::Exit => 3,
        }
    }

    /// Do both of two actions.
    pub fn and(self, other: Action) -> (r: Action)
        ensures
            r == self.spec_and(other),
    {
        if other.urgency() > self.urgency() {
            other
        } else {
            self
        }
    }

    /// Whether this action is at least as urgent as another: the comparison
    /// the dispatch cycle's thresholds (log, save, exit) are tested with.
    pub fn at_least(self, other: Action) -> (r: bool)
        ensures
            r == (self.rank() >= other.rank()),
    {
        self.urgency() >= other.urgency()
    }
}

/// Merging two actions is commutative.
pub proof fn lemma_and_commutative(a: Action, b: Action)
    ensures
        a.spec_and(b) == b.spec_and(a),
{
}

/// Merging actions is associative.
pub proof fn lemma_and_associative(a: Action, b: Action, c: Action)
    ensures
        a.spec_and(b).spec_and(c) == a.spec_and(b.spec_and(c)),
{
}

/// Merging an action with itself changes nothing.
pub proof fn lemma_and_idempotent(a: Action)
    ensures
        a.spec_and(a) == a,
{
}

/// `Action::Nothing` is the identity of the merge.
pub proof fn lemma_and_identity(a: Action)
    ensures
        a.spec_and(Action::Nothing) == a,
        Action::Nothing.spec_and(a) == a,
{
}

/// `Action::Exit` absorbs everything.
pub proof fn lemma_and_absorbing(a: Action)
    ensures
        a.spec_and(Action::Exit) == Action::Exit,
        Action::Exit.spec_and(a) == Action::Exit,
{
}

/// The merge of two actions is the maximum in the urgency order: it is one of
/// the two, and its rank is at least either rank.
pub proof fn lemma_and_is_max(a: Action, b: Action)
    ensures
        a.spec_and(b) == a || a.spec_and(b) == b,
        a.spec_and(b).rank() >= a.rank(),
        a.spec_and(b).rank() >= b.rank(),
{
}

} // verus!
