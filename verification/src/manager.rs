//! The plugin manager's decision core: the O(1) per-move fast path, the merge
//! of all plugins' requested actions, and the recomputation of the next
//! check-in period from the plugins' schedules.
//!
//! The surrounding I/O (consistency check, checkpoint, logging, process exit)
//! is performed by the host loop; everything it decides is decided here.

use vstd::prelude::*;

use crate::action::{Action, TimeToRun};

verus! {

/// The hard liveness ceiling: the manager dispatches at least once every
/// 2^40 moves, even if every plugin asks to never be run.
pub const MAX_PERIOD: u64 = 1099511627776;

/// A helper to enable Monte Carlo implementations to easily run their
/// plugins without duplicating code: a call counter and a cached threshold.
#[derive(Copy, Clone, Debug, PartialEq, Eq, Structural)]
pub struct PluginManager {
    /// Moves counted since the last dispatch cycle.
    pub moves: u64,
    /// The cached dispatch threshold: a dispatch cycle runs once the counter
    /// reaches it.
    pub period: u64,
}

/// Whether a call of the per-move fast path fires a dispatch cycle from this
/// state.
pub open spec fn spec_tick_fires(m: PluginManager) -> bool {
    m.moves + 1 >= m.period
}

/// The manager's state after one call of the per-move fast path.
pub open spec fn spec_after_tick(m: PluginManager) -> PluginManager {
    if spec_tick_fires(m) {
        PluginManager { moves: 0, period: m.period }
    } else {
        PluginManager { moves: (m.moves + 1) as u64, period: m.period }
    }
}

/// The manager's state after `n` calls of the per-move fast path.
pub open spec fn spec_after_ticks(m: PluginManager, n: nat) -> PluginManager
    decreases n,
{
    if n == 0 {
        m
    } else {
        spec_after_tick(spec_after_ticks(m, (n - 1) as nat))
    }
}

/// How many moves from now a schedule request asks the manager to check in,
/// or `None` if it asks for nothing.
pub open spec fn spec_moves_from_now(t: TimeToRun, now: u64) -> Option<u64> {
    match t {
        TimeToRun::Never => Option::None,
        TimeToRun::TotalMoves(m) => if m > now {
            Option::Some((m - now) as u64)
        } else {
            Option::None
        },
        TimeToRun::Period(p) => Option::Some(p),
    }
}

/// The minimum over the liveness ceiling and every plugin's requested
/// period, converted to moves from now.
pub open spec fn spec_min_period(reqs: Seq<TimeToRun>, now: u64) -> u64
    decreases reqs.len(),
{
    if reqs.len() == 0 {
        MAX_PERIOD
    } else {
        let rest = spec_min_period(reqs.drop_last(), now);
        match spec_moves_from_now(reqs.last(), now) {
            Option::Some(p) => if p < rest {
                p
            } else {
                rest
            },
            Option::None => rest,
        }
    }
}

/// The next dispatch threshold the manager caches: the minimum of ceiling and
/// requests, held at one or above so a threshold always lies one move or more
/// ahead (a zero-period request still dispatches on every move).
pub open spec fn spec_new_period(reqs: Seq<TimeToRun>, now: u64) -> u64 {
    if spec_min_period(reqs, now) == 0 {
        1u64
    } else {
        spec_min_period(reqs, now)
    }
}

impl PluginManager {
    /// Create a plugin manager.
    pub fn new() -> (m: PluginManager)
        ensures
            m.moves == 0,
            m.period == 1,
    {
        PluginManager { moves: 0, period: 1 }
    }

    /// The per-move fast path: count one move, and say whether a dispatch
    /// cycle is due now.  On a dispatch the counter resets to zero.
    pub fn tick(&mut self) -> (fired: bool)
        ensures
            fired == spec_tick_fires(*old(self)),
            *final(self) == spec_after_tick(*old(self)),
    {
        if self.moves == u64::MAX || self.moves + 1 >= self.period {
            self.moves = 0;
            true
        } else {
            self.moves = self.moves + 1;
            false
        }
    }

    /// Recompute the cached dispatch threshold from every plugin's schedule
    /// request, bounded above by the liveness ceiling and below by one.
    pub fn set_period_from_requests(&mut self, now: u64, requests: &Vec<TimeToRun>)
        ensures
            final(self).moves == old(self).moves,
            final(self).period == spec_new_period(requests@, now),
            final(self).period >= 1,
    {
        let mut new_period: u64 = MAX_PERIOD;
        let mut i: usize = 0;
        while i < requests.len()
            invariant
                i <= requests@.len(),
                new_period == spec_min_period(requests@.subrange(0, i as int), now),
            decreases requests@.len() - i,
        {
            proof {
                assert(requests@.subrange(0, i + 1).drop_last() =~= requests@.subrange(
                    0,
                    i as int,
                ));
                assert(requests@.subrange(0, i + 1).last() == requests@[i as int]);
            }
            match requests[i] {
                TimeToRun::Never => {},
                TimeToRun::TotalMoves(m) => {
                    if m > now && m - now < new_period {
                        new_period = m - now;
                    }
                },
                TimeToRun::Period(p) => {
                    if p < new_period {
                        new_period = p;
                    }
                },
            }
            i = i + 1;
        }
        proof {
            assert(requests@.subrange(0, requests@.len() as int) =~= requests@);
        }
        if new_period == 0 {
            new_period = 1;
        }
        self.period = new_period;
    }

    /// Merge every plugin's requested action into the single most urgent one.
    pub fn merge_actions(&self, actions: &Vec<Action>) -> (r: Action)
        ensures
            r == spec_merge_actions(actions@),
    {
        let mut todo = Action::Nothing;
        let mut i: usize = 0;
        while i < actions.len()
            invariant
                i <= actions@.len(),
                todo == spec_merge_actions(actions@.subrange(0, i as int)),
            decreases actions@.len() - i,
        {
            proof {
                assert(actions@.subrange(0, i + 1).drop_last() =~= actions@.subrange(0, i as int));
                assert(actions@.subrange(0, i + 1).last() == actions@[i as int]);
            }
            todo = todo.and(actions[i]);
            i = i + 1;
        }
        proof {
            assert(actions@.subrange(0, actions@.len() as int) =~= actions@);
        }
        todo
    }
}

/// The merge of a whole cycle's worth of actions, starting from the identity.
pub open spec fn spec_merge_actions(actions: Seq<Action>) -> Action
    decreases actions.len(),
{
    if actions.len() == 0 {
        Action::Nothing
    } else {
        spec_merge_actions(actions.drop_last()).spec_and(actions.last())
    }
}

/// The recomputed threshold never exceeds the liveness ceiling, so a dispatch
/// is never more than 2^40 moves away.
pub proof fn lemma_period_bounded(reqs: Seq<TimeToRun>, now: u64)
    ensures
        spec_min_period(reqs, now) <= MAX_PERIOD,
    decreases reqs.len(),
{
    if reqs.len() > 0 {
        lemma_period_bounded(reqs.drop_last(), now);
    }
}

/// Liveness: if every plugin asks to never be run, the threshold is exactly
/// the ceiling, so the manager still dispatches within 2^40 moves.
pub proof fn lemma_liveness(reqs: Seq<TimeToRun>, now: u64)
    requires
        forall|i: int| 0 <= i < reqs.len() ==> reqs[i] == TimeToRun::Never,
    ensures
        spec_min_period(reqs, now) == MAX_PERIOD,
    decreases reqs.len(),
{
    if reqs.len() > 0 {
        lemma_liveness(reqs.drop_last(), now);
    }
}

/// The threshold waits no longer than any one plugin asked for: it is at most
/// every request's distance in moves, and so is the cached threshold for
/// every request of a move or more.
pub proof fn lemma_period_le_every_request(reqs: Seq<TimeToRun>, now: u64, i: int)
    requires
        0 <= i < reqs.len(),
        spec_moves_from_now(reqs[i], now) is Some,
    ensures
        spec_min_period(reqs, now) <= spec_moves_from_now(reqs[i], now)->Some_0,
        spec_moves_from_now(reqs[i], now)->Some_0 >= 1 ==> spec_new_period(reqs, now)
            <= spec_moves_from_now(reqs[i], now)->Some_0,
    decreases reqs.len(),
{
    if i < reqs.len() - 1 {
        lemma_period_le_every_request(reqs.drop_last(), now, i);
    }
}

/// The threshold is no shorter than asked for either: it equals the ceiling
/// or the distance of some request.  Together with the bounds above, the
/// manager dispatches exactly at the minimum of ceiling and all requests.
pub proof fn lemma_period_achieved(reqs: Seq<TimeToRun>, now: u64)
    ensures
        spec_min_period(reqs, now) == MAX_PERIOD || exists|i: int|
            0 <= i < reqs.len() && spec_moves_from_now(reqs[i], now) == Option::Some(
                spec_min_period(reqs, now),
            ),
    decreases reqs.len(),
{
    if reqs.len() > 0 {
        lemma_period_achieved(reqs.drop_last(), now);
        let p = spec_min_period(reqs, now);
        if p != MAX_PERIOD {
            if spec_moves_from_now(reqs.last(), now) == Option::Some(p) {
                assert(spec_moves_from_now(reqs[reqs.len() - 1], now) == Option::Some(p));
            } else {
                let j = choose|j: int|
                    0 <= j < reqs.len() - 1 && spec_moves_from_now(
                        reqs.drop_last()[j],
                        now,
                    ) == Option::Some(p);
                assert(spec_moves_from_now(reqs[j], now) == Option::Some(p));
            }
        }
    }
}

/// The merged action of a cycle is at least as urgent as every plugin's
/// request.
pub proof fn lemma_merge_dominates(actions: Seq<Action>, i: int)
    requires
        0 <= i < actions.len(),
    ensures
        spec_merge_actions(actions).rank() >= actions[i].rank(),
    decreases actions.len(),
{
    if i < actions.len() - 1 {
        lemma_merge_dominates(actions.drop_last(), i);
    }
}

/// The merged action never exceeds what was asked for: unless no plugin
/// requested anything, it is one of the requests.
pub proof fn lemma_merge_achieved(actions: Seq<Action>)
    ensures
        spec_merge_actions(actions) == Action::Nothing || exists|i: int|
            0 <= i < actions.len() && actions[i] == spec_merge_actions(actions),
    decreases actions.len(),
{
    if actions.len() > 0 {
        lemma_merge_achieved(actions.drop_last());
        let merged = spec_merge_actions(actions);
        if merged != Action::Nothing {
            if merged == actions.last() {
                assert(actions[actions.len() - 1] == merged);
            } else {
                let j = choose|j: int|
                    0 <= j < actions.len() - 1 && actions.drop_last()[j] == spec_merge_actions(
                        actions.drop_last(),
                    );
                assert(actions[j] == merged);
            }
        }
    }
}

/// Liveness, end to end: when every plugin asks to never be run, a manager
/// that has just recomputed its threshold stays on the fast path until the
/// ceiling and fires exactly on the 2^40-th move after the previous dispatch.
pub proof fn lemma_liveness_dispatch(reqs: Seq<TimeToRun>, now: u64, j: nat)
    requires
        forall|i: int| 0 <= i < reqs.len() ==> reqs[i] == TimeToRun::Never,
        1 <= j <= MAX_PERIOD,
    ensures
        (spec_tick_fires(
            spec_after_ticks(
                PluginManager { moves: 0, period: spec_new_period(reqs, now) },
                (j - 1) as nat,
            ),
        ) <==> j == MAX_PERIOD),
{
    lemma_liveness(reqs, now);
    lemma_dispatch_timing(MAX_PERIOD, j);
}

/// Dispatch neither early nor late: with the threshold just recomputed from
/// the plugins' requests, the fast path stays silent strictly before the
/// threshold and fires exactly on it; the threshold itself never exceeds the
/// liveness ceiling.
pub proof fn lemma_dispatch_at_minimum(reqs: Seq<TimeToRun>, now: u64, j: nat)
    requires
        1 <= j <= spec_new_period(reqs, now),
    ensures
        (spec_tick_fires(
            spec_after_ticks(
                PluginManager { moves: 0, period: spec_new_period(reqs, now) },
                (j - 1) as nat,
            ),
        ) <==> j == spec_new_period(reqs, now)),
        spec_new_period(reqs, now) <= MAX_PERIOD,
{
    lemma_period_bounded(reqs, now);
    lemma_dispatch_timing(spec_new_period(reqs, now), j);
}

/// Dispatch timing: starting fresh after a dispatch with threshold `p`, the
/// fast path stays silent for the first `p - 1` moves and fires on move `p`.
pub proof fn lemma_dispatch_timing(p: u64, j: nat)
    requires
        1 <= p,
        1 <= j <= p,
    ensures
        (spec_tick_fires(
            spec_after_ticks(PluginManager { moves: 0, period: p }, (j - 1) as nat),
        ) <==> j == p),
{
    lemma_counter_counts(p, (j - 1) as nat);
}

/// While the counter has not reached the threshold, each fast-path call just
/// counts one more move.
proof fn lemma_counter_counts(p: u64, n: nat)
    requires
        1 <= p,
        n < p,
    ensures
        spec_after_ticks(PluginManager { moves: 0, period: p }, n) == (PluginManager {
            moves: n as u64,
            period: p,
        }),
    decreases n,
{
    if n > 0 {
        lemma_counter_counts(p, (n - 1) as nat);
    }
}

} // verus!
