use sadmc::action::{Action, TimeToRun};
use sadmc::manager::{PluginManager, MAX_PERIOD};
use sadmc::plugin::Plugin;
use sadmc::report::{Report, ReportParams};
use sadmc::save::{RateEstimate, Save};

const ALL_ACTIONS: [Action; 4] = [Action::Nothing, Action::Log, Action::Save, Action::Exit];

#[test]
fn action_and_is_max() {
    for &a in ALL_ACTIONS.iter() {
        for &b in ALL_ACTIONS.iter() {
            assert_eq!(a.and(b), std::cmp::max(a, b));
            // commutative
            assert_eq!(a.and(b), b.and(a));
            // identity and absorbing elements
            assert_eq!(a.and(Action::Nothing), a);
            assert_eq!(a.and(Action::Exit), Action::Exit);
            for &c in ALL_ACTIONS.iter() {
                // associative
                assert_eq!(a.and(b).and(c), a.and(b.and(c)));
            }
        }
        // idempotent
        assert_eq!(a.and(a), a);
    }
}

#[test]
fn manager_liveness_ceiling() {
    let mut manager = PluginManager::new();
    // every plugin asks to never be run: the threshold is the hard ceiling
    manager.set_period_from_requests(12345, &vec![TimeToRun::Never, TimeToRun::Never]);
    assert_eq!(manager.period, MAX_PERIOD);
    assert_eq!(manager.period, 1u64 << 40);
    // no plugins at all: the same ceiling
    manager.set_period_from_requests(0, &vec![]);
    assert_eq!(manager.period, 1u64 << 40);
}

#[test]
fn manager_period_is_minimum_of_requests() {
    let mut manager = PluginManager::new();
    manager.set_period_from_requests(
        100,
        &vec![
            TimeToRun::TotalMoves(150),
            TimeToRun::Period(7),
            TimeToRun::Never,
        ],
    );
    assert_eq!(manager.period, 7);
    manager.set_period_from_requests(100, &vec![TimeToRun::TotalMoves(150)]);
    assert_eq!(manager.period, 50);
    // an already-passed total-move target contributes nothing
    manager.set_period_from_requests(100, &vec![TimeToRun::TotalMoves(50)]);
    assert_eq!(manager.period, MAX_PERIOD);
    // the cached threshold stays at least one: a zero-period request still
    // means a dispatch on every move
    manager.set_period_from_requests(100, &vec![TimeToRun::Period(0)]);
    assert_eq!(manager.period, 1);
    for _ in 0..3 {
        assert!(manager.tick());
    }
}

#[test]
fn manager_dispatches_exactly_at_period() {
    let mut manager = PluginManager::new();
    manager.set_period_from_requests(0, &vec![TimeToRun::Period(5)]);
    assert_eq!(manager.period, 5);
    // never before the threshold, always at it
    for _round in 0..3 {
        for _ in 0..4 {
            assert!(!manager.tick());
        }
        assert!(manager.tick());
    }
}

#[test]
fn report_am_all_done_targets() {
    let report = Report::from(ReportParams {
        max_iter: Some(100),
        max_independent_samples: None,
        quiet: true,
    });
    assert!(!report.am_all_done(99, 0));
    assert!(report.am_all_done(100, 0));
    assert!(report.am_all_done(101, 7));

    let neither = Report::from(ReportParams {
        max_iter: None,
        max_independent_samples: None,
        quiet: false,
    });
    assert!(!neither.am_all_done(0, 0));
    assert!(!neither.am_all_done(u64::MAX, u64::MAX));

    // either target alone suffices: the two conditions are OR'd
    let samples = Report::from(ReportParams {
        max_iter: None,
        max_independent_samples: Some(3),
        quiet: true,
    });
    assert!(!samples.am_all_done(u64::MAX, 2));
    assert!(samples.am_all_done(0, 3));
}

#[test]
fn report_runs_and_schedules() {
    let report = Report::from(ReportParams {
        max_iter: Some(10),
        max_independent_samples: None,
        quiet: true,
    });
    assert_eq!(report.run(9, 0), Action::Nothing);
    assert_eq!(report.run(10, 0), Action::Exit);
    assert_eq!(report.run_period(), TimeToRun::TotalMoves(10));

    let mut updated = report;
    updated.update_from(ReportParams {
        max_iter: None,
        max_independent_samples: Some(5),
        quiet: false,
    });
    assert_eq!(updated.run_period(), TimeToRun::Never);
    assert_eq!(updated.run(u64::MAX, 4), Action::Nothing);
    assert_eq!(updated.run(0, 5), Action::Exit);
    assert!(!updated.quiet);

    let defaults = ReportParams::default();
    assert_eq!(defaults.max_iter, None);
    assert_eq!(defaults.max_independent_samples, None);
    assert!(defaults.quiet);
}

#[test]
fn save_next_output_monotonic() {
    // the threshold never decreases across firing calls, whatever the
    // measured rate says
    let mut save = Save::new();
    let mut last = save.next_output;
    let estimates = [
        None,
        Some(RateEstimate {
            moves_per_period: 1,
            bootstrap_moves: 0,
            next_move_below_bootstrap: false,
        }),
        Some(RateEstimate {
            moves_per_period: u64::MAX / 4,
            bootstrap_moves: 1000,
            next_move_below_bootstrap: true,
        }),
        None,
        Some(RateEstimate {
            moves_per_period: 3,
            bootstrap_moves: 0,
            next_move_below_bootstrap: false,
        }),
    ];
    for est in estimates.iter() {
        let moves = save.next_output + 1;
        if let Some(e) = est {
            if e.next_move_below_bootstrap && e.bootstrap_moves <= moves {
                continue;
            }
        }
        assert!(save.shall_i_save(moves, *est));
        assert!(save.next_output >= last);
        last = save.next_output;
    }
}

#[test]
fn save_rate_estimate_branches() {
    // steady state: one interval's worth of moves past now
    let mut save = Save::new();
    save.next_output = 10;
    let est = Some(RateEstimate {
        moves_per_period: 6,
        bootstrap_moves: 0,
        next_move_below_bootstrap: false,
    });
    assert!(save.shall_i_save(20, est));
    assert_eq!(save.next_output, 26);

    // too young even for one interval: jump to the bootstrap horizon
    let mut save = Save::new();
    let est = Some(RateEstimate {
        moves_per_period: 1000,
        bootstrap_moves: 500,
        next_move_below_bootstrap: true,
    });
    assert!(save.shall_i_save(2, est));
    assert_eq!(save.next_output, 500);

    // rate estimate still unreliable: exponential ramp-up by doubling moves
    let mut save = Save::new();
    let est = Some(RateEstimate {
        moves_per_period: 1000,
        bootstrap_moves: 2,
        next_move_below_bootstrap: false,
    });
    assert!(save.shall_i_save(3, est));
    assert_eq!(save.next_output, 6);
}

#[test]
fn save_two_phase_run_then_save() {
    let save = Save::new();
    // run only tests the threshold; it never advances it
    assert_eq!(save.run(0, 0), Action::Nothing);
    assert_eq!(save.run(1, 0), Action::Save);
    assert_eq!(save.next_output, 1);
    assert_eq!(save.run_period(), TimeToRun::TotalMoves(1));
}

#[test]
fn end_to_end_save_backoff() {
    // one Save plugin with no time interval, driven for five moves
    let mut manager = PluginManager::new();
    let mut save = Save::new();
    assert_eq!(save.next_output, 1);

    // the manager dispatches as soon as the move counter reaches the cached
    // threshold, which starts at one
    assert!(manager.tick());
    let todo = manager.merge_actions(&vec![save.run(1, 0)]);
    assert_eq!(todo, Action::Save);

    // with no configured interval the threshold doubles on each firing call
    assert!(!save.shall_i_save(1, None));
    assert_eq!(save.next_output, 1);
    assert!(save.shall_i_save(2, None));
    assert_eq!(save.next_output, 2);
    assert!(save.shall_i_save(3, None));
    assert_eq!(save.next_output, 4);
    assert!(!save.shall_i_save(4, None));
    assert_eq!(save.next_output, 4);
    assert!(save.shall_i_save(5, None));
    assert_eq!(save.next_output, 8);

    // the recomputed check-in period follows the save schedule
    manager.set_period_from_requests(5, &vec![save.run_period()]);
    assert_eq!(manager.period, 3);
}
