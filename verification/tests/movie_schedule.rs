use sadmc::action::{Action, TimeToRun};
use sadmc::movie::{frame_file_name, Movie};
use sadmc::plugin::Plugin;

/// The first frame's target: the smallest first power of the base exceeding
/// a move count of zero, as the host computes it at construction.
fn first_target(base: f64) -> u64 {
    ((base.powi(1) + 0.5) as u64).max(1)
}

/// The exponential schedule: starting one past the current frame, the first
/// power of the base that exceeds the move count.
fn advance(movie: &mut Movie, base: f64, moves: u64) {
    let mut which_frame = movie.which_frame + 1;
    let mut next_time = (base.powi(which_frame) + 0.5) as u64;
    while next_time <= moves {
        which_frame += 1;
        next_time = (base.powi(which_frame) + 0.5) as u64;
    }
    movie.set_next_frame(which_frame, next_time, moves);
}

fn shall_i_save(movie: &mut Movie, base: f64, moves: u64) -> bool {
    if movie.is_frame_due(moves) {
        advance(movie, base, moves);
        return true;
    }
    false
}

#[test]
fn movie_schedule_doubles() {
    let movie_time = 2.0;
    let mut movie = Movie::new(true, first_target(movie_time));
    // the first frame is due at the base's first power: nothing on move one
    assert_eq!(movie.run_period(), TimeToRun::TotalMoves(2));
    // frames are due exactly as the move count doubles
    for moves in 1..=40u64 {
        let expected = moves == 2 || moves == 4 || moves == 8 || moves == 16 || moves == 32;
        assert_eq!(shall_i_save(&mut movie, movie_time, moves), expected);
    }
    assert_eq!(movie.run_period(), TimeToRun::TotalMoves(64));
}

#[test]
fn movie_schedule_skips_past_missed_targets() {
    let mut movie = Movie::new(true, first_target(2.0));
    assert_eq!(movie.run_period(), TimeToRun::TotalMoves(2));
    // a hit far down the schedule advances past every missed power at once
    movie.set_next_frame(1, 100, 50);
    assert!(shall_i_save(&mut movie, 2.0, 100));
    assert_eq!(movie.run_period(), TimeToRun::TotalMoves(128));
    assert_eq!(movie.which_frame, 7);
    // between targets nothing is due
    assert!(!shall_i_save(&mut movie, 2.0, 101));
}

#[test]
fn movie_disabled_never_runs() {
    let mut movie = Movie::new(false, 1);
    assert_eq!(movie.run_period(), TimeToRun::Never);
    for moves in 0..10u64 {
        assert!(!shall_i_save(&mut movie, 2.0, moves));
        assert_eq!(movie.run(moves, 0), Action::Nothing);
    }
}

#[test]
fn movie_run_requests_save_on_hit() {
    let movie = Movie::new(true, 2);
    assert_eq!(movie.run(1, 0), Action::Nothing);
    assert_eq!(movie.run(2, 0), Action::Save);
    assert_eq!(movie.run(3, 0), Action::Nothing);
}

#[test]
fn movie_fractional_base() {
    // a base of 1.5 hits the rounded powers 2, 3, 5, 8, 11, ...
    let mut movie = Movie::new(true, first_target(1.5));
    for moves in 1..=12u64 {
        let expected = moves == 2 || moves == 3 || moves == 5 || moves == 8 || moves == 11;
        assert_eq!(shall_i_save(&mut movie, 1.5, moves), expected);
    }
}

#[test]
fn frame_file_names_are_zero_padded() {
    assert_eq!(frame_file_name(0).as_str(), "00000000000000.cbor");
    assert_eq!(frame_file_name(42).as_str(), "00000000000042.cbor");
    assert_eq!(frame_file_name(12345678901234).as_str(), "12345678901234.cbor");
    // a count wider than fourteen digits is not truncated
    assert_eq!(
        frame_file_name(123456789012345678).as_str(),
        "123456789012345678.cbor"
    );
}
