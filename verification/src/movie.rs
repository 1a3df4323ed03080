//! The movie plugin's schedule: snapshot frames are due on an exponential
//! cadence, and each captured frame is written to a file named by its
//! zero-padded move count.  The host computes the exponential targets (they
//! come from a real-valued base) and writes the files; which moves are hits,
//! how the cached target advances, and the frame file names are decided here.

use vstd::prelude::*;
use vstd::string::{StrSliceExecFns, StringExecFns};

use crate::action::{Action, TimeToRun};
use crate::decimal::{spec_decimal, u64_to_decimal};

verus! {

/// A plugin that schedules movie backups.
#[derive(Copy, Clone, Debug, PartialEq, Eq, Structural)]
pub struct Movie {
    /// Whether a movie was asked for at all.
    pub enabled: bool,
    /// Which frame the current target stands for.
    pub which_frame: i32,
    /// The cached target: always a total-move count when enabled, and never
    /// runs when disabled.
    pub period: TimeToRun,
}

impl Movie {
    /// The cached target is always a total-move count while enabled; a
    /// disabled movie never asks to run.
    pub open spec fn wf(self) -> bool {
        if self.enabled {
            self.period is TotalMoves
        } else {
            self.period == TimeToRun::Never
        }
    }

    /// Create a movie schedule.  An enabled one caches the first frame's
    /// target, which the host derives from the exponential base: the smallest
    /// first power of the base exceeding a move count of zero.
    pub fn new(enabled: bool, first_target: u64) -> (m: Movie)
        requires
            enabled ==> first_target >= 1,
        ensures
            m.enabled == enabled,
            m.which_frame == 0,
            m.period == (if enabled {
                TimeToRun::TotalMoves(first_target)
            } else {
                TimeToRun::Never
            }),
            m.wf(),
    {
        Movie {
            enabled,
            which_frame: 0,
            period: if enabled {
                TimeToRun::TotalMoves(first_target)
            } else {
                TimeToRun::Never
            },
        }
    }

    /// Is it time for a movie?  A frame is due only when the move count
    /// equals the currently scheduled target exactly.
    pub fn is_frame_due(&self, moves: u64) -> (r: bool)
        ensures
            r == (self.enabled && self.period == TimeToRun::TotalMoves(moves)),
    {
        self.enabled && self.period == TimeToRun::TotalMoves(moves)
    }

    /// Cache the next frame's target, once the host has advanced the
    /// exponential schedule past the current move count.
    pub fn set_next_frame(&mut self, which_frame: i32, next_time: u64, moves: u64)
        requires
            old(self).enabled,
            next_time > moves,
        ensures
            *final(self) == (Movie {
                enabled: old(self).enabled,
                which_frame,
                period: TimeToRun::TotalMoves(next_time),
            }),
            final(self).wf(),
    {
        self.which_frame = which_frame;
        self.period = TimeToRun::TotalMoves(next_time);
    }

}

impl crate::plugin::Plugin for Movie {
    /// Ask for a save exactly on a frame hit.  The host loop writes the frame
    /// and advances the schedule with `set_next_frame` when this fires.
    open spec fn spec_run(&self, moves: u64, independent_samples: u64) -> Action {
        if self.enabled && self.period == TimeToRun::TotalMoves(moves) {
            Action::Save
        } else {
            Action::Nothing
        }
    }

    /// The cached target.
    open spec fn spec_run_period(&self) -> TimeToRun {
        self.period
    }

    fn run(&self, moves: u64, _independent_samples: u64) -> (a: Action) {
        if self.is_frame_due(moves) {
            Action::Save
        } else {
            Action::Nothing
        }
    }

    fn run_period(&self) -> (t: TimeToRun) {
        self.period
    }
}

/// A frame file's name: the move count zero-padded to fourteen digits, with
/// the snapshot extension.
pub open spec fn spec_frame_file_name(moves: u64) -> Seq<char> {
    let digits = spec_decimal(moves as nat);
    if digits.len() >= 14 {
        digits + ".cbor"@
    } else {
        Seq::new((14 - digits.len()) as nat, |i: int| '0') + digits + ".cbor"@
    }
}

/// The file a frame captured at `moves` is saved under, inside the movie
/// directory.
pub fn frame_file_name(moves: u64) -> (s: String)
    ensures
        s@ == spec_frame_file_name(moves),
{
    let digits = u64_to_decimal(moves);
    let len = digits.as_str().unicode_len();
    let mut s = String::new();
    if len < 14 {
        let pad: usize = 14 - len;
        let mut i: usize = 0;
        while i < pad
            invariant
                i <= pad,
                s@ =~= Seq::new(i as nat, |j: int| '0'),
            decreases pad - i,
        {
            proof {
                reveal_strlit("0");
                assert(s@ + "0"@ =~= Seq::new((i + 1) as nat, |j: int| '0'));
            }
            s.append("0");
            i = i + 1;
        }
        proof {
            assert(s@ =~= Seq::new((14 - digits@.len()) as nat, |j: int| '0'));
        }
    }
    s.append(digits.as_str());
    s.append(".cbor");
    s
}

} // verus!
