use vstd::prelude::*;

use crate::phase::Phase;

verus! {

/// A work phase ends in a long rest when it is this one of its cycle; the
/// work phases before it end in short rests.
pub const WORK_PHASES_PER_CYCLE: u8 = 4;

/// Whether the timer is counting down.
#[derive(Debug, Clone, Copy, PartialEq, Eq, Structural)]
pub enum RunState {
    /// Paused: ticks change nothing.
    Idle,
    /// Counting: the next tick adds the time since `last_tick`.
    Ticking { last_tick: u64 },
}

/// The abstract state of a timer: durations and timestamps in milliseconds.
pub struct TimerModel {
    pub phase: Phase,
    pub run: RunState,
    /// Time spent in the current phase.
    pub elapsed: nat,
    /// Length of the current phase.
    pub target: nat,
    /// Work phases completed since the last long rest.
    pub rest_count: nat,
    pub work: nat,
    pub short_rest: nat,
    pub long_rest: nat,
}

impl TimerModel {
    /// A paused timer at the start of a work phase, with no rests taken.
    pub open spec fn initial(work: nat, short_rest: nat, long_rest: nat) -> TimerModel {
        TimerModel {
            phase: Phase::Work,
            run: RunState::Idle,
            elapsed: 0,
            target: work,
            rest_count: 0,
            work,
            short_rest,
            long_rest,
        }
    }

    /// The configured length of phase `p`.
    pub open spec fn duration_for(self, p: Phase) -> nat {
        match p {
            Phase::Work => self.work,
            Phase::ShortRest => self.short_rest,
            Phase::LongRest => self.long_rest,
        }
    }

    /// Positive durations, the phase length taken from the configuration,
    /// the phase not yet run out, and fewer rests than a full cycle.
    pub open spec fn wf(self) -> bool {
        &&& self.work > 0
        &&& self.short_rest > 0
        &&& self.long_rest > 0
        &&& self.target == self.duration_for(self.phase)
        &&& self.elapsed < self.target
        &&& self.rest_count < WORK_PHASES_PER_CYCLE
    }

    /// Time left in the current phase.
    pub open spec fn remaining(self) -> nat {
        if self.elapsed < self.target {
            (self.target - self.elapsed) as nat
        } else {
            0
        }
    }

    /// The phase after the current one, with its clock at zero. A work phase
    /// is followed by a short rest, or by a long rest when it completes a
    /// cycle (which starts the rest count over); a rest is followed by work.
    pub open spec fn advanced(self) -> TimerModel {
        let (next, count) = match self.phase {
            Phase::Work => if self.rest_count + 1 < WORK_PHASES_PER_CYCLE {
                (Phase::ShortRest, self.rest_count + 1)
            } else {
                (Phase::LongRest, 0)
            },
            _ => (Phase::Work, self.rest_count),
        };
        TimerModel {
            phase: next,
            run: self.run,
            elapsed: 0,
            target: self.duration_for(next),
            rest_count: count as nat,
            work: self.work,
            short_rest: self.short_rest,
            long_rest: self.long_rest,
        }
    }

    /// Pausing a running timer, or starting a paused one at time `now`.
    pub open spec fn toggled(self, now: u64) -> TimerModel {
        TimerModel {
            run: match self.run {
                RunState::Idle => RunState::Ticking { last_tick: now },
                RunState::Ticking { .. } => RunState::Idle,
            },
            ..self
        }
    }

    /// The clock of the current phase back at zero.
    pub open spec fn restarted(self) -> TimerModel {
        TimerModel { elapsed: 0, ..self }
    }

    /// A tick at time `now`. A paused timer ignores it. A running one adds
    /// the time since its last tick (none if `now` is earlier), records `now`
    /// as its last tick, and moves to the next phase once the elapsed time
    /// reaches the phase's length.
    pub open spec fn ticked(self, now: u64) -> TimerModel {
        match self.run {
            RunState::Idle => self,
            RunState::Ticking { last_tick } => {
                let delta: nat = if now >= last_tick {
                    (now - last_tick) as nat
                } else {
                    0
                };
                let counted = TimerModel {
                    run: RunState::Ticking { last_tick: now },
                    elapsed: self.elapsed + delta,
                    ..self
                };
                if counted.elapsed >= counted.target {
                    counted.advanced()
                } else {
                    counted
                }
            },
        }
    }

    /// Ticks at each of `times`, in order.
    pub open spec fn ticked_through(self, times: Seq<u64>) -> TimerModel
        decreases times.len(),
    {
        if times.len() == 0 {
            self
        } else {
            self.ticked(times[0]).ticked_through(times.drop_first())
        }
    }
}

} // verus!
