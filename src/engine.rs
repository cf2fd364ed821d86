use vstd::prelude::*;

use crate::button::Button;
use crate::clock_text::{clock_text, format_clock, MILLIS_PER_MINUTE};
use crate::model::{RunState, TimerModel, WORK_PHASES_PER_CYCLE};
use crate::phase::Phase;

verus! {

/// Default length of a work phase, in minutes.
pub const DEFAULT_WORK_MINUTES: u64 = 25;

/// Default length of a short rest, in minutes.
pub const DEFAULT_SHORT_REST_MINUTES: u64 = 5;

/// Default length of a long rest, in minutes.
pub const DEFAULT_LONG_REST_MINUTES: u64 = 20;

/// The phase-cycle timer. Durations and timestamps are in milliseconds; the
/// timestamps come from a monotonic clock of the host's choosing.
pub struct TimerEngine {
    phase: Phase,
    run: RunState,
    elapsed: u64,
    target: u64,
    rest_count: u8,
    work: u64,
    short_rest: u64,
    long_rest: u64,
}

impl View for TimerEngine {
    type V = TimerModel;

    closed spec fn view(&self) -> TimerModel {
        TimerModel {
            phase: self.phase,
            run: self.run,
            elapsed: self.elapsed as nat,
            target: self.target as nat,
            rest_count: self.rest_count as nat,
            work: self.work as nat,
            short_rest: self.short_rest as nat,
            long_rest: self.long_rest as nat,
        }
    }
}

impl TimerEngine {
    /// A paused timer at the start of a work phase, with no rests taken,
    /// for the given phase lengths.
    pub fn new(work: u64, short_rest: u64, long_rest: u64) -> (r: TimerEngine)
        requires
            work > 0,
            short_rest > 0,
            long_rest > 0,
        ensures
            r@.wf(),
            r@ == TimerModel::initial(work as nat, short_rest as nat, long_rest as nat),
    {
        TimerEngine {
            phase: Phase::Work,
            run: RunState::Idle,
            elapsed: 0,
            target: work,
            rest_count: 0,
            work,
            short_rest,
            long_rest,
        }
    }

    /// A timer as `new` makes it, with the phase lengths given in minutes;
    /// `None` when a length is zero or too long to count in milliseconds.
    pub fn from_minutes(work: u64, short_rest: u64, long_rest: u64) -> (r: Option<TimerEngine>)
        ensures
            r is Some <==> (0 < work <= u64::MAX / MILLIS_PER_MINUTE && 0 < short_rest
                <= u64::MAX / MILLIS_PER_MINUTE && 0 < long_rest <= u64::MAX
                / MILLIS_PER_MINUTE),
            r matches Some(t) ==> t@.wf() && t@ == TimerModel::initial(
                (work * MILLIS_PER_MINUTE) as nat,
                (short_rest * MILLIS_PER_MINUTE) as nat,
                (long_rest * MILLIS_PER_MINUTE) as nat,
            ),
    {
        let limit = u64::MAX / MILLIS_PER_MINUTE;
        if work == 0 || short_rest == 0 || long_rest == 0 || work > limit || short_rest > limit
            || long_rest > limit {
            return None;
        }
        proof {
            assert(work * MILLIS_PER_MINUTE <= u64::MAX) by (nonlinear_arith)
                requires
                    work <= u64::MAX / MILLIS_PER_MINUTE,
            ;
            assert(short_rest * MILLIS_PER_MINUTE <= u64::MAX) by (nonlinear_arith)
                requires
                    short_rest <= u64::MAX / MILLIS_PER_MINUTE,
            ;
            assert(long_rest * MILLIS_PER_MINUTE <= u64::MAX) by (nonlinear_arith)
                requires
                    long_rest <= u64::MAX / MILLIS_PER_MINUTE,
            ;
        }
        Some(
            TimerEngine::new(
                work * MILLIS_PER_MINUTE,
                short_rest * MILLIS_PER_MINUTE,
                long_rest * MILLIS_PER_MINUTE,
            ),
        )
    }

    /// The phase in progress.
    pub fn phase(&self) -> (r: Phase)
        ensures
            r == self@.phase,
    {
        self.phase
    }

    /// Whether the timer is counting, and since which tick.
    pub fn run_state(&self) -> (r: RunState)
        ensures
            r == self@.run,
    {
        self.run
    }

    /// Time spent in the current phase.
    pub fn elapsed(&self) -> (r: u64)
        ensures
            r == self@.elapsed,
    {
        self.elapsed
    }

    /// Length of the current phase.
    pub fn phase_target(&self) -> (r: u64)
        ensures
            r == self@.target,
    {
        self.target
    }

    /// Work phases completed since the last long rest.
    pub fn rest_count(&self) -> (r: u8)
        ensures
            r == self@.rest_count,
    {
        self.rest_count
    }

    /// Time left in the current phase.
    pub fn remaining(&self) -> (r: u64)
        requires
            self@.wf(),
        ensures
            r == self@.remaining(),
    {
        self.target - self.elapsed
    }

    /// Time left in the current phase, as `minutes:seconds`.
    pub fn remaining_time_display(&self) -> (r: String)
        requires
            self@.wf(),
        ensures
            r@ == clock_text(self@.remaining()),
    {
        format_clock(self.remaining())
    }

    /// Starts a paused timer, taking `now` as the time of its last tick, or
    /// pauses a running one; the elapsed time is kept either way.
    pub fn toggle(&mut self, now: u64)
        requires
            old(self)@.wf(),
        ensures
            final(self)@ == old(self)@.toggled(now),
            final(self)@.wf(),
    {
        self.run = match self.run {
            RunState::Idle => RunState::Ticking { last_tick: now },
            RunState::Ticking { .. } => RunState::Idle,
        };
    }

    /// Sets the clock of the current phase back to zero.
    pub fn reset(&mut self)
        requires
            old(self)@.wf(),
        ensures
            final(self)@ == old(self)@.restarted(),
            final(self)@.wf(),
    {
        self.elapsed = 0;
    }

    /// Moves to the next phase at once, whatever time is left, and starts
    /// its clock at zero; a running timer keeps running.
    pub fn skip_to_next(&mut self)
        requires
            old(self)@.wf(),
        ensures
            final(self)@ == old(self)@.advanced(),
            final(self)@.wf(),
    {
        match self.phase {
            Phase::Work => {
                if self.rest_count + 1 < WORK_PHASES_PER_CYCLE {
                    self.rest_count = self.rest_count + 1;
                    self.phase = Phase::ShortRest;
                    self.target = self.short_rest;
                } else {
                    self.rest_count = 0;
                    self.phase = Phase::LongRest;
                    self.target = self.long_rest;
                }
            },
            Phase::ShortRest | Phase::LongRest => {
                self.phase = Phase::Work;
                self.target = self.work;
            },
        }
        self.elapsed = 0;
    }

    /// Takes a tick at time `now` (see `TimerModel::ticked`) and returns the
    /// time left afterwards, as `minutes:seconds`.
    pub fn tick(&mut self, now: u64) -> (r: String)
        requires
            old(self)@.wf(),
        ensures
            final(self)@ == old(self)@.ticked(now),
            final(self)@.wf(),
            r@ == clock_text(final(self)@.remaining()),
    {
        if let RunState::Ticking { last_tick } = self.run {
            let delta = if now >= last_tick {
                now - last_tick
            } else {
                0
            };
            self.run = RunState::Ticking { last_tick: now };
            if delta >= self.target - self.elapsed {
                self.skip_to_next();
            } else {
                self.elapsed = self.elapsed + delta;
            }
        }
        self.remaining_time_display()
    }

    /// The label and style of the button that starts or pauses the timer:
    /// `Go` while paused, `Pause` while running.
    pub fn toggle_control(&self) -> (r: (&'static str, Button))
        ensures
            self@.run is Idle ==> r.0@ == "Go"@ && r.1 == Button::Primary,
            self@.run is Ticking ==> r.0@ == "Pause"@ && r.1 == Button::Destructive,
    {
        match self.run {
            RunState::Idle => ("Go", Button::Primary),
            RunState::Ticking { .. } => ("Pause", Button::Destructive),
        }
    }
}

impl Default for TimerEngine {
    /// A paused timer with the default phase lengths: 25 minutes of work,
    /// 5 of short rest, 20 of long rest.
    fn default() -> (r: TimerEngine)
        ensures
            r@.wf(),
            r@ == TimerModel::initial(
                (DEFAULT_WORK_MINUTES * MILLIS_PER_MINUTE) as nat,
                (DEFAULT_SHORT_REST_MINUTES * MILLIS_PER_MINUTE) as nat,
                (DEFAULT_LONG_REST_MINUTES * MILLIS_PER_MINUTE) as nat,
            ),
    {
        TimerEngine::new(
            DEFAULT_WORK_MINUTES * MILLIS_PER_MINUTE,
            DEFAULT_SHORT_REST_MINUTES * MILLIS_PER_MINUTE,
            DEFAULT_LONG_REST_MINUTES * MILLIS_PER_MINUTE,
        )
    }
}

} // verus!
