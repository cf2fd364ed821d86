use vstd::prelude::*;

use crate::clock_text::clock_text;
use crate::model::{RunState, TimerModel};
use crate::phase::Phase;

verus! {

/// `n` phase changes in a row.
pub open spec fn advanced_by(m: TimerModel, n: nat) -> TimerModel
    decreases n,
{
    if n == 0 {
        m
    } else {
        advanced_by(m, (n - 1) as nat).advanced()
    }
}

/// A tick keeps a well-formed timer well-formed: in particular the elapsed
/// time stays below the phase's length, because a tick that reaches it moves
/// to the next phase at once.
pub proof fn lemma_tick_keeps_wf(m: TimerModel, now: u64)
    requires
        m.wf(),
    ensures
        m.ticked(now).wf(),
        m.ticked(now).elapsed < m.ticked(now).target,
{
}

/// After any run of ticks the elapsed time is below the length of the phase
/// the timer is in.
pub proof fn lemma_ticks_stay_within_phase(m: TimerModel, times: Seq<u64>)
    requires
        m.wf(),
    ensures
        m.ticked_through(times).wf(),
        m.ticked_through(times).elapsed < m.ticked_through(times).target,
    decreases times.len(),
{
    if times.len() > 0 {
        lemma_tick_keeps_wf(m, times[0]);
        lemma_ticks_stay_within_phase(m.ticked(times[0]), times.drop_first());
    }
}

/// From work with no rests taken, the first three work phases each end in a
/// short rest, with the rest count at 1, 2 and 3; the fourth ends in a long
/// rest that sets the count back to 0, and after it the cycle starts over.
pub proof fn lemma_rest_cycle(m: TimerModel)
    requires
        m.wf(),
        m.phase == Phase::Work,
        m.rest_count == 0,
    ensures
        advanced_by(m, 1).phase == Phase::ShortRest,
        advanced_by(m, 1).rest_count == 1,
        advanced_by(m, 2).phase == Phase::Work,
        advanced_by(m, 3).phase == Phase::ShortRest,
        advanced_by(m, 3).rest_count == 2,
        advanced_by(m, 4).phase == Phase::Work,
        advanced_by(m, 5).phase == Phase::ShortRest,
        advanced_by(m, 5).rest_count == 3,
        advanced_by(m, 6).phase == Phase::Work,
        advanced_by(m, 7).phase == Phase::LongRest,
        advanced_by(m, 7).rest_count == 0,
        advanced_by(m, 8) == m.restarted(),
{
    reveal_with_fuel(advanced_by, 9);
}

/// Toggling twice gives back whether the timer runs, and changes nothing
/// else; a paused timer comes back exactly as it was, and so does a running
/// one when the second toggle is at the time of its last tick.
pub proof fn lemma_toggle_twice(m: TimerModel, first: u64, second: u64)
    requires
        m.wf(),
    ensures
        m.toggled(first).toggled(second).wf(),
        (m.toggled(first).toggled(second).run is Idle) == (m.run is Idle),
        m.toggled(first).toggled(second) == (TimerModel {
            run: m.toggled(first).toggled(second).run,
            ..m
        }),
        m.run == RunState::Idle ==> m.toggled(first).toggled(second) == m,
        m.run == (RunState::Ticking { last_tick: second }) ==> m.toggled(first).toggled(second)
            == m,
{
}

/// Right after a reset the display shows the whole length of the phase.
pub proof fn lemma_reset_shows_full_phase(m: TimerModel)
    requires
        m.wf(),
    ensures
        m.restarted().wf(),
        clock_text(m.restarted().remaining()) == clock_text(m.target),
{
}

/// A second tick at the same time changes nothing.
pub proof fn lemma_tick_idempotent(m: TimerModel, now: u64)
    requires
        m.wf(),
    ensures
        m.ticked(now).ticked(now) == m.ticked(now),
{
}

/// A tick that brings the elapsed time up to the phase's length, exactly or
/// beyond, moves to the next phase and starts its clock at zero.
pub proof fn lemma_tick_reaching_target_advances(m: TimerModel, last_tick: u64, now: u64)
    requires
        m.wf(),
        m.run == (RunState::Ticking { last_tick }),
        last_tick <= now,
        m.elapsed + (now - last_tick) >= m.target,
    ensures
        m.ticked(now) == (TimerModel { run: RunState::Ticking { last_tick: now }, ..m }).advanced(),
        m.ticked(now).phase == m.advanced().phase,
        m.ticked(now).rest_count == m.advanced().rest_count,
        m.ticked(now).elapsed == 0,
{
}

} // verus!
