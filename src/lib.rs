//! A Pomodoro interval timer engine.
//!
//! The engine alternates work phases with short and long rests, counts elapsed
//! time from the timestamps its host feeds it, moves to the next phase when the
//! current one runs out, and renders the time left as `minutes:seconds`.

mod button;
mod clock_text;
mod engine;
mod laws;
mod model;
mod phase;

pub use button::Button;
pub use clock_text::{format_clock, MILLIS_PER_MINUTE, MILLIS_PER_SECOND};
pub use engine::{
    TimerEngine, DEFAULT_LONG_REST_MINUTES, DEFAULT_SHORT_REST_MINUTES, DEFAULT_WORK_MINUTES,
};
pub use laws::{
    advanced_by, lemma_reset_shows_full_phase, lemma_rest_cycle,
    lemma_tick_idempotent, lemma_tick_keeps_wf, lemma_tick_reaching_target_advances,
    lemma_ticks_stay_within_phase, lemma_toggle_twice,
};
pub use model::{RunState, TimerModel, WORK_PHASES_PER_CYCLE};
pub use phase::Phase;
