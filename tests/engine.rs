use rumodoro::{format_clock, Button, Phase, RunState, TimerEngine};

const MIN: u64 = 60_000;

fn standard() -> TimerEngine {
    TimerEngine::new(25 * MIN, 5 * MIN, 20 * MIN)
}

#[test]
fn new_engine_starts_paused_in_work() {
    let e = standard();
    assert_eq!(e.phase(), Phase::Work);
    assert_eq!(e.run_state(), RunState::Idle);
    assert_eq!(e.elapsed(), 0);
    assert_eq!(e.rest_count(), 0);
    assert_eq!(e.phase_target(), 25 * MIN);
    assert_eq!(e.remaining_time_display(), "25:00");
}

#[test]
fn default_engine_uses_standard_lengths() {
    let mut e = TimerEngine::default();
    assert_eq!(e.phase_target(), 25 * MIN);
    e.skip_to_next();
    assert_eq!(e.phase_target(), 5 * MIN);
    e.skip_to_next();
    e.skip_to_next();
    e.skip_to_next();
    e.skip_to_next();
    e.skip_to_next();
    e.skip_to_next();
    assert_eq!(e.phase(), Phase::LongRest);
    assert_eq!(e.phase_target(), 20 * MIN);
}

#[test]
fn from_minutes_converts_to_millis() {
    let e = TimerEngine::from_minutes(50, 10, 30).unwrap();
    assert_eq!(e.phase_target(), 50 * MIN);
    assert_eq!(e.remaining_time_display(), "50:00");
}

#[test]
fn from_minutes_rejects_zero_length() {
    assert!(TimerEngine::from_minutes(0, 5, 20).is_none());
    assert!(TimerEngine::from_minutes(25, 0, 20).is_none());
    assert!(TimerEngine::from_minutes(25, 5, 0).is_none());
}

#[test]
fn from_minutes_rejects_overflowing_length() {
    let limit = u64::MAX / MIN;
    assert!(TimerEngine::from_minutes(limit, 5, 20).is_some());
    assert!(TimerEngine::from_minutes(limit + 1, 5, 20).is_none());
    assert!(TimerEngine::from_minutes(25, u64::MAX, 20).is_none());
}

#[test]
fn full_cycle_driven_by_ticks() {
    let mut e = standard();
    let mut t: u64 = 1_000;
    e.toggle(t);
    assert_eq!(e.run_state(), RunState::Ticking { last_tick: t });
    for round in 1..=3u8 {
        t += 25 * MIN;
        assert_eq!(e.tick(t), "5:00");
        assert_eq!(e.phase(), Phase::ShortRest);
        assert_eq!(e.rest_count(), round);
        assert_eq!(e.elapsed(), 0);
        t += 5 * MIN;
        assert_eq!(e.tick(t), "25:00");
        assert_eq!(e.phase(), Phase::Work);
    }
    t += 25 * MIN;
    assert_eq!(e.tick(t), "20:00");
    assert_eq!(e.phase(), Phase::LongRest);
    assert_eq!(e.rest_count(), 0);
    t += 20 * MIN;
    assert_eq!(e.tick(t), "25:00");
    assert_eq!(e.phase(), Phase::Work);
    assert_eq!(e.rest_count(), 0);
}

#[test]
fn skip_discards_partial_work() {
    let mut e = standard();
    e.toggle(0);
    assert_eq!(e.tick(12 * MIN), "13:00");
    assert_eq!(e.elapsed(), 12 * MIN);
    e.skip_to_next();
    assert_eq!(e.phase(), Phase::ShortRest);
    assert_eq!(e.elapsed(), 0);
    assert_eq!(e.rest_count(), 1);
    assert_eq!(e.run_state(), RunState::Ticking { last_tick: 12 * MIN });
    assert_eq!(e.remaining_time_display(), "5:00");
}

#[test]
fn skip_while_paused_stays_paused() {
    let mut e = standard();
    e.skip_to_next();
    assert_eq!(e.phase(), Phase::ShortRest);
    assert_eq!(e.run_state(), RunState::Idle);
    e.skip_to_next();
    assert_eq!(e.phase(), Phase::Work);
    assert_eq!(e.rest_count(), 1);
}

#[test]
fn tick_exactly_at_target_advances() {
    let mut e = standard();
    e.toggle(100);
    e.tick(100 + 25 * MIN - 1);
    assert_eq!(e.phase(), Phase::Work);
    assert_eq!(e.elapsed(), 25 * MIN - 1);
    assert_eq!(e.remaining_time_display(), "0:00");
    e.tick(100 + 25 * MIN);
    assert_eq!(e.phase(), Phase::ShortRest);
    assert_eq!(e.elapsed(), 0);
}

#[test]
fn tick_past_target_advances_once() {
    let mut e = standard();
    e.toggle(0);
    assert_eq!(e.tick(40 * MIN), "5:00");
    assert_eq!(e.phase(), Phase::ShortRest);
    assert_eq!(e.rest_count(), 1);
}

#[test]
fn tick_while_paused_changes_nothing() {
    let mut e = standard();
    assert_eq!(e.tick(10 * MIN), "25:00");
    assert_eq!(e.elapsed(), 0);
    assert_eq!(e.run_state(), RunState::Idle);
}

#[test]
fn repeated_tick_is_no_op() {
    let mut e = standard();
    e.toggle(0);
    let first = e.tick(90_500);
    let (phase, elapsed, state) = (e.phase(), e.elapsed(), e.run_state());
    let second = e.tick(90_500);
    assert_eq!(first, "23:29");
    assert_eq!(first, second);
    assert_eq!(e.phase(), phase);
    assert_eq!(e.elapsed(), elapsed);
    assert_eq!(e.run_state(), state);
}

#[test]
fn tick_before_last_tick_counts_nothing() {
    let mut e = standard();
    e.toggle(10 * MIN);
    e.tick(11 * MIN);
    assert_eq!(e.elapsed(), MIN);
    e.tick(5 * MIN);
    assert_eq!(e.elapsed(), MIN);
    assert_eq!(e.run_state(), RunState::Ticking { last_tick: 5 * MIN });
}

#[test]
fn elapsed_stays_below_target_over_many_ticks() {
    let mut e = TimerEngine::new(7_000, 3_000, 5_000);
    e.toggle(0);
    let mut t: u64 = 0;
    for step in 0..200u64 {
        t += (step * 37) % 2_900;
        e.tick(t);
        assert!(e.elapsed() < e.phase_target());
        assert!(e.rest_count() < 4);
    }
}

#[test]
fn toggle_twice_restores_run_state() {
    let mut e = standard();
    e.toggle(5);
    e.toggle(9);
    assert_eq!(e.run_state(), RunState::Idle);
    e.toggle(20);
    e.tick(20 + 3 * MIN);
    e.toggle(20 + 4 * MIN);
    assert_eq!(e.run_state(), RunState::Idle);
    assert_eq!(e.elapsed(), 3 * MIN);
    e.toggle(20 + 3 * MIN);
    assert_eq!(e.run_state(), RunState::Ticking { last_tick: 20 + 3 * MIN });
    assert_eq!(e.elapsed(), 3 * MIN);
}

#[test]
fn paused_time_is_not_counted() {
    let mut e = standard();
    e.toggle(0);
    e.tick(MIN);
    e.toggle(MIN);
    e.tick(10 * MIN);
    e.toggle(10 * MIN);
    e.tick(11 * MIN);
    assert_eq!(e.elapsed(), 2 * MIN);
    assert_eq!(e.remaining_time_display(), "23:00");
}

#[test]
fn reset_shows_full_phase() {
    let mut e = standard();
    e.toggle(0);
    e.tick(25 * MIN);
    e.tick(25 * MIN + 61_000);
    assert_eq!(e.remaining_time_display(), "3:59");
    e.reset();
    assert_eq!(e.elapsed(), 0);
    assert_eq!(e.phase(), Phase::ShortRest);
    assert_eq!(e.rest_count(), 1);
    assert_eq!(e.remaining_time_display(), "5:00");
    assert_eq!(e.run_state(), RunState::Ticking { last_tick: 25 * MIN + 61_000 });
}

#[test]
fn remaining_counts_down() {
    let mut e = standard();
    e.toggle(0);
    e.tick(1_234);
    assert_eq!(e.remaining(), 25 * MIN - 1_234);
    assert_eq!(e.remaining_time_display(), "24:58");
}

#[test]
fn clock_format_pads_seconds() {
    assert_eq!(format_clock(0), "0:00");
    assert_eq!(format_clock(5_000), "0:05");
    assert_eq!(format_clock(5_999), "0:05");
    assert_eq!(format_clock(1_499_000), "24:59");
    assert_eq!(format_clock(25 * MIN), "25:00");
    assert_eq!(format_clock(125 * MIN + 10_000), "125:10");
    assert_eq!(format_clock(u64::MAX), "307445734561825:51");
}

#[test]
fn phase_names() {
    assert_eq!(Phase::Work.name(), "Work");
    assert_eq!(Phase::ShortRest.name(), "ShortRest");
    assert_eq!(Phase::LongRest.name(), "LongRest");
}

#[test]
fn toggle_control_follows_run_state() {
    let mut e = standard();
    assert_eq!(e.toggle_control(), ("Go", Button::Primary));
    e.toggle(0);
    assert_eq!(e.toggle_control(), ("Pause", Button::Destructive));
}
