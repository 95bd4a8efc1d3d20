use std::time::Duration;

use nightlightd::screen::{LoopClock, SETTLE_WINDOW_NANOS, TICK_INTERVAL_NANOS};
use nightlightd::screen::{
    classify, intent_for, fade_step, poll_timeout, FadeStep, Found, InFlight, Intent, FADE_TICK_NANOS,
    SETTLE_INTERVAL_NANOS,
};

fn intent(moving: bool, settled: bool) -> Intent {
    Intent { moving, changed: moving, settled }
}

fn nanos(duration: Duration) -> u64 {
    duration.as_nanos() as u64
}

#[test]
fn a_difference_is_only_a_wipe_when_nobody_asked_for_it() {
    for moving in [true, false] {
        for settled in [true, false] {
            assert_eq!(
                classify(true, intent(moving, settled)),
                Found::Unchanged,
                "moving={moving} settled={settled}"
            );
        }
    }
    assert_eq!(classify(false, intent(true, true)), Found::Applying);
    assert_eq!(classify(false, intent(false, false)), Found::Applying);
    assert_eq!(classify(false, intent(false, true)), Found::Wiped);
}

#[test]
fn settling_caps_the_poll_timeout_but_never_extends_it() {
    let tick_remaining = nanos(Duration::from_secs(42));
    assert_eq!(poll_timeout(tick_remaining, false, false), tick_remaining);
    assert_eq!(poll_timeout(tick_remaining, true, false), SETTLE_INTERVAL_NANOS);
    let almost_due = nanos(Duration::from_millis(200));
    assert_eq!(poll_timeout(almost_due, true, false), almost_due);
}

#[test]
fn fading_caps_the_poll_timeout_hardest() {
    let tick_remaining = nanos(Duration::from_secs(42));
    assert_eq!(poll_timeout(tick_remaining, false, true), FADE_TICK_NANOS);
    assert_eq!(poll_timeout(tick_remaining, true, true), FADE_TICK_NANOS);
    let almost_due = nanos(Duration::from_millis(20));
    assert_eq!(poll_timeout(almost_due, true, true), almost_due);
}

#[test]
fn the_intervals_are_a_second_and_fifty_milliseconds() {
    assert_eq!(SETTLE_INTERVAL_NANOS, nanos(Duration::from_secs(1)));
    assert_eq!(FADE_TICK_NANOS, nanos(Duration::from_millis(50)));
}

#[test]
fn the_switch_off_kills_walks_present_and_future() {
    assert_eq!(fade_step(None, false, true), FadeStep::Stop);
    let walking = InFlight { headed_to_desired: true, arrived: false };
    assert_eq!(fade_step(Some(walking), false, true), FadeStep::Stop);
}

#[test]
fn the_switch_on_runs_the_walk_lifecycle() {
    assert_eq!(fade_step(None, true, true), FadeStep::Start);
    let walking = InFlight { headed_to_desired: true, arrived: false };
    assert_eq!(fade_step(Some(walking), true, true), FadeStep::Continue);
    let turned = InFlight { headed_to_desired: false, arrived: false };
    assert_eq!(fade_step(Some(turned), true, true), FadeStep::Retarget);
    let arrived = InFlight { headed_to_desired: true, arrived: true };
    assert_eq!(fade_step(Some(arrived), true, false), FadeStep::Stop);
    // Applied equals desired and nothing in flight: nothing to walk.
    assert_eq!(fade_step(None, true, false), FadeStep::Stop);
}

#[test]
fn equal_targets_are_no_fade() {
    assert_eq!(fade_step(None, true, false), FadeStep::Stop);
    assert_eq!(fade_step(None, false, false), FadeStep::Stop);
}

#[test]
fn a_write_knows_whether_it_is_an_arrival() {
    let step = intent_for(true, true, true);
    assert_eq!(step, Intent { moving: true, changed: false, settled: true });
    let arrival = intent_for(true, false, false);
    assert_eq!(arrival, Intent { moving: true, changed: true, settled: false });
    let idle = intent_for(false, false, true);
    assert_eq!(classify(false, idle), Found::Wiped);
}

#[test]
fn the_loop_waits_a_minute_at_rest_and_a_second_while_settling() {
    let second = nanos(Duration::from_secs(1));
    let start = 1_000 * second;
    let clock = LoopClock::start(start);
    assert_eq!(clock.wait(start, false), TICK_INTERVAL_NANOS);
    assert_eq!(clock.wait(start + 42 * second, false), 18 * second);
    assert_eq!(clock.wait(start + 42 * second, true), FADE_TICK_NANOS);
    // A screen change arms fifteen seconds of fast polling.
    let changed = clock.after_wake(start + 10 * second, true, false);
    assert_eq!(changed.settle_until, Some(start + 10 * second + SETTLE_WINDOW_NANOS));
    assert_eq!(changed.last_tick, start);
    assert_eq!(changed.wait(start + 11 * second, false), second);
    assert_eq!(changed.wait(start + 24 * second, false), second);
    // Past the window, back to the tick.
    assert_eq!(changed.wait(start + 25 * second, false), 35 * second);
    // A resume arms it just the same.
    let resumed = clock.after_wake(start + 30 * second, false, true);
    assert_eq!(resumed.wait(start + 31 * second, false), second);
}

#[test]
fn a_due_tick_starts_the_next_one() {
    let second = nanos(Duration::from_secs(1));
    let clock = LoopClock::start(0);
    let early = clock.after_wake(59 * second, false, false);
    assert_eq!(early, clock);
    let due = clock.after_wake(61 * second, false, false);
    assert_eq!(due.last_tick, 61 * second);
    assert_eq!(due.wait(61 * second, false), TICK_INTERVAL_NANOS);
    assert_eq!(clock.wait(90 * second, false), 0);
}
