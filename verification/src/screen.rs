//! The decisions of the daemon's screen loop: how long to sleep, whether a
//! ramp found on a CRTC is ours or was taken from us, and what to do with a
//! fade in flight. The X server is spoken to elsewhere; these are the rules.

use vstd::prelude::*;

verus! {

/// One active CRTC (a screen in XRandR terms) and the size of its gamma
/// ramp.
#[derive(Clone, Copy, Debug, PartialEq, Eq, Structural)]
pub struct CrtcInfo {
    /// The XRandR CRTC identifier.
    pub crtc: u32,
    /// Number of entries in this CRTC's gamma ramp, per channel.
    pub gamma_size: u16,
}

/// What the caller knows about a write, which is what lets a difference
/// found on the screen be read as ours or as somebody else's.
#[derive(Clone, Copy, Debug, PartialEq, Eq, Structural)]
pub struct Intent {
    /// The ramp about to be written differs from the one last written, so a
    /// difference on the screen is ours.
    pub moving: bool,
    /// Worth an info line rather than a debug one: an arrival, not a step.
    pub changed: bool,
    /// We have written to this screen before.
    pub settled: bool,
}

/// What a tick found on a CRTC.
#[derive(Clone, Copy, Debug, PartialEq, Eq, Structural)]
pub enum Found {
    /// The screen already carries this exact ramp; nothing to write.
    Unchanged,
    /// A difference we asked for.
    Applying,
    /// A difference nobody asked for, on a screen already written to:
    /// something else took the ramp between ticks.
    Wiped,
}

/// How long the poll waits while the layout is settling after a screen
/// change or a resume, in nanoseconds (one second).
pub const SETTLE_INTERVAL_NANOS: u64 = 1_000_000_000;

/// How long the poll waits while a fade is walking, in nanoseconds (50 ms).
pub const FADE_TICK_NANOS: u64 = 50_000_000;

/// The smaller of two spans.
pub open spec fn min_nanos(a: u64, b: u64) -> u64 {
    if a <= b {
        a
    } else {
        b
    }
}

/// The poll timeout: the time left until the next tick, capped at the
/// settle interval while settling and at the fade tick while fading.
pub open spec fn spec_poll_timeout(tick_remaining: u64, settling: bool, fading: bool) -> u64 {
    let t = if settling {
        min_nanos(tick_remaining, SETTLE_INTERVAL_NANOS)
    } else {
        tick_remaining
    };
    if fading {
        min_nanos(t, FADE_TICK_NANOS)
    } else {
        t
    }
}

/// Reads what was found on the screen against what we meant to put there:
/// a match is a write to skip; a difference is ours when we are moving or
/// have never written here, and a wipe otherwise.
pub open spec fn spec_classify(matches: bool, intent: Intent) -> Found {
    if matches {
        Found::Unchanged
    } else if intent.moving || !intent.settled {
        Found::Applying
    } else {
        Found::Wiped
    }
}

/// The poll timeout, in nanoseconds: the time left until the next tick,
/// capped at [`SETTLE_INTERVAL_NANOS`] while the layout is settling, so a
/// silent gamma reset is overwritten within a second, and capped harder at
/// [`FADE_TICK_NANOS`] while a fade is walking. Never longer than the time
/// left to the tick.
pub fn poll_timeout(tick_remaining: u64, settling: bool, fading: bool) -> (t: u64)
    ensures
        t == spec_poll_timeout(tick_remaining, settling, fading),
{
    let mut timeout = tick_remaining;
    if settling && SETTLE_INTERVAL_NANOS < timeout {
        timeout = SETTLE_INTERVAL_NANOS;
    }
    if fading && FADE_TICK_NANOS < timeout {
        timeout = FADE_TICK_NANOS;
    }
    timeout
}

/// Reads what was found on a CRTC against what we meant to put there.
pub fn classify(matches: bool, intent: Intent) -> (f: Found)
    ensures
        f == spec_classify(matches, intent),
{
    if matches {
        Found::Unchanged
    } else if intent.moving || !intent.settled {
        Found::Applying
    } else {
        Found::Wiped
    }
}

/// What a write knows about itself: it is moving when the target differs
/// from what was last applied; it is worth an info line only when it moves
/// and no fade is walking (an arrival, not a step); and it is settled once
/// this daemon has written to the screens at all.
pub fn intent_for(moving: bool, fading: bool, written_before: bool) -> (i: Intent)
    ensures
        i == (Intent { moving, changed: moving && !fading, settled: written_before }),
{
    Intent { moving, changed: moving && !fading, settled: written_before }
}

/// A fade in flight, as the loop sees it this wake.
#[derive(Clone, Copy, Debug, PartialEq, Eq, Structural)]
pub struct InFlight {
    /// The walk is headed exactly where the state now wants the screen.
    pub headed_to_desired: bool,
    /// The walk has arrived.
    pub arrived: bool,
}

/// What to do with the fade this wake.
#[derive(Clone, Copy, Debug, PartialEq, Eq, Structural)]
pub enum FadeStep {
    /// No walk: the next write lands on the destination in one step.
    Stop,
    /// Keep walking as before.
    Continue,
    /// A new destination mid-walk: walk there from the point reached now.
    Retarget,
    /// Nothing in flight: walk from what is applied to what is desired.
    Start,
}

/// The fade decision: with the switch off there is never a walk; a walk
/// headed where the state wants continues until it arrives and is then
/// dropped; a walk headed elsewhere restarts from where it is; and with
/// nothing in flight a walk starts from the applied target, when the state
/// wants the screen somewhere else.
pub open spec fn spec_fade_step(in_flight: Option<InFlight>, enabled: bool, moving: bool) -> FadeStep {
    if !enabled {
        FadeStep::Stop
    } else {
        match in_flight {
            Some(f) => if f.headed_to_desired {
                if f.arrived {
                    FadeStep::Stop
                } else {
                    FadeStep::Continue
                }
            } else {
                FadeStep::Retarget
            },
            None => if moving {
                FadeStep::Start
            } else {
                FadeStep::Stop
            },
        }
    }
}

/// One wake's worth of fade bookkeeping: keeps the walk pointed at what the
/// state wants, and drops it flat when the switch is off. `moving` says
/// that the target the state wants differs from the one last applied.
pub fn fade_step(in_flight: Option<InFlight>, enabled: bool, moving: bool) -> (s: FadeStep)
    ensures
        s == spec_fade_step(in_flight, enabled, moving),
{
    if !enabled {
        return FadeStep::Stop;
    }
    match in_flight {
        Some(f) => if f.headed_to_desired {
            if f.arrived {
                FadeStep::Stop
            } else {
                FadeStep::Continue
            }
        } else {
            FadeStep::Retarget
        },
        None => if moving {
            FadeStep::Start
        } else {
            FadeStep::Stop
        },
    }
}

/// Settling and fading only ever shorten the wait: the timeout is never
/// longer than the time left to the tick, is at most the settle interval
/// while settling and at most the fade tick while fading, and is the full
/// time left when neither applies.
pub proof fn lemma_poll_timeout_caps(tick_remaining: u64, settling: bool, fading: bool)
    ensures
        spec_poll_timeout(tick_remaining, settling, fading) <= tick_remaining,
        settling ==> spec_poll_timeout(tick_remaining, settling, fading) <= SETTLE_INTERVAL_NANOS,
        fading ==> spec_poll_timeout(tick_remaining, settling, fading) <= FADE_TICK_NANOS,
        !settling && !fading ==> spec_poll_timeout(tick_remaining, settling, fading)
            == tick_remaining,
        spec_poll_timeout(tick_remaining, settling, fading) == tick_remaining || spec_poll_timeout(
            tick_remaining,
            settling,
            fading,
        ) == SETTLE_INTERVAL_NANOS || spec_poll_timeout(tick_remaining, settling, fading)
            == FADE_TICK_NANOS,
{
}

/// A difference is only a wipe when nobody asked for it: a matching ramp is
/// never written, and a wipe is reported only for a screen we had written
/// to and were not moving.
pub proof fn lemma_only_an_unasked_difference_is_a_wipe(matches: bool, intent: Intent)
    ensures
        matches ==> spec_classify(matches, intent) == Found::Unchanged,
        spec_classify(matches, intent) == Found::Wiped <==> (!matches && !intent.moving
            && intent.settled),
{
}

/// The switch off kills walks present and future.
pub proof fn lemma_switch_off_stops_every_walk(in_flight: Option<InFlight>, moving: bool)
    ensures
        spec_fade_step(in_flight, false, moving) == FadeStep::Stop,
{
}

/// A change of target eases and a repair does not: with the switch on, a
/// new target starts a walk; when the state wants what was already applied
/// and nothing is walking, no walk starts, so a wiped screen is rewritten
/// in one step.
pub proof fn lemma_changes_ease_and_repairs_do_not(enabled: bool)
    ensures
        spec_fade_step(None, true, true) == FadeStep::Start,
        spec_fade_step(None, enabled, false) == FadeStep::Stop,
{
}

/// How often the loop wakes to re-apply when nothing else wakes it, in
/// nanoseconds (a minute): the tick that follows the sun and heals wipes
/// that fire no event.
pub const TICK_INTERVAL_NANOS: u64 = 60_000_000_000;

/// How long the layout counts as settling after a screen change or a
/// resume, in nanoseconds (fifteen seconds).
pub const SETTLE_WINDOW_NANOS: u64 = 15_000_000_000;

/// The loop's clock, in nanoseconds of a monotonic clock: when the current
/// tick began, and until when the layout is settling.
#[derive(Clone, Copy, Debug, PartialEq, Eq, Structural)]
pub struct LoopClock {
    pub last_tick: u64,
    pub settle_until: Option<u64>,
}

/// The time left until the next tick at `now`.
pub open spec fn tick_remaining(c: LoopClock, now: u64) -> u64 {
    let elapsed = if now >= c.last_tick { (now - c.last_tick) as u64 } else { 0u64 };
    if elapsed >= TICK_INTERVAL_NANOS { 0u64 } else { (TICK_INTERVAL_NANOS - elapsed) as u64 }
}

/// Whether the layout is still settling at `now`.
pub open spec fn settling(c: LoopClock, now: u64) -> bool {
    c.settle_until matches Some(deadline) && now < deadline
}

/// How long the loop waits at `now`.
pub open spec fn spec_wait(c: LoopClock, now: u64, fading: bool) -> u64 {
    spec_poll_timeout(tick_remaining(c, now), settling(c, now), fading)
}

/// The clock after a wake at `now`: a screen change or a resume (re)arms the
/// settling window from now; a tick that has come due starts the next one.
pub open spec fn spec_after_wake(c: LoopClock, now: u64, layout_changed: bool, resumed: bool) -> LoopClock {
    LoopClock {
        last_tick: if tick_remaining(c, now) == 0 { now } else { c.last_tick },
        settle_until: if layout_changed || resumed {
            Some((now + SETTLE_WINDOW_NANOS) as u64)
        } else {
            c.settle_until
        },
    }
}

impl LoopClock {
    /// The clock as the loop starts at `now`: a fresh tick, not settling.
    pub fn start(now: u64) -> (c: LoopClock)
        ensures
            c == (LoopClock { last_tick: now, settle_until: None }),
    {
        LoopClock { last_tick: now, settle_until: None }
    }

    /// How long to wait for an event at `now`, `fading` while a fade walks.
    pub fn wait(&self, now: u64, fading: bool) -> (t: u64)
        ensures
            t == spec_wait(*self, now, fading),
    {
        let elapsed = now.saturating_sub(self.last_tick);
        let remaining = TICK_INTERVAL_NANOS.saturating_sub(elapsed);
        let settling = match self.settle_until {
            Some(deadline) => now < deadline,
            None => false,
        };
        poll_timeout(remaining, settling, fading)
    }

    /// The clock after a wake at `now` on which the screen layout changed,
    /// the machine resumed, or neither.
    pub fn after_wake(&self, now: u64, layout_changed: bool, resumed: bool) -> (c: LoopClock)
        requires
            now <= u64::MAX - SETTLE_WINDOW_NANOS,
        ensures
            c == spec_after_wake(*self, now, layout_changed, resumed),
    {
        let elapsed = now.saturating_sub(self.last_tick);
        let last_tick = if elapsed >= TICK_INTERVAL_NANOS { now } else { self.last_tick };
        let settle_until = if layout_changed || resumed {
            Some(now + SETTLE_WINDOW_NANOS)
        } else {
            self.settle_until
        };
        LoopClock { last_tick, settle_until }
    }
}

/// After a screen change or a resume the loop polls fast for the whole
/// settling window, so a reset that lands seconds later is healed within a
/// second; and it never waits past the tick.
pub proof fn lemma_a_change_settles_for_the_window(c: LoopClock, now: u64, resumed: bool, t: u64, fading: bool)
    requires
        now <= u64::MAX - SETTLE_WINDOW_NANOS,
        now <= t < now + SETTLE_WINDOW_NANOS,
    ensures
        spec_wait(spec_after_wake(c, now, true, resumed), t, fading) <= SETTLE_INTERVAL_NANOS,
        spec_wait(spec_after_wake(c, now, false, true), t, fading) <= SETTLE_INTERVAL_NANOS,
        spec_wait(c, t, fading) <= tick_remaining(c, t),
{
}

/// At rest — not settling, not fading — the loop waits out the whole time
/// left to the tick, and a fresh tick is a full minute.
pub proof fn lemma_at_rest_the_loop_waits_for_the_tick(c: LoopClock, now: u64)
    requires
        !settling(c, now),
    ensures
        spec_wait(c, now, false) == tick_remaining(c, now),
        spec_wait(LoopClock { last_tick: now, ..c }, now, false) == TICK_INTERVAL_NANOS,
{
}

/// A tick restarts only once it has come due.
pub proof fn lemma_the_tick_restarts_only_when_due(c: LoopClock, now: u64, layout_changed: bool, resumed: bool)
    ensures
        spec_after_wake(c, now, layout_changed, resumed).last_tick != c.last_tick ==> tick_remaining(c, now) == 0,
{
}

} // verus!
