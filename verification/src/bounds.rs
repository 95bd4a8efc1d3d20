//! The interfaces' controls for the day and night bounds: the window every
//! slider, arrow key and curve drag offers, and how a step or a drag is
//! held inside it.
//!
//! Bounds are held by a `min` then a `max` rather than a `clamp`, because a
//! hand-written config can cross them and a clamp with crossed ends panics.
//! The order names the winner: the schedule's ordering (day at or above
//! night) outranks a control's own floor and ceiling.

use vstd::prelude::*;

verus! {

/// The coolest a control offers (the lower end of the temperature axis).
pub const UI_TEMPERATURE_MIN: u32 = 1500;

/// The warmest-to-bluest a control offers: every control stops at 10000 K.
pub const UI_TEMPERATURE_MAX: u32 = 10000;

/// The floor of a daytime drag on the curve, the same as the day slider's.
pub const DAY_FLOOR: u32 = 4000;

/// The ceiling of a night drag on the curve, the same as the night slider's.
pub const NIGHT_CEIL: u32 = 4500;

/// One arrow press on a temperature bound, in kelvin.
pub const NIGHT_STEP: u32 = 100;

/// The larger of two temperatures.
pub open spec fn max_k(a: u32, b: u32) -> u32 {
    if a >= b {
        a
    } else {
        b
    }
}

/// The smaller of two temperatures.
pub open spec fn min_k(a: u32, b: u32) -> u32 {
    if a <= b {
        a
    } else {
        b
    }
}

/// Where a plateau drag lands the daytime bound: no higher than the axis,
/// no lower than the day floor or the night bound.
pub open spec fn spec_held_day_temp(kelvin: u32, night_temp: u32) -> u32 {
    max_k(min_k(kelvin, UI_TEMPERATURE_MAX), max_k(night_temp, DAY_FLOOR))
}

/// Where a plateau drag lands the night bound: no lower than the axis, no
/// higher than the night ceiling or the day bound.
pub open spec fn spec_held_night_temp(kelvin: u32, day_temp: u32) -> u32 {
    min_k(max_k(kelvin, UI_TEMPERATURE_MIN), min_k(day_temp, NIGHT_CEIL))
}

/// One step of a bound, saturating at the ends of `u32`.
pub open spec fn stepped(kelvin: u32, increase: bool) -> u32 {
    if increase {
        if kelvin as int + NIGHT_STEP as int > u32::MAX as int {
            u32::MAX
        } else {
            (kelvin + NIGHT_STEP) as u32
        }
    } else {
        if kelvin < NIGHT_STEP {
            0
        } else {
            (kelvin - NIGHT_STEP) as u32
        }
    }
}

/// An arrow press on the daytime bound: one step, no higher than the top of
/// the window, never below the night bound.
pub open spec fn spec_nudged_day_temp(day_temp: u32, night_temp: u32, increase: bool) -> u32 {
    max_k(min_k(stepped(day_temp, increase), UI_TEMPERATURE_MAX), night_temp)
}

/// An arrow press on the night bound: one step, no lower than the bottom of
/// the window, never above the daytime bound.
pub open spec fn spec_nudged_night_temp(night_temp: u32, day_temp: u32, increase: bool) -> u32 {
    min_k(max_k(stepped(night_temp, increase), UI_TEMPERATURE_MIN), day_temp)
}

/// The next index in a ring of `count` (the themes, the tabs), forwards or
/// backwards.
pub open spec fn spec_cycled(index: nat, count: nat, forward: bool) -> nat
    recommends
        count > 0,
{
    if forward {
        (index + 1) % count
    } else {
        ((index + count - 1) as nat) % count
    }
}

/// One step of a bound, saturating.
fn step_kelvin(kelvin: u32, increase: bool) -> (k: u32)
    ensures
        k == stepped(kelvin, increase),
{
    if increase {
        kelvin.saturating_add(NIGHT_STEP)
    } else {
        kelvin.saturating_sub(NIGHT_STEP)
    }
}

/// Where a plateau drag lands the daytime temperature (already rounded to
/// whole kelvin): floored where the day slider floors and never below the
/// night bound; ceilinged where the axis is.
pub fn held_day_temp(kelvin: u32, night_temp: u32) -> (k: u32)
    ensures
        k == spec_held_day_temp(kelvin, night_temp),
{
    let top = if kelvin <= UI_TEMPERATURE_MAX {
        kelvin
    } else {
        UI_TEMPERATURE_MAX
    };
    let floor = if night_temp >= DAY_FLOOR {
        night_temp
    } else {
        DAY_FLOOR
    };
    if top >= floor {
        top
    } else {
        floor
    }
}

/// The same for the lower plateau, held under the day bound.
pub fn held_night_temp(kelvin: u32, day_temp: u32) -> (k: u32)
    ensures
        k == spec_held_night_temp(kelvin, day_temp),
{
    let bottom = if kelvin >= UI_TEMPERATURE_MIN {
        kelvin
    } else {
        UI_TEMPERATURE_MIN
    };
    let ceiling = if day_temp <= NIGHT_CEIL {
        day_temp
    } else {
        NIGHT_CEIL
    };
    if bottom <= ceiling {
        bottom
    } else {
        ceiling
    }
}

/// An arrow press on the daytime bound.
pub fn nudged_day_temp(day_temp: u32, night_temp: u32, increase: bool) -> (k: u32)
    ensures
        k == spec_nudged_day_temp(day_temp, night_temp, increase),
{
    let stepped = step_kelvin(day_temp, increase);
    let capped = if stepped <= UI_TEMPERATURE_MAX {
        stepped
    } else {
        UI_TEMPERATURE_MAX
    };
    if capped >= night_temp {
        capped
    } else {
        night_temp
    }
}

/// An arrow press on the night bound.
pub fn nudged_night_temp(night_temp: u32, day_temp: u32, increase: bool) -> (k: u32)
    ensures
        k == spec_nudged_night_temp(night_temp, day_temp, increase),
{
    let stepped = step_kelvin(night_temp, increase);
    let floored = if stepped >= UI_TEMPERATURE_MIN {
        stepped
    } else {
        UI_TEMPERATURE_MIN
    };
    if floored <= day_temp {
        floored
    } else {
        day_temp
    }
}

/// The index after `index` in a ring of `count`, forwards or backwards: the
/// next theme for `T` and a settings arrow, the next tab for tab and
/// shift-tab.
pub fn cycled(index: usize, count: usize, forward: bool) -> (r: usize)
    requires
        count > 0,
        index <= usize::MAX - count,
    ensures
        r == spec_cycled(index as nat, count as nat, forward),
        r < count,
{
    if forward {
        (index + 1) % count
    } else {
        (index + count - 1) % count
    }
}

/// A drag never inverts the schedule: the daytime plateau lands at or above
/// the night bound, the night plateau at or below the day bound, and
/// inside the axis whenever the other bound is.
pub proof fn lemma_drags_keep_the_schedule_ordered(kelvin: u32, night_temp: u32, day_temp: u32)
    ensures
        spec_held_day_temp(kelvin, night_temp) >= night_temp,
        spec_held_day_temp(kelvin, night_temp) >= DAY_FLOOR,
        night_temp <= UI_TEMPERATURE_MAX ==> spec_held_day_temp(kelvin, night_temp)
            <= UI_TEMPERATURE_MAX,
        spec_held_night_temp(kelvin, day_temp) <= day_temp,
        spec_held_night_temp(kelvin, day_temp) <= NIGHT_CEIL,
        day_temp >= UI_TEMPERATURE_MIN ==> spec_held_night_temp(kelvin, day_temp)
            >= UI_TEMPERATURE_MIN,
{
}

/// Raising a drag never lowers where it lands.
pub proof fn lemma_drags_are_monotone(a: u32, b: u32, other: u32)
    requires
        a <= b,
    ensures
        spec_held_day_temp(a, other) <= spec_held_day_temp(b, other),
        spec_held_night_temp(a, other) <= spec_held_night_temp(b, other),
{
}

/// An arrow press keeps the pair ordered — the daytime bound never drops
/// under the night bound, the night bound never rises over the day bound —
/// and stops at the ends of the window whenever the other bound is inside
/// it: every control stops at 10000 K.
pub proof fn lemma_nudges_keep_the_pair_ordered(day_temp: u32, night_temp: u32, increase: bool)
    ensures
        spec_nudged_day_temp(day_temp, night_temp, increase) >= night_temp,
        spec_nudged_night_temp(night_temp, day_temp, increase) <= day_temp,
        night_temp <= UI_TEMPERATURE_MAX ==> spec_nudged_day_temp(day_temp, night_temp, increase)
            <= UI_TEMPERATURE_MAX,
        day_temp >= UI_TEMPERATURE_MIN ==> spec_nudged_night_temp(night_temp, day_temp, increase)
            >= UI_TEMPERATURE_MIN,
{
}

/// Opposite presses cancel away from the ends: a night bound a step or more
/// under the day bound, inside the window, comes back to itself after one
/// press up and one down.
pub proof fn lemma_opposite_presses_cancel(night_temp: u32, day_temp: u32)
    requires
        UI_TEMPERATURE_MIN <= night_temp,
        night_temp + NIGHT_STEP <= day_temp,
    ensures
        spec_nudged_night_temp(
            spec_nudged_night_temp(night_temp, day_temp, true),
            day_temp,
            false,
        ) == night_temp,
{
}

/// Cycling forwards then backwards returns to where it started.
pub proof fn lemma_cycling_back_returns(index: nat, count: nat)
    requires
        index < count,
    ensures
        spec_cycled(spec_cycled(index, count, true), count, false) == index,
{
    let n = spec_cycled(index, count, true);
    if index + 1 < count {
        vstd::arithmetic::div_mod::lemma_small_mod(index + 1, count);
        vstd::arithmetic::div_mod::lemma_small_mod(index, count);
        assert(n == index + 1);
        assert(((n + count - 1) as nat) == index + count);
        vstd::arithmetic::div_mod::lemma_mod_add_multiples_vanish(index as int, count as int);
    } else {
        vstd::arithmetic::div_mod::lemma_mod_self_0(count as int);
        assert(n == 0);
        vstd::arithmetic::div_mod::lemma_small_mod((count - 1) as nat, count);
    }
}

/// What a drag on the curve took hold of, chosen when the gesture starts
/// and held until it ends, so the handle never changes under the hand.
#[derive(Clone, Copy, Debug, PartialEq, Eq, Structural)]
pub enum Handle {
    /// The upper plateau: the daytime temperature.
    DayLevel,
    /// The lower plateau: the night temperature.
    NightLevel,
    /// A ramp's upper half: the elevation at which full day begins.
    DayBound,
    /// A ramp's lower half: the elevation at which full night begins.
    NightBound,
}

/// What a drag on the curve proposes: a temperature bound, or moving one of
/// the band's elevation bounds to where the pointer's hour puts the sun
/// (an elevation the caller works out).
#[derive(Clone, Copy, Debug, PartialEq, Eq, Structural)]
pub enum CurveEdit {
    DayTemp(u32),
    NightTemp(u32),
    Band { day: bool },
}

/// One frame of pointer input over the curve.
#[derive(Clone, Copy, Debug, PartialEq, Eq, Structural)]
pub struct Drag {
    /// A drag began this frame.
    pub started: bool,
    /// The drag ended this frame.
    pub stopped: bool,
    /// The handle under the pointer, if any.
    pub hovered: Option<Handle>,
    /// The temperature under the pointer, in whole kelvin, while the
    /// pointer is pressed on the curve.
    pub pointer_kelvin: Option<u32>,
}

/// The edit a held handle proposes with the pointer at `kelvin`.
pub open spec fn edit_for(handle: Handle, kelvin: u32, day_temp: u32, night_temp: u32) -> CurveEdit {
    match handle {
        Handle::DayLevel => CurveEdit::DayTemp(spec_held_day_temp(kelvin, night_temp)),
        Handle::NightLevel => CurveEdit::NightTemp(spec_held_night_temp(kelvin, day_temp)),
        Handle::DayBound => CurveEdit::Band { day: true },
        Handle::NightBound => CurveEdit::Band { day: false },
    }
}

/// One frame of the curve as a control: nothing happens until a location
/// is known; a drag takes hold of the handle under the pointer when it
/// starts and keeps it until it stops, so the handle never changes under
/// the hand; while held with the pointer pressed, the handle proposes its
/// edit.
pub open spec fn spec_drag_step(located: bool, held: Option<Handle>, drag: Drag, day_temp: u32, night_temp: u32) -> (
    Option<Handle>,
    Option<CurveEdit>,
) {
    if !located {
        (held, None)
    } else {
        let h = if drag.started { drag.hovered } else { held };
        let edit = match (h, drag.pointer_kelvin) {
            (Some(handle), Some(k)) => Some(edit_for(handle, k, day_temp, night_temp)),
            _ => None,
        };
        (if drag.stopped { None } else { h }, edit)
    }
}

/// One frame of the curve as a control: the handle held after the frame,
/// and the edit the frame proposes.
pub fn drag_step(located: bool, held: Option<Handle>, drag: Drag, day_temp: u32, night_temp: u32) -> (r: (
    Option<Handle>,
    Option<CurveEdit>,
))
    ensures
        r == spec_drag_step(located, held, drag, day_temp, night_temp),
{
    if !located {
        return (held, None);
    }
    let h = if drag.started { drag.hovered } else { held };
    let edit = match (h, drag.pointer_kelvin) {
        (Some(handle), Some(k)) => Some(match handle {
            Handle::DayLevel => CurveEdit::DayTemp(held_day_temp(k, night_temp)),
            Handle::NightLevel => CurveEdit::NightTemp(held_night_temp(k, day_temp)),
            Handle::DayBound => CurveEdit::Band { day: true },
            Handle::NightBound => CurveEdit::Band { day: false },
        }),
        _ => None,
    };
    (if drag.stopped { None } else { h }, edit)
}

/// The curve proposes nothing before a location is known, and what it
/// proposes after never runs the schedule backwards: a daytime plateau at
/// or above the night bound and the day floor, and under the axis's top
/// when the night bound is; a night plateau at or below the day bound and
/// the night ceiling, and over the axis's bottom when the day bound is; a
/// band edit only from a held ramp handle, for the bound that handle
/// belongs to.
pub proof fn lemma_the_curve_never_runs_the_schedule_backwards(
    located: bool,
    held: Option<Handle>,
    drag: Drag,
    day_temp: u32,
    night_temp: u32,
)
    ensures
        ({
            let (h, edit) = spec_drag_step(located, held, drag, day_temp, night_temp);
            &&& !located ==> h == held && edit is None
            &&& edit matches Some(CurveEdit::DayTemp(k)) ==> k >= night_temp && k >= DAY_FLOOR
                && (night_temp <= UI_TEMPERATURE_MAX ==> k <= UI_TEMPERATURE_MAX)
            &&& edit matches Some(CurveEdit::NightTemp(k)) ==> k <= day_temp && k <= NIGHT_CEIL
                && (day_temp >= UI_TEMPERATURE_MIN ==> k >= UI_TEMPERATURE_MIN)
            &&& edit matches Some(CurveEdit::Band { day }) ==> (if drag.started { drag.hovered } else { held })
                == Some(if day { Handle::DayBound } else { Handle::NightBound })
        }),
{
    if let Some(k) = drag.pointer_kelvin {
        lemma_drags_keep_the_schedule_ordered(k, night_temp, day_temp);
    }
}

} // verus!
