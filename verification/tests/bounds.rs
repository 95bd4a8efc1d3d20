use nightlightd::bounds::{drag_step, CurveEdit, Drag, Handle};
use nightlightd::bounds::{
    cycled, held_day_temp, held_night_temp, nudged_day_temp, nudged_night_temp, DAY_FLOOR,
    NIGHT_CEIL, UI_TEMPERATURE_MAX, UI_TEMPERATURE_MIN,
};

const AXIS_MIN: f32 = UI_TEMPERATURE_MIN as f32;
const AXIS_MAX: f32 = UI_TEMPERATURE_MAX as f32;
const NIGHT_MIN: u32 = UI_TEMPERATURE_MIN;
const DAY_MAX: u32 = UI_TEMPERATURE_MAX;

/// A drag's pointer, in kelvin, rounded the way the curve rounds it.
fn drag(kelvin: f32) -> u32 {
    kelvin.round() as u32
}

#[test]
fn raising_a_bound_never_lowers_its_plateau() {
    let height = |kelvin: u32| (kelvin as f32 - AXIS_MIN) / (AXIS_MAX - AXIS_MIN);
    let mut previous = f32::NEG_INFINITY;
    for kelvin in AXIS_MIN as u32..=AXIS_MAX as u32 {
        let now = height(kelvin);
        assert!(now > previous, "{kelvin} K lowered its own plateau");
        previous = now;
    }
    assert_eq!(height(AXIS_MIN as u32), 0.0);
    assert_eq!(height(AXIS_MAX as u32), 1.0);
    assert!((0.55..0.65).contains(&height(6500)), "{}", height(6500));
}

#[test]
fn every_reachable_bound_is_somewhere_readable_on_the_rail() {
    let (min, max) = (f64::from(NIGHT_MIN), f64::from(DAY_MAX));
    let fill = |kelvin: u32| (f64::from(kelvin) - min) / (max - min);
    assert!((0.55..0.65).contains(&fill(6500)), "{}", fill(6500));
    assert!(fill(8000) > fill(6500));
    assert!(fill(10_000) > fill(8000));
    assert_eq!(fill(NIGHT_MIN), 0.0);
    assert_eq!(fill(DAY_MAX), 1.0);
    for kelvin in NIGHT_MIN..=DAY_MAX {
        assert!((0.0..=1.0).contains(&fill(kelvin)), "{kelvin} K fell off");
    }
}

#[test]
fn a_plateau_drag_reaches_the_top_of_whatever_axis_is_drawn() {
    assert_eq!(held_day_temp(drag(7200.0), 4500), 7200);
    assert_eq!(held_day_temp(drag(9500.0), 4500), 9500);
    assert_eq!(held_day_temp(drag(90_000.0), 4500), AXIS_MAX as u32);
}

#[test]
fn crossed_bounds_do_not_panic() {
    assert_eq!(held_day_temp(drag(3000.0), 9000), 9000);
    assert_eq!(held_night_temp(drag(3000.0), 1000), 1000);
    assert_eq!(held_night_temp(drag(3000.0), 0), 0);
}

#[test]
fn plateau_drags_stay_inside_the_sliders_window() {
    assert_eq!(held_day_temp(drag(9000.0), 4500), 9000);
    assert_eq!(held_day_temp(drag(20_000.0), 4500), AXIS_MAX as u32);
    assert_eq!(held_day_temp(drag(1000.0), 4500), 4500);
    assert_eq!(held_day_temp(drag(1000.0), 1700), DAY_FLOOR);
    assert_eq!(held_night_temp(drag(9000.0), 6500), NIGHT_CEIL);
    assert_eq!(held_night_temp(drag(100.0), 6500), 1500);
    assert_eq!(held_night_temp(drag(9000.0), 4200), 4200);
}

#[test]
fn arrow_presses_keep_the_pair_ordered_and_cancel() {
    assert_eq!(nudged_night_temp(2800, 6500, true), 2900);
    assert_eq!(nudged_night_temp(2900, 6500, false), 2800);
    assert_eq!(nudged_night_temp(6450, 6500, true), 6500);
    assert_eq!(nudged_night_temp(1550, 6500, false), 1500);
    assert_eq!(nudged_day_temp(6500, 2800, true), 6600);
    assert_eq!(nudged_day_temp(9950, 2800, true), 10_000);
    assert_eq!(nudged_day_temp(2850, 2800, false), 2800);
    assert_eq!(nudged_day_temp(50, 0, false), 0);
    assert_eq!(nudged_night_temp(u32::MAX, u32::MAX, true), u32::MAX);
}

#[test]
fn themes_cycle_both_ways() {
    assert_eq!(cycled(0, 8, true), 1);
    assert_eq!(cycled(7, 8, true), 0);
    assert_eq!(cycled(0, 8, false), 7);
    assert_eq!(cycled(cycled(5, 8, true), 8, false), 5);
}

#[test]
fn the_curve_holds_what_a_drag_took_hold_of() {
    let press = |kelvin: u32| Drag { started: false, stopped: false, hovered: None, pointer_kelvin: Some(kelvin) };
    // Nothing happens before a location is known.
    let start = Drag { started: true, stopped: false, hovered: Some(Handle::DayLevel), pointer_kelvin: Some(7200) };
    assert_eq!(drag_step(false, None, start, 6500, 4500), (None, None));
    // The drag takes hold of the handle under the pointer when it starts.
    assert_eq!(drag_step(true, None, start, 6500, 4500), (Some(Handle::DayLevel), Some(CurveEdit::DayTemp(7200))));
    // The handle never changes under the hand, whatever is hovered.
    let wander = Drag { hovered: Some(Handle::NightBound), ..press(90_000) };
    assert_eq!(drag_step(true, Some(Handle::DayLevel), wander, 6500, 4500), (Some(Handle::DayLevel), Some(CurveEdit::DayTemp(10_000))));
    assert_eq!(drag_step(true, Some(Handle::NightLevel), press(9000), 6500, 4500), (Some(Handle::NightLevel), Some(CurveEdit::NightTemp(4500))));
    assert_eq!(drag_step(true, Some(Handle::NightLevel), press(1000), 6500, 4500).1, Some(CurveEdit::NightTemp(1500)));
    assert_eq!(drag_step(true, Some(Handle::DayLevel), press(1000), 6500, 4500).1, Some(CurveEdit::DayTemp(4500)));
    assert_eq!(drag_step(true, Some(Handle::DayBound), press(5000), 6500, 4500).1, Some(CurveEdit::Band { day: true }));
    // Letting go drops the handle.
    let release = Drag { stopped: true, ..press(5000) };
    assert_eq!(drag_step(true, Some(Handle::NightBound), release, 6500, 4500), (None, Some(CurveEdit::Band { day: false })));
    // No press, no edit.
    let hover = Drag { started: false, stopped: false, hovered: Some(Handle::DayLevel), pointer_kelvin: None };
    assert_eq!(drag_step(true, None, hover, 6500, 4500), (None, None));
}
