use nightlightd::control::{configured_mode, Control, Mode, Saved, NEUTRAL_KELVIN};

fn state(enabled: bool, override_temp: Option<u32>, mode: Mode<(f64, f64)>) -> Control<(f64, f64)> {
    Control {
        enabled,
        override_temp,
        mode,
        configured_mode: Mode::Automatic,
        config_damaged: false,
        day_temp: 6500,
        night_temp: 3500,
    }
}

#[test]
fn auto_enables_and_restores_the_configured_mode() {
    let configured = Mode::ManualLocation((39.93, 32.85));
    let mut s = state(false, Some(2200), Mode::Automatic);
    s.configured_mode = configured;
    s.set_mode("auto");
    assert!(s.enabled);
    assert_eq!(s.override_temp, None);
    assert_eq!(s.mode, configured);
}

#[test]
fn source_off_wins_over_everything() {
    let s = state(false, Some(2800), Mode::Automatic);
    assert_eq!(s.describe_source(), "off (screen left neutral)");
}

#[test]
fn source_override_wins_over_mode() {
    let s = state(true, Some(2800), Mode::Automatic);
    assert_eq!(s.describe_source(), "manual override (2800 K)");
}

#[test]
fn source_describes_each_mode() {
    assert_eq!(state(true, None, Mode::Automatic).describe_source(), "auto (following the sun)");
    assert_eq!(state(true, None, Mode::Fixed(2800)).describe_source(), "fixed (2800 K)");
    assert_eq!(
        state(true, None, Mode::ManualLocation((1.0, 2.0))).describe_source(),
        "auto (manual location)"
    );
}

#[test]
fn set_location_pins_and_clear_returns_to_timezone() {
    let mut s = state(true, None, Mode::Automatic);
    s.config_damaged = true;
    // The daemon clamps out-of-range coordinates as they arrive.
    let pinned = (95.0_f64.clamp(-90.0, 90.0), (-200.0_f64).clamp(-180.0, 180.0));
    s.set_location(pinned);
    let expected = Mode::ManualLocation((90.0, -180.0));
    assert_eq!(s.mode, expected);
    assert_eq!(s.configured_mode, expected);
    s.clear_location();
    assert_eq!(s.mode, Mode::Automatic);
    assert_eq!(s.configured_mode, Mode::Automatic);
}

#[test]
fn day_and_night_bounds_stay_ordered() {
    let mut s = state(true, None, Mode::Automatic);
    s.set_night_temp(7000);
    s.set_day_temp(2000);
    assert!(s.day_temp >= s.night_temp);
    assert_eq!(s.night_temp, 6500);
    assert_eq!(s.day_temp, 6500);
}

#[test]
fn no_coordinates_means_automatic() {
    assert_eq!(configured_mode::<f64>(None, None), Mode::Automatic);
}

#[test]
fn a_lone_coordinate_stays_automatic() {
    assert_eq!(configured_mode(Some(39.93), None), Mode::Automatic);
}

#[test]
fn manual_coordinates_select_manual_location() {
    assert_eq!(
        configured_mode(Some(39.93), Some(32.85)),
        Mode::ManualLocation((39.93, 32.85))
    );
}

#[test]
fn toggling_twice_changes_nothing() {
    let mut s = state(true, Some(3000), Mode::Fixed(2500));
    s.toggle();
    assert!(!s.enabled);
    s.toggle();
    assert!(s.enabled);
    assert_eq!(s.override_temp, Some(3000));
}

#[test]
fn a_pinned_temperature_turns_the_filter_on_and_holds() {
    let mut s = state(false, None, Mode::Automatic);
    s.set_temperature(2700);
    assert!(s.enabled);
    assert_eq!(s.override_temp, Some(2700));
    assert!(!s.following());
    assert_eq!(s.desired_kelvin(Some(6000)), 2700);
    s.set_mode("nonsense");
    assert_eq!(s.override_temp, Some(2700));
    s.set_mode("auto");
    assert!(s.following());
    assert_eq!(s.desired_kelvin(Some(6000)), 6000);
    assert_eq!(s.desired_kelvin(None), 6500);
    s.set_enabled(false);
    assert_eq!(s.desired_kelvin(Some(3000)), NEUTRAL_KELVIN);
    let fixed = state(true, None, Mode::Fixed(2800));
    assert!(!fixed.following());
    assert_eq!(fixed.desired_kelvin(Some(6000)), 2800);
}

#[test]
fn a_location_survives_a_trip_through_auto() {
    let mut s = state(true, Some(2000), Mode::Automatic);
    s.set_location((41.0, 29.0));
    s.set_mode("auto");
    assert_eq!(s.mode, Mode::ManualLocation((41.0, 29.0)));
}

#[test]
fn a_damaged_config_is_never_saved_over() {
    let mut s = state(true, None, Mode::Automatic);
    s.set_location((41.0, 29.0));
    assert_eq!(
        s.saved(),
        Some(Saved { day_temp: 6500, night_temp: 3500, location: Some((41.0, 29.0)) })
    );
    s.config_damaged = true;
    assert_eq!(s.saved(), None);
}

#[test]
fn status_reads_the_cached_location_in_automatic_mode() {
    let s = state(true, None, Mode::Automatic);
    let cached = Some((10.0, 20.0));
    assert!(!s.status_needs_lookup(cached));
    let (reply, cache) = s.status_reply(6500, cached, None);
    assert!(reply.location.is_some());
    assert_eq!(reply.location, Some((10.0, 20.0)));
    assert_eq!(cache, cached);
    assert_eq!(reply.temperature, 6500);
    assert!(reply.following);
    assert_eq!(reply.source, "auto (following the sun)");
    assert_eq!((reply.day_temp, reply.night_temp), (6500, 3500));
}

#[test]
fn status_has_no_location_in_fixed_mode() {
    let s = state(true, None, Mode::Fixed(2800));
    assert!(!s.status_needs_lookup(None));
    let (reply, cache) = s.status_reply(4100, None, Some((1.0, 2.0)));
    assert!(reply.location.is_none());
    assert_eq!(cache, None);
    assert_eq!(reply.temperature, 4100);
    assert!(!reply.following);
    assert!(reply.enabled);
}

#[test]
fn the_status_reports_the_temperature_on_the_screen() {
    // Mid-fade or with the filter off, the reply gives what was applied,
    // not what is wanted.
    let off = state(false, Some(2800), Mode::Automatic);
    let (reply, _) = off.status_reply(6500, None, None);
    assert_eq!(reply.temperature, 6500);
    assert!(!reply.enabled && !reply.following);
    assert_eq!(reply.source, "off (screen left neutral)");
    let held = state(true, Some(2800), Mode::Automatic);
    let (reply, _) = held.status_reply(3100, None, None);
    assert_eq!(reply.temperature, 3100);
    assert!(!reply.following);
}

#[test]
fn a_status_before_the_first_tick_looks_the_zone_up() {
    let s = state(true, None, Mode::Automatic);
    assert!(s.status_needs_lookup(None));
    assert_eq!(s.status_location(None, Some((41.0, 28.0))), (Some((41.0, 28.0)), Some((41.0, 28.0))));
    assert_eq!(s.status_location(None, None), (None, None));
    let pinned = state(true, None, Mode::ManualLocation((39.9, 32.8)));
    assert_eq!(pinned.status_location(None, None), (Some((39.9, 32.8)), None));
}

#[test]
fn the_sun_is_followed_through_a_failed_lookup() {
    let s = state(true, None, Mode::Automatic);
    let cached = Some((10.0, 20.0));
    // A fresh answer replaces the cache; a failure keeps it.
    assert_eq!(s.sun_location(cached, Some((11.0, 21.0))), (Some((11.0, 21.0)), Some((11.0, 21.0))));
    assert_eq!(s.sun_location(cached, None), (cached, cached));
    assert_eq!(s.sun_location(None, None), (None, None));
    let fixed = state(true, None, Mode::Fixed(2800));
    assert_eq!(fixed.sun_location(cached, Some((1.0, 1.0))), (None, cached));
}
