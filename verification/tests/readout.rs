use nightlightd::readout::{clock, hhmm, readout_label, state_lines, where_and_when, Disposition, Reading};
use nightlightd::readout::{
    default_night, hm, hours_and_minutes, length_change, out_of_force, place_label, relative,
    tab_by_name, tab_index,
};

fn minutes(hours: f64) -> i64 {
    (hours * 60.0).round() as i64
}

#[test]
fn the_chart_speaks_only_when_the_screen_is_not_following_it() {
    assert_eq!(out_of_force(true, true, 4200), None);
    assert_eq!(out_of_force(true, false, 2800).as_deref(), Some("held at 2800 K"));
    assert_eq!(out_of_force(false, true, 6500).as_deref(), Some("off · 6500 K"));
    assert_eq!(out_of_force(false, false, 2800).as_deref(), Some("off · 2800 K"));
}

#[test]
fn relative_reads_forwards_and_backwards() {
    assert_eq!(relative(minutes(0.0)), "now");
    assert_eq!(relative(minutes(2.0)), "in 2h 00m");
    assert_eq!(relative(minutes(-2.5)), "2h 30m ago");
    assert_eq!(relative(minutes(0.25)), "in 15m");
    assert_eq!(relative(minutes(-0.25)), "15m ago");
    assert_eq!(relative(minutes(0.005)), "now");
}

#[test]
fn the_day_reads_in_hours_and_its_change_in_seconds() {
    let span = |hours: f64| hours_and_minutes((hours * 60.0).round().max(0.0) as u64);
    assert_eq!(span(14.956), "14h 57m");
    assert_eq!(span(9.0), "9h 00m");
    assert_eq!(span(0.0), "0h 00m");
    let change = |delta: f64| length_change((delta.abs() * 3600.0).round() as u64, delta > 0.0);
    assert_eq!(change(192.0 / 3600.0), "3m 12s longer than yesterday");
    assert_eq!(change(-192.0 / 3600.0), "3m 12s shorter than yesterday");
    assert_eq!(change(12.0 / 3600.0), "12s longer than yesterday");
    assert_eq!(change(0.0), "the same as yesterday");
    assert_eq!(change(0.00001), "the same as yesterday");
}

#[test]
fn a_short_span_drops_its_hours() {
    assert_eq!(hm(200), "3h 20m");
    assert_eq!(hm(45), "45m");
    assert_eq!(hm(0), "0m");
    assert_eq!(hm(61), "1h 01m");
}

#[test]
fn a_place_reads_as_its_city() {
    assert_eq!(place_label("Europe/Istanbul", true), "Istanbul");
    assert_eq!(place_label("America/New_York", false), "≈ New York");
    assert_eq!(place_label("Europe/Istanbul", false), "≈ Istanbul");
    assert_eq!(place_label("UTC", true), "UTC");
    assert_eq!(place_label("America/Argentina/Buenos_Aires", true), "Buenos Aires");
}

#[test]
fn a_demo_starts_from_a_deeper_night() {
    assert_eq!(default_night(false), 4500);
    assert_eq!(default_night(true), 2600);
}

#[test]
fn tabs_are_chosen_by_name_or_number() {
    assert_eq!(tab_index("now"), Some(0));
    assert_eq!(tab_index("settings"), Some(4));
    assert_eq!(tab_index("3"), Some(2));
    assert_eq!(tab_index("0"), None);
    assert_eq!(tab_index("6"), None);
    assert_eq!(tab_index("later"), None);
    assert_eq!(tab_by_name("outputs"), Some(3));
    assert_eq!(tab_by_name("2"), None);
}

fn following() -> Reading {
    Reading { enabled: true, following: true, has_location: true, temperature: 4200 }
}

#[test]
fn the_readout_answers_for_every_state() {
    let sunny = following();
    // The phase word is where the sun stands in the band the daemon runs.
    assert_eq!(readout_label(Some(sunny), false, "night"), ("4200 K · night".to_string(), Disposition::Informative));
    assert_eq!(readout_label(Some(sunny), false, "transition").0, "4200 K · transition");
    let off = Reading { enabled: false, ..sunny };
    assert_eq!(readout_label(Some(off), false, "night").0, "4200 K · off");
    let manual = Reading { following: false, ..sunny };
    assert_eq!(readout_label(Some(manual), false, "night").0, "4200 K · manual");
    let placeless = Reading { has_location: false, ..sunny };
    assert_eq!(readout_label(Some(placeless), false, "night").0, "4200 K · no location");
}

#[test]
fn an_absent_daemon_and_a_stale_one_read_differently() {
    let (stopped, stopped_tone) = readout_label(None, false, "day");
    let (stale, stale_tone) = readout_label(None, true, "day");
    assert_ne!(stopped, stale);
    assert_eq!(stopped_tone, Disposition::Warning);
    assert_eq!(stale_tone, Disposition::Alert);
    assert_eq!(stopped, "Daemon not running");
    assert_eq!(stale, "Update needed · versions differ");
}

#[test]
fn a_disabled_filter_does_not_report_the_sun() {
    let off = Reading { enabled: false, ..following() };
    let (label, _) = readout_label(Some(off), false, "day");
    assert!(!label.contains("day"));
    assert!(label.ends_with("off"));
}

#[test]
fn the_clock_reads_the_local_wall_time() {
    // 2024-06-21 12:34:56 UTC.
    assert_eq!(clock(1_718_973_296, 0), "12:34");
    assert_eq!(clock(1_718_973_296, 10_800), "15:34");
    assert_eq!(clock(1_718_973_296, -46_800), "23:34");
    assert_eq!(clock(0, -3600), "23:00");
    assert_eq!(clock(59, 0), "00:00");
}

#[test]
fn the_strip_names_the_place_only_once_it_is_known() {
    assert_eq!(where_and_when(Some("Istanbul"), "21:05"), "Istanbul · 21:05");
    assert_eq!(where_and_when(None, "21:05"), "21:05");
}

#[test]
fn the_state_card_keeps_the_readouts_precedence() {
    let sunny = following();
    let lines = state_lines(Some(sunny), false, "night", "Istanbul · 21:05");
    assert_eq!(
        lines,
        (
            "4200 K".to_string(),
            "AUTO".to_string(),
            "night · Istanbul · 21:05".to_string(),
            Some("night".to_string())
        )
    );
    let placeless = Reading { has_location: false, ..sunny };
    let lines = state_lines(Some(placeless), false, "night", "21:05");
    assert_eq!(lines.2, "no location · 21:05");
    assert_eq!(lines.3, None);
    let off = Reading { enabled: false, following: false, ..sunny };
    let lines = state_lines(Some(off), false, "night", "21:05");
    assert_eq!((lines.1.as_str(), lines.2.as_str(), lines.3), ("OFF", "the filter is off · 21:05", None));
    let held = Reading { following: false, ..sunny };
    assert_eq!(state_lines(Some(held), false, "night", "21:05").1, "MANUAL");
    assert_eq!(state_lines(Some(held), false, "night", "21:05").2, "held by hand · 21:05");
    let stale = state_lines(None, true, "night", "21:05");
    assert_eq!((stale.0.as_str(), stale.1.as_str()), ("update needed", ""));
    let absent = state_lines(None, false, "night", "21:05");
    assert_eq!(absent.2, "the daemon is not running, so nothing reaches the screen");
}

const SOURCE: &str = "auto (following the sun)";
const PLACE: (&str, &str) = ("-2.5° (transition)", "41.02, 28.97");

#[test]
fn the_defaults_earn_no_ink() {
    let text = nightlightd::readout::status_text(true, 4200, SOURCE, None, true, None, Some(PLACE));
    assert!(text.starts_with("nightlightd: on, 4200 K\n"));
    assert!(text.contains("  source: auto"));
    for absent in ["ramp:", "fade:", "band:"] {
        assert!(!text.contains(absent), "{absent} printed at its default");
    }
    assert!(text.contains("  sun:"));
    assert!(text.contains("  place:  41.02, 28.97 (resolved)"));
    assert_eq!(text.lines().count(), 4);
}

#[test]
fn a_changed_setting_earns_a_line() {
    let text = nightlightd::readout::status_text(
        true,
        4200,
        SOURCE,
        Some("gamma 0.90, brightness 1.00 (day 1.00 / night 1.00)"),
        false,
        Some("day above +1.5°, night below -12.0°"),
        Some(PLACE),
    );
    assert!(text.contains("  ramp:   gamma 0.90"));
    assert!(text.contains("  fade:   off"));
    assert!(text.contains("  band:   day above +1.5°, night below -12.0°"));
    assert_eq!(text.lines().count(), 7);
}

#[test]
fn a_placeless_daemon_prints_no_coordinates() {
    let text = nightlightd::readout::status_text(true, 4200, SOURCE, None, true, None, None);
    assert!(!text.contains("sun:"));
    assert!(!text.contains("place:"));
    assert_eq!(text.lines().count(), 2);
    assert_eq!(text, "nightlightd: on, 4200 K\n  source: auto (following the sun)\n");
    let off = nightlightd::readout::status_text(false, 6500, "off (screen left neutral)", None, true, None, None);
    assert_eq!(off, "nightlightd: off, 6500 K\n  source: off (screen left neutral)\n");
}

#[test]
fn hhmm_formats_fractional_hours() {
    let hour = 13.5_f64;
    assert_eq!(hhmm((hour * 60.0).round() as i64), "13:30");
}

#[test]
fn hhmm_pads_and_signs_as_the_formatter_does() {
    assert_eq!(hhmm(0), "00:00");
    assert_eq!(hhmm(65), "01:05");
    assert_eq!(hhmm(1439), "23:59");
    assert_eq!(hhmm(1440), "24:00");
    assert_eq!(hhmm(-30), format!("{:02}:{:02}", -30 / 60, -30 % 60));
    assert_eq!(hhmm(-90), "-1:-30");
    assert_eq!(hhmm(-600), "-10:00");
}

#[test]
fn the_panel_and_the_tray_rank_a_status_alike() {
    let sunny = following();
    for (reading, mode, word) in [
        (Reading { enabled: false, ..sunny }, "OFF", "off"),
        (Reading { following: false, ..sunny }, "MANUAL", "manual"),
        (Reading { enabled: false, following: false, ..sunny }, "OFF", "off"),
        (sunny, "AUTO", "day"),
    ] {
        let card = state_lines(Some(reading), false, "day", "12:00");
        let (tray, _) = readout_label(Some(reading), false, "day");
        assert_eq!(card.1, mode);
        assert_eq!(tray, format!("4200 K · {word}"));
    }
}
