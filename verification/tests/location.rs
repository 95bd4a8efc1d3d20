use nightlightd::location::{
    coordinate_from_zone_tab, parse_angle, parse_coordinates, zone_from_link_target,
    zone_from_timezone_file, zone_from_tz_value, zone_name, Angle,
};

fn degrees(angle: Angle) -> f64 {
    let sign = if angle.negative { -1.0 } else { 1.0 };
    sign * (f64::from(angle.degrees)
        + f64::from(angle.minutes) / 60.0
        + f64::from(angle.seconds) / 3600.0)
}

fn approx(a: f64, b: f64) -> bool {
    (a - b).abs() < 1e-4
}

#[test]
fn parses_latitude_without_seconds() {
    assert!(approx(degrees(parse_angle("+4101", 2).unwrap()), 41.016_667));
}

#[test]
fn parses_longitude_with_seconds() {
    assert!(approx(degrees(parse_angle("-0740023", 3).unwrap()), -74.006_389));
}

#[test]
fn rejects_malformed_angles() {
    assert_eq!(parse_angle("4101", 2), None);
    assert_eq!(parse_angle("+41", 2), None);
    assert_eq!(parse_angle("+41x1", 2), None);
    assert_eq!(parse_angle("+", 2), None);
}

#[test]
fn parses_a_coordinate_pair() {
    let pair = parse_coordinates("+4101+02858").unwrap();
    assert!(approx(degrees(pair.latitude), 41.016_667));
    assert!(approx(degrees(pair.longitude), 28.966_667));
}

#[test]
fn parses_a_coordinate_pair_with_seconds_and_negative_lon() {
    let pair = parse_coordinates("+404251-0740023").unwrap();
    assert!(approx(degrees(pair.latitude), 40.714_167));
    assert!(approx(degrees(pair.longitude), -74.006_389));
}

#[test]
fn rejects_malformed_coordinate_pairs() {
    assert_eq!(parse_coordinates("+4101"), None);
    assert_eq!(parse_coordinates(""), None);
    assert_eq!(parse_coordinates("4101+02858"), None);
}

const SAMPLE: &str = "\
# tab-separated: codes, coordinate, TZ name, optional comment
AD\t+4230+00131\tEurope/Andorra
TR\t+4101+02858\tEurope/Istanbul
US\t+404251-0740023\tAmerica/New_York\tEastern (most areas)
this line is malformed and has no tabs
";

#[test]
fn looks_up_zones_in_a_table() {
    let pair = coordinate_from_zone_tab(SAMPLE, "Europe/Istanbul").unwrap();
    assert!(approx(degrees(pair.latitude), 41.016_667) && approx(degrees(pair.longitude), 28.966_667));

    let pair = coordinate_from_zone_tab(SAMPLE, "America/New_York").unwrap();
    assert!(approx(degrees(pair.latitude), 40.714_167) && approx(degrees(pair.longitude), -74.006_389));
}

#[test]
fn missing_zone_and_bad_lines_yield_none_not_panic() {
    assert_eq!(coordinate_from_zone_tab(SAMPLE, "Missing/Zone"), None);
}

#[test]
fn extracts_zone_name_from_tz_values() {
    assert_eq!(zone_from_tz_value("Europe/Istanbul").as_deref(), Some("Europe/Istanbul"));
    assert_eq!(
        zone_from_tz_value(":/usr/share/zoneinfo/Europe/Istanbul").as_deref(),
        Some("Europe/Istanbul")
    );
    assert_eq!(zone_from_tz_value(""), None);
    assert_eq!(zone_from_tz_value(":"), None);
}

#[test]
fn angles_keep_exactly_what_was_written() {
    assert_eq!(
        parse_angle("-0740023", 3),
        Some(Angle { negative: true, degrees: 74, minutes: 0, seconds: 23 })
    );
    assert_eq!(
        parse_angle("+4101", 2),
        Some(Angle { negative: false, degrees: 41, minutes: 1, seconds: 0 })
    );
    // A length that is neither DDMM nor DDMMSS is refused, and so is a sign
    // in the middle of the digits.
    assert_eq!(parse_angle("+41012", 2), None);
    assert_eq!(parse_angle("+41-1", 2), None);
}

#[test]
fn a_comment_naming_the_zone_does_not_count() {
    let table = "#X\t+0000+00000\tEurope/Istanbul\nTR\t+4101+02858\tEurope/Istanbul\n";
    let pair = coordinate_from_zone_tab(table, "Europe/Istanbul").unwrap();
    assert_eq!(pair.latitude.degrees, 41);
    // The first line naming the zone decides, even when its coordinate is bad.
    let broken = "TR\tnonsense\tEurope/Istanbul\nTR\t+4101+02858\tEurope/Istanbul\n";
    assert_eq!(coordinate_from_zone_tab(broken, "Europe/Istanbul"), None);
    // Windows line endings are taken off before the fields are read.
    let crlf = "TR\t+4101+02858\tEurope/Istanbul\r\n";
    assert!(coordinate_from_zone_tab(crlf, "Europe/Istanbul").is_some());
}

#[test]
fn the_zone_sources_are_tried_in_order() {
    assert_eq!(
        zone_from_link_target("/usr/share/zoneinfo/Europe/Berlin").as_deref(),
        Some("Europe/Berlin")
    );
    assert_eq!(zone_from_link_target("/etc/somewhere"), None);
    assert_eq!(zone_from_link_target("/usr/share/zoneinfo/"), None);
    assert_eq!(zone_from_timezone_file("  Asia/Tokyo\n").as_deref(), Some("Asia/Tokyo"));
    assert_eq!(zone_from_timezone_file(" \n"), None);

    assert_eq!(
        zone_name(Some(":Europe/Istanbul"), Some("/usr/share/zoneinfo/Europe/Berlin"), None)
            .as_deref(),
        Some("Europe/Istanbul")
    );
    assert_eq!(
        zone_name(Some(":"), Some("/usr/share/zoneinfo/Europe/Berlin"), Some("Asia/Tokyo"))
            .as_deref(),
        Some("Europe/Berlin")
    );
    assert_eq!(zone_name(None, Some("/etc/x"), Some("Asia/Tokyo\n")).as_deref(), Some("Asia/Tokyo"));
    assert_eq!(zone_name(None, None, None), None);
}
