use nightlightd::number::{is_float, number_chars_ok, parse_u32};
use nightlightd::request::{parse_band, parse_brightness, parse_fade};

fn band(text: &str) -> Option<(f64, f64)> {
    let (day, night) = parse_band(text)?;
    Some((day.parse().unwrap(), night.parse().unwrap()))
}

fn brightness(text: &str) -> Option<(f64, f64)> {
    let (day, night) = parse_brightness(text)?;
    Some((day.parse().unwrap(), night.parse().unwrap()))
}

#[test]
fn fade_values_parse_generously_but_not_infinitely() {
    assert_eq!(parse_fade("on"), Some(true));
    assert_eq!(parse_fade(" OFF "), Some(false));
    assert_eq!(parse_fade("On"), Some(true));
    assert_eq!(parse_fade("maybe"), None);
    assert_eq!(parse_fade(""), None);
}

#[test]
fn band_values_parse_with_their_minus_signs() {
    assert_eq!(band("3:-6"), Some((3.0, -6.0)));
    assert_eq!(band(" 1.5 : -12 "), Some((1.5, -12.0)));
    assert_eq!(band("-9:4"), Some((-9.0, 4.0)));
    assert_eq!(band("3"), None);
    assert_eq!(band("3:warm"), None);
    assert_eq!(band("nan:-6"), None);
}

#[test]
fn brightness_accepts_one_value_or_a_pair() {
    assert_eq!(brightness("0.9"), Some((0.9, 0.9)));
    assert_eq!(brightness("1.0:0.85"), Some((1.0, 0.85)));
    assert!(brightness("warm").is_none());
    assert!(brightness("1.0:").is_none());
    assert!(brightness("nan").is_none());
    assert!(brightness("1.0:inf").is_none());
    assert!(brightness("-Infinity:0.5").is_none());
}

#[test]
fn the_spellings_of_infinity_and_nan_are_no_numbers() {
    for text in ["inf", "-inf", "+Infinity", "NaN", "-nan", "INF"] {
        assert!(parse_band(&format!("{text}:-6")).is_none(), "{text}");
        assert!(parse_band(&format!("3:{text}")).is_none(), "{text}");
        assert!(!number_chars_ok(&text.chars().collect()), "{text}");
    }
    // A literal too large for an f64 is still a spelling of a number; the
    // caller that reads it sees that it is not finite.
    let (day, _) = parse_band("1e400:-6").unwrap();
    assert!(!day.parse::<f64>().unwrap().is_finite());
    assert!(number_chars_ok(&"-0.5e3".chars().collect()));
}

#[test]
fn the_float_grammar_matches_the_standard_library() {
    for text in [
        "0", "1.", ".5", "1e5", "1E-5", "+3", "-0.25", "inf", "-Infinity", "NaN", "+nan",
        "12.5e+3", "007",
    ] {
        assert!(is_float(text), "{text}");
        assert!(text.parse::<f64>().is_ok(), "{text}");
    }
    for text in ["", ".", "e5", "1e", "1e+", " 1", "1 ", "1..2", "0x10", "infinit", "++1", "1.2.3"] {
        assert!(!is_float(text), "{text}");
        assert!(text.parse::<f64>().is_err(), "{text}");
    }
}

#[test]
fn unsigned_numbers_read_as_the_standard_library_reads_them() {
    for text in ["0", "+7", "4294967295", "0004", "", "+", "-1", "4294967296", " 5", "5a"] {
        assert_eq!(parse_u32(text), text.parse::<u32>().ok(), "{text}");
    }
}
