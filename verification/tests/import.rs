use nightlightd::import::{translate, Imported};

fn number(text: &Option<String>) -> Option<f64> {
    text.as_deref().map(|t| t.parse().unwrap())
}

fn gamma(imported: &Imported) -> Option<f64> {
    imported.gamma.as_ref().map(|parts| {
        let values: Vec<f64> = parts.iter().map(|p| p.parse().unwrap()).collect();
        values.iter().sum::<f64>() / values.len() as f64
    })
}

const MUMUSKEH: &str = "\
[general]
temp-day=6000
temp-night=4000
gamma=0.9
brightness-night=0.9
adjustment-method=randr
location-provider=geoclue2
";

#[test]
fn the_first_daily_drivers_config_translates() {
    let config = translate(MUMUSKEH).unwrap();
    assert_eq!(config.day_temp, Some(6000));
    assert_eq!(config.night_temp, Some(4000));
    assert_eq!(gamma(&config), Some(0.9));
    // Not mentioned: the default (1.0) stays.
    assert_eq!(number(&config.day_brightness), None);
    assert_eq!(number(&config.night_brightness), Some(0.9));
    assert!(config.location.is_none());
}

#[test]
fn a_manual_location_imports_as_a_pair() {
    let config = translate("[manual]\nlat=41.0\nlon=29.0\n").unwrap();
    let (lat, lon) = config.location.unwrap();
    assert_eq!(lat.parse::<f64>().unwrap(), 41.0);
    assert_eq!(lon.parse::<f64>().unwrap(), 29.0);
}

#[test]
fn a_lone_coordinate_does_not_count() {
    assert!(translate("[manual]\nlat=41.0\n").is_none());
}

#[test]
fn the_fade_switch_translates() {
    let off = translate("[general]\nfade=0\n").unwrap();
    assert_eq!(off.fade, Some(false));
    let on = translate("[general]\nfade=1\n").unwrap();
    assert_eq!(on.fade, Some(true));
    assert!(translate("[general]\nfade=maybe\n").is_none());
}

#[test]
fn a_gamma_triple_averages() {
    let config = translate("[general]\ngamma=0.8:0.9:1.0\n").unwrap();
    assert!((gamma(&config).unwrap() - 0.9).abs() < 1e-9);
}

#[test]
fn junk_and_unknown_keys_import_nothing() {
    assert!(translate("").is_none());
    assert!(translate("[general]\nadjustment-method=randr\n").is_none());
    assert!(translate("complete nonsense ][ =\n").is_none());
}

#[test]
fn comments_and_case_are_tolerated() {
    let text = "; a comment\n[General]\nTemp-Day = 5900\n# another\n";
    let config = translate(text).unwrap();
    assert_eq!(config.day_temp, Some(5900));
}

#[test]
fn a_bad_coordinate_clears_the_one_before() {
    assert!(translate("[manual]\nlat=41.0\nlon=29.0\nlat=north\n").is_none());
    let later = translate("[manual]\nlat=north\nlat=41.5\nlon=29\n").unwrap();
    assert_eq!(later.location.unwrap().0, "41.5");
}

#[test]
fn keys_outside_their_section_are_ignored() {
    assert!(translate("temp-day=6000\n").is_none());
    assert!(translate("[manual]\ntemp-day=6000\n").is_none());
    assert!(translate("[randr]\nlat=41\nlon=29\n").is_none());
}

#[test]
fn numbers_must_read_as_numbers() {
    assert!(translate("[general]\ntemp-day=warm\n").is_none());
    assert!(translate("[general]\ntemp-day=-100\n").is_none());
    assert!(translate("[general]\ntemp-day=99999999999\n").is_none());
    assert!(translate("[general]\nbrightness-day=0.9.1\n").is_none());
    assert!(translate("[general]\ngamma=0.8:x:1.0\n").is_none());
    let odd = translate("[general]\nbrightness-day=1e0\ntemp-night=+3000\n").unwrap();
    assert_eq!(number(&odd.day_brightness), Some(1.0));
    assert_eq!(odd.night_temp, Some(3000));
}

#[test]
fn the_last_understood_value_wins() {
    let config = translate("[general]\ntemp-day=6000\ntemp-day=5000\ntemp-day=junk\n").unwrap();
    assert_eq!(config.day_temp, Some(5000));
}
