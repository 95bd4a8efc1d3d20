use nightlightd::theme::{remembered_index, remembered_name};
use nightlightd::paths::{config_file, home_from, join, shorten_home};
use nightlightd::theme::{at, index_of, theme, THEME_COUNT};

#[test]
fn every_theme_is_reachable_by_name() {
    for index in 0..THEME_COUNT {
        assert_eq!(index_of(theme(index).name), Some(index));
    }
    assert_eq!(index_of("nope"), None);
    assert_eq!(at(THEME_COUNT).name, "live");
}

#[test]
fn only_the_live_theme_follows_the_screen() {
    assert!(at(0).is_live());
    for index in 1..THEME_COUNT {
        assert!(!at(index).is_live(), "{}", at(index).name);
    }
    assert!(at(usize::MAX).is_live());
    assert_eq!(at(1).base, Some((26, 27, 38)));
    assert_eq!(at(7).secondary, None);
}

#[test]
fn only_a_real_home_prefix_becomes_a_tilde() {
    let home = Some("/home/umut");
    assert_eq!(shorten_home("/home/umut/.config/x", home), "~/.config/x");
    assert_eq!(shorten_home("/home/umut", home), "~");
    assert_eq!(shorten_home("/home/umutdincer/x", home), "/home/umutdincer/x");
    assert_eq!(shorten_home("/etc/x", home), "/etc/x");
    assert_eq!(shorten_home("/home/umut/x", Some("/home/umut/")), "~/x");
    assert_eq!(shorten_home("/home/umut/x", Some("")), "/home/umut/x");
    assert_eq!(shorten_home("/home/umut/x", None), "/home/umut/x");
}

#[test]
fn xdg_wins_and_home_is_the_fallback() {
    let xdg = "/somewhere/cfg";
    let home = "/home/someone";
    assert_eq!(home_from(Some(xdg), Some(home)).as_deref(), Some("/somewhere/cfg"));
    assert_eq!(home_from(None, Some(home)).as_deref(), Some("/home/someone/.config"));
    assert_eq!(home_from(None, None), None);
    assert_eq!(home_from(Some(""), Some(home)).as_deref(), Some("/home/someone/.config"));
    assert_eq!(home_from(Some(""), Some("")), None);
}

#[test]
fn a_config_file_lives_in_the_programs_directory() {
    assert_eq!(
        config_file(Some("/home/a/.config".to_string()), "config.toml").as_deref(),
        Some("/home/a/.config/nightlightd/config.toml")
    );
    assert_eq!(
        config_file(Some("/cfg/".to_string()), "tui-theme").as_deref(),
        Some("/cfg/nightlightd/tui-theme")
    );
    assert_eq!(config_file(None, "config.toml"), None);
}

#[test]
fn joining_follows_the_path_rules() {
    assert_eq!(join("/a", "b"), "/a/b");
    assert_eq!(join("/a/", "b"), "/a/b");
    assert_eq!(join("/a", "/etc"), "/etc");
    assert_eq!(join("", "b"), "b");
    assert_eq!(join("/a", ""), "/a/");
}

#[test]
fn a_remembered_theme_comes_back_by_name() {
    assert_eq!(remembered_index(Some("nord\n")), 3);
    assert_eq!(remembered_index(Some("  phosphor ")), 7);
    assert_eq!(remembered_index(Some("retired-theme")), 0);
    assert_eq!(remembered_index(Some("")), 0);
    assert_eq!(remembered_index(None), 0);
    assert_eq!(remembered_name(2), Some("mocha"));
    assert_eq!(remembered_name(8), None);
}
