use nightlightd::launch::{parse_args, parse_panel_args, parse_tray_args, Answer, ArgProblem, Launch, PanelLaunch};

fn args(list: &[&str]) -> Vec<String> {
    list.iter().map(|a| a.to_string()).collect()
}

fn problem(list: &[&str]) -> (ArgProblem, String) {
    let e = parse_args(&args(list)).unwrap_err();
    (e.problem, e.value)
}

#[test]
fn no_flags_open_the_first_tab_in_the_remembered_theme() {
    assert_eq!(parse_args(&args(&[])).unwrap(), Launch::Run { theme: None, tab: 0, demo: false });
}

#[test]
fn themes_and_tabs_are_chosen_by_name_or_number() {
    assert_eq!(
        parse_args(&args(&["--theme", "tokyo", "--tab", "settings"])).unwrap(),
        Launch::Run { theme: Some(1), tab: 4, demo: false }
    );
    assert_eq!(
        parse_args(&args(&["-t", "live", "--tab", "3", "--demo"])).unwrap(),
        Launch::Run { theme: Some(0), tab: 2, demo: true }
    );
    // A later flag wins.
    assert_eq!(
        parse_args(&args(&["--tab", "2", "--tab", "today"])).unwrap(),
        Launch::Run { theme: None, tab: 1, demo: false }
    );
}

#[test]
fn version_and_help_answer_at_once() {
    assert_eq!(parse_args(&args(&["--version"])).unwrap(), Launch::Version);
    assert_eq!(parse_args(&args(&["--demo", "-V", "--nonsense"])).unwrap(), Launch::Version);
    assert_eq!(parse_args(&args(&["-h"])).unwrap(), Launch::Help);
}

#[test]
fn a_bad_command_line_says_what_is_wrong() {
    assert_eq!(problem(&["--theme", "nope"]), (ArgProblem::UnknownTheme, "nope".to_string()));
    assert_eq!(problem(&["--tab", "6"]), (ArgProblem::UnknownTab, "6".to_string()));
    assert_eq!(problem(&["--tab", "0"]), (ArgProblem::UnknownTab, "0".to_string()));
    assert_eq!(problem(&["--tab"]), (ArgProblem::Usage, String::new()));
    assert_eq!(problem(&["--theme"]), (ArgProblem::Usage, String::new()));
    assert_eq!(problem(&["--colour"]), (ArgProblem::Usage, String::new()));
    // The first flag that cannot be read is the error, even before --help.
    assert_eq!(problem(&["--bogus", "--help"]), (ArgProblem::Usage, String::new()));
}

fn panel_problem(list: &[&str]) -> (ArgProblem, String) {
    let e = parse_panel_args(&args(list)).unwrap_err();
    (e.problem, e.value)
}

#[test]
fn the_panel_opens_on_a_named_tab() {
    assert_eq!(parse_panel_args(&args(&[])).unwrap(), PanelLaunch::Run { tab: 0, demo: false });
    assert_eq!(
        parse_panel_args(&args(&["--tab", "location", "--demo"])).unwrap(),
        PanelLaunch::Run { tab: 2, demo: true }
    );
    assert_eq!(parse_panel_args(&args(&["-V"])).unwrap(), PanelLaunch::Version);
    assert_eq!(parse_panel_args(&args(&["--help", "--bogus"])).unwrap(), PanelLaunch::Help);
}

#[test]
fn the_panel_names_what_it_cannot_read() {
    // The panel's tabs go by name only.
    assert_eq!(panel_problem(&["--tab", "3"]), (ArgProblem::UnknownTab, "3".to_string()));
    assert_eq!(panel_problem(&["--tab"]), (ArgProblem::Usage, String::new()));
    assert_eq!(panel_problem(&["--theme", "nord"]), (ArgProblem::UnknownOption, "--theme".to_string()));
}

#[test]
fn the_tray_takes_no_options_but_the_two_that_answer() {
    assert_eq!(parse_tray_args(&args(&[])).unwrap(), None);
    assert_eq!(parse_tray_args(&args(&["--version", "--nonsense"])).unwrap(), Some(Answer::Version));
    assert_eq!(parse_tray_args(&args(&["-h"])).unwrap(), Some(Answer::Help));
    let e = parse_tray_args(&args(&["--demo"])).unwrap_err();
    assert_eq!((e.problem, e.value), (ArgProblem::UnknownOption, "--demo".to_string()));
}
