use nightlightd::keys::{
    Action, BandEditor, Context, Dashboard, Direction, Key, Schedule, LOCATION_TAB, SETTINGS_TAB,
};

fn ctx() -> Context {
    Context {
        status: Some(Schedule {
            day_temp: 6500,
            night_temp: 4500,
        }),
        band_known: true,
        mismatch: false,
        touched: false,
    }
}

fn press(d: &mut Dashboard, key: Key) -> Action {
    d.handle_key(key, false, ctx())
}

#[test]
fn q_and_escape_quit_from_the_tabs() {
    let mut d = Dashboard::new(0, 0, Some(true));
    assert_eq!(press(&mut d, Key::Char('q')), Action::Quit);
    assert_eq!(press(&mut d, Key::Esc), Action::Quit);
    assert_eq!(d.handle_key(Key::Char('c'), true, ctx()), Action::Quit);
    assert_eq!(press(&mut d, Key::Char('c')), Action::Nothing);
}

#[test]
fn the_arrows_nudge_the_night_bound_away_from_settings() {
    let mut d = Dashboard::new(0, 0, None);
    assert_eq!(press(&mut d, Key::Up), Action::SetNightTemp(4600));
    assert_eq!(press(&mut d, Key::Down), Action::SetNightTemp(4400));
    let c = Context {
        status: Some(Schedule {
            day_temp: 4500,
            night_temp: 4500,
        }),
        ..ctx()
    };
    // The night bound stops at the day bound.
    assert_eq!(d.handle_key(Key::Up, false, c), Action::SetNightTemp(4500));
    let none = Context {
        status: None,
        ..ctx()
    };
    assert_eq!(d.handle_key(Key::Up, false, none), Action::Nothing);
}

#[test]
fn tab_and_digits_switch_tabs() {
    let mut d = Dashboard::new(3, 0, None);
    press(&mut d, Key::Tab);
    assert_eq!(d.tab, 4);
    press(&mut d, Key::Tab);
    assert_eq!(d.tab, 0);
    press(&mut d, Key::Char('3'));
    assert_eq!(d.tab, LOCATION_TAB);
    press(&mut d, Key::Char('9'));
    assert_eq!(d.tab, LOCATION_TAB);
}

#[test]
fn the_settings_rows_adjust_what_they_show() {
    let mut d = Dashboard::new(SETTINGS_TAB, 0, Some(false));
    assert_eq!(press(&mut d, Key::Right), Action::SetDayTemp(6600));
    assert_eq!(press(&mut d, Key::Up), Action::Nothing);
    assert_eq!(d.settings_selected, 0);
    press(&mut d, Key::Down);
    assert_eq!(press(&mut d, Key::Left), Action::SetNightTemp(4400));
    press(&mut d, Key::Down);
    assert_eq!(press(&mut d, Key::Right), Action::StepGamma(true));
    press(&mut d, Key::Down);
    assert_eq!(press(&mut d, Key::Left), Action::StepNightDim(false));
    press(&mut d, Key::Down);
    assert_eq!(press(&mut d, Key::Enter), Action::SetFade(true));
    assert_eq!(d.fade, Some(true));
    press(&mut d, Key::Down);
    assert_eq!(press(&mut d, Key::Left), Action::WearTheme(7));
    assert_eq!(d.theme_index, 7);
    press(&mut d, Key::Down);
    assert_eq!(press(&mut d, Key::Char(' ')), Action::ToggleLogin);
    press(&mut d, Key::Down);
    assert_eq!(d.settings_selected, 6);
}

#[test]
fn the_theme_picker_owns_the_keyboard() {
    let mut d = Dashboard::new(SETTINGS_TAB, 2, None);
    d.settings_selected = 5;
    press(&mut d, Key::Enter);
    assert_eq!(d.theme_popup, Some(2));
    assert_eq!(press(&mut d, Key::Tab), Action::Nothing);
    assert_eq!(d.tab, SETTINGS_TAB);
    press(&mut d, Key::Down);
    press(&mut d, Key::Down);
    assert_eq!(press(&mut d, Key::Char('q')), Action::Nothing);
    assert_eq!(d.theme_popup, None);
    assert_eq!(d.theme_index, 2);
    d.theme_popup = Some(7);
    press(&mut d, Key::Down);
    assert_eq!(d.theme_popup, Some(7));
    assert_eq!(press(&mut d, Key::Enter), Action::WearTheme(7));
    assert_eq!(d.theme_index, 7);
    assert_eq!(d.theme_popup, None);
}

#[test]
fn the_band_editor_opens_over_a_curve_and_asks_before_dropping_a_change() {
    let mut d = Dashboard::new(SETTINGS_TAB, 0, None);
    assert_eq!(press(&mut d, Key::Char('b')), Action::Nothing);
    assert!(d.band_edit.is_none());
    let mut d = Dashboard::new(1, 0, None);
    let unknown = Context {
        band_known: false,
        ..ctx()
    };
    assert_eq!(d.handle_key(Key::Char('b'), false, unknown), Action::Nothing);
    assert_eq!(press(&mut d, Key::Char('b')), Action::OpenBandEditor);
    assert_eq!(
        d.band_edit,
        Some(BandEditor {
            day_selected: false,
            confirming: false
        })
    );
    assert_eq!(
        press(&mut d, Key::Right),
        Action::NudgeBand {
            day: false,
            increase: true
        }
    );
    press(&mut d, Key::Up);
    assert_eq!(
        press(&mut d, Key::Left),
        Action::NudgeBand {
            day: true,
            increase: false
        }
    );
    let touched = Context {
        touched: true,
        ..ctx()
    };
    assert_eq!(d.handle_key(Key::Esc, false, touched), Action::Nothing);
    assert_eq!(
        d.band_edit,
        Some(BandEditor {
            day_selected: true,
            confirming: true
        })
    );
    // Anything else takes the question back.
    assert_eq!(d.handle_key(Key::Up, false, touched), Action::Nothing);
    assert_eq!(d.band_edit.map(|e| e.confirming), Some(false));
    d.handle_key(Key::Char('q'), false, touched);
    assert_eq!(d.handle_key(Key::Char('y'), false, touched), Action::ApplyBand);
    assert!(d.band_edit.is_none());
}

#[test]
fn an_untouched_draft_leaves_without_a_question() {
    let mut d = Dashboard::new(0, 0, None);
    press(&mut d, Key::Char('b'));
    assert_eq!(press(&mut d, Key::Char('d')), Action::DefaultBand);
    assert_eq!(press(&mut d, Key::Esc), Action::DiscardBand);
    assert!(d.band_edit.is_none());
    press(&mut d, Key::Char('b'));
    assert_eq!(press(&mut d, Key::Enter), Action::ApplyBand);
    assert!(d.band_edit.is_none());
}

#[test]
fn the_location_picker_moves_pins_and_still_quits() {
    let mut d = Dashboard::new(LOCATION_TAB, 0, None);
    assert_eq!(press(&mut d, Key::Enter), Action::StartPicker);
    assert!(d.picking);
    assert_eq!(
        press(&mut d, Key::Up),
        Action::MovePicker(Direction::North)
    );
    assert_eq!(
        press(&mut d, Key::Left),
        Action::MovePicker(Direction::West)
    );
    assert_eq!(press(&mut d, Key::Char('q')), Action::Quit);
    assert_eq!(press(&mut d, Key::Enter), Action::PinLocation);
    assert!(!d.picking);
    assert_eq!(press(&mut d, Key::Char('c')), Action::ClearLocation);
    press(&mut d, Key::Char('m'));
    assert!(d.map_popup);
    assert_eq!(press(&mut d, Key::Enter), Action::StartPicker);
    assert_eq!(press(&mut d, Key::Esc), Action::CancelPicker);
    assert!(d.map_popup);
    assert_eq!(press(&mut d, Key::Char('q')), Action::Nothing);
    assert!(!d.map_popup);
}

#[test]
fn the_help_sections_walk_a_ring() {
    let mut d = Dashboard::new(0, 0, None);
    press(&mut d, Key::Char('?'));
    assert!(d.help_popup);
    press(&mut d, Key::Up);
    assert_eq!(d.help_section, 3);
    press(&mut d, Key::Tab);
    assert_eq!(d.help_section, 0);
    press(&mut d, Key::Right);
    press(&mut d, Key::Left);
    assert_eq!(d.help_section, 0);
    assert_eq!(press(&mut d, Key::Char('q')), Action::Nothing);
    assert!(!d.help_popup);
}

#[test]
fn the_sun_overlay_closes_on_its_own_key() {
    let mut d = Dashboard::new(0, 0, None);
    press(&mut d, Key::Char('s'));
    assert!(d.sun_popup);
    assert_eq!(press(&mut d, Key::Char('t')), Action::Nothing);
    press(&mut d, Key::Char('s'));
    assert!(!d.sun_popup);
}

#[test]
fn r_revives_only_a_silent_daemon() {
    let mut d = Dashboard::new(0, 0, None);
    assert_eq!(press(&mut d, Key::Char('r')), Action::Nothing);
    let absent = Context {
        status: None,
        ..ctx()
    };
    assert_eq!(
        d.handle_key(Key::Char('r'), false, absent),
        Action::Revive { restart: false }
    );
    let stale = Context {
        status: None,
        mismatch: true,
        ..ctx()
    };
    assert_eq!(
        d.handle_key(Key::Char('r'), false, stale),
        Action::Revive { restart: true }
    );
}

#[test]
fn t_cycles_the_theme_and_the_filter_keys_reach_the_daemon() {
    let mut d = Dashboard::new(0, 7, None);
    assert_eq!(press(&mut d, Key::Char('T')), Action::WearTheme(0));
    assert_eq!(d.theme_index, 0);
    assert_eq!(press(&mut d, Key::Char('t')), Action::Toggle);
    assert_eq!(press(&mut d, Key::Char('a')), Action::FollowTheSun);
    assert_eq!(press(&mut d, Key::Other), Action::Nothing);
}
