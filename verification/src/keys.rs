//! The terminal dashboard's keyboard: which key does what in which state.
//!
//! The dashboard is a handful of modes stacked on the tabs — the theme
//! picker, the band editor, the world map, the help and sun overlays, the
//! location picker — and a key goes to the topmost one that is open. This
//! module is that dispatch: from the dashboard's state and a key to the next
//! state and the one thing the program must then do (send a request, move a
//! cursor, quit). What the program holds outside this state (the band draft,
//! the picker's coordinates, the daemon's gamma) it changes itself, told
//! which way by the action.

use vstd::prelude::*;

use crate::bounds::{
    cycled, nudged_day_temp, nudged_night_temp, spec_cycled, spec_nudged_day_temp,
    spec_nudged_night_temp,
};
use crate::readout::TAB_COUNT;
use crate::theme::THEME_COUNT;

verus! {

/// A key as the dashboard tells them apart.
#[derive(Clone, Copy, Debug, PartialEq, Eq, Structural)]
pub enum Key {
    Char(char),
    Up,
    Down,
    Left,
    Right,
    Enter,
    Esc,
    Tab,
    /// Any key the dashboard gives no meaning to.
    Other,
}

/// A direction the location picker's cursor moves in.
#[derive(Clone, Copy, Debug, PartialEq, Eq, Structural)]
pub enum Direction {
    North,
    South,
    East,
    West,
}

/// How a direction moves the cursor's latitude: up the map is north.
pub open spec fn latitude_step(d: Direction) -> int {
    match d {
        Direction::North => 1,
        Direction::South => -1,
        _ => 0,
    }
}

/// How a direction moves the cursor's longitude: right on the map is east.
pub open spec fn longitude_step(d: Direction) -> int {
    match d {
        Direction::East => 1,
        Direction::West => -1,
        _ => 0,
    }
}

/// The band editor while it is open. The draft itself is a pair of
/// elevations that the program holds beside it.
#[derive(Clone, Copy, Debug, PartialEq, Eq, Structural)]
pub struct BandEditor {
    /// Whether the arrows move the day bound (else the night bound).
    pub day_selected: bool,
    /// Set by escaping with an unapplied draft: the editor asks whether to
    /// apply it before anything else.
    pub confirming: bool,
}

/// The dashboard's state as far as the keyboard moves it.
#[derive(Clone, Copy, Debug, PartialEq, Eq, Structural)]
pub struct Dashboard {
    /// The tab shown.
    pub tab: usize,
    /// The selected row of the settings tab.
    pub settings_selected: usize,
    /// The theme worn.
    pub theme_index: usize,
    /// The theme picker: the highlighted theme while it is open.
    pub theme_popup: Option<usize>,
    /// The band editor while it is open.
    pub band_edit: Option<BandEditor>,
    /// The help overlay.
    pub help_popup: bool,
    /// Which of the help overlay's sections is unfolded.
    pub help_section: usize,
    /// The sun overlay.
    pub sun_popup: bool,
    /// The full-size world map.
    pub map_popup: bool,
    /// Whether the location picker is running.
    pub picking: bool,
    /// The fade switch as last read, `None` when the daemon cannot say.
    pub fade: Option<bool>,
}

/// The daytime and night bounds the daemon last reported.
#[derive(Clone, Copy, Debug, PartialEq, Eq, Structural)]
pub struct Schedule {
    pub day_temp: u32,
    pub night_temp: u32,
}

/// What a key press reads besides the dashboard's own state.
#[derive(Clone, Copy, Debug, PartialEq, Eq, Structural)]
pub struct Context {
    /// The daemon's bounds, `None` when no status could be read.
    pub status: Option<Schedule>,
    /// Whether the daemon reported a transition band (else there is nothing
    /// to edit).
    pub band_known: bool,
    /// A daemon owns the bus name but cannot be read: another version.
    pub mismatch: bool,
    /// Whether the band editor's draft differs from the band it opened on.
    pub touched: bool,
}

/// What the program must do after a key press.
#[derive(Clone, Copy, Debug, PartialEq, Eq, Structural)]
pub enum Action {
    /// Nothing beyond the new state.
    Nothing,
    /// Leave the dashboard.
    Quit,
    /// Ask the daemon to toggle the filter.
    Toggle,
    /// Ask the daemon to follow the sun again.
    FollowTheSun,
    /// Send this daytime bound.
    SetDayTemp(u32),
    /// Send this night bound.
    SetNightTemp(u32),
    /// Step the gamma one notch up (`true`) or down.
    StepGamma(bool),
    /// Step the night dimming one notch up (`true`) or down.
    StepNightDim(bool),
    /// Send this fade switch.
    SetFade(bool),
    /// Flip starting at login.
    ToggleLogin,
    /// Wear this theme and remember it.
    WearTheme(usize),
    /// Start a stopped daemon, or restart one of another version.
    Revive { restart: bool },
    /// Ask the daemon to return to the timezone's location.
    ClearLocation,
    /// Start the location picker at the daemon's location.
    StartPicker,
    /// Move the picker's cursor one step.
    MovePicker(Direction),
    /// Pin the picker's cursor as the location.
    PinLocation,
    /// Drop the picker's cursor.
    CancelPicker,
    /// Open the band editor on the daemon's band.
    OpenBandEditor,
    /// Move a bound of the draft one half-degree step.
    NudgeBand { day: bool, increase: bool },
    /// Fill the draft with the default band.
    DefaultBand,
    /// Send the draft and adopt it.
    ApplyBand,
    /// Drop the draft.
    DiscardBand,
}

/// The tab that draws the schedule for now.
pub const NOW_TAB: usize = 0;
/// The tab that draws today's schedule.
pub const TODAY_TAB: usize = 1;
/// The location tab.
pub const LOCATION_TAB: usize = 2;
/// The settings tab.
pub const SETTINGS_TAB: usize = 4;
/// The settings rows: day, night, gamma, night dim, fade, theme, login.
pub const SETTINGS_ITEMS: usize = 7;
/// The help overlay's sections.
pub const HELP_SECTIONS: usize = 4;

impl Dashboard {
    /// Every index points at something that exists.
    pub open spec fn wf(self) -> bool {
        &&& self.tab < TAB_COUNT
        &&& self.settings_selected < SETTINGS_ITEMS
        &&& self.theme_index < THEME_COUNT
        &&& self.theme_popup matches Some(i) ==> i < THEME_COUNT
        &&& self.help_section < HELP_SECTIONS
    }

    /// No overlay or editor is open, so the tabs have the keyboard.
    pub open spec fn at_rest(self) -> bool {
        &&& self.theme_popup is None
        &&& self.band_edit is None
        &&& !self.map_popup
        &&& !self.help_popup
        &&& !self.sun_popup
        &&& !(self.picking && self.tab == LOCATION_TAB)
    }
}

/// The theme picker's keys.
pub open spec fn popup_step(d: Dashboard, key: Key) -> (Dashboard, Action) {
    let sel: usize = d.theme_popup.unwrap();
    match key {
        Key::Up => (Dashboard { theme_popup: Some(if sel == 0 { 0 } else { (sel - 1) as usize }), ..d }, Action::Nothing),
        Key::Down => (
            Dashboard {
                theme_popup: Some(if sel + 1 < THEME_COUNT { (sel + 1) as usize } else { (THEME_COUNT - 1) as usize }),
                ..d
            },
            Action::Nothing,
        ),
        Key::Enter => (Dashboard { theme_index: sel, theme_popup: None, ..d }, Action::WearTheme(sel)),
        Key::Esc | Key::Char('q') => (Dashboard { theme_popup: None, ..d }, Action::Nothing),
        _ => (d, Action::Nothing),
    }
}

/// The band editor's keys. While it asks whether to apply, enter or `y`
/// applies, escape, `n` or `q` drops the draft and anything else takes the
/// question back. Otherwise up and down pick a bound, left and right walk
/// it, `d` fills the default, enter applies, and escape, `b` or `q` leaves:
/// at once when nothing was changed, by way of the question when something
/// was.
pub open spec fn band_step(d: Dashboard, key: Key, touched: bool) -> (Dashboard, Action) {
    let e = d.band_edit.unwrap();
    if e.confirming {
        match key {
            Key::Enter | Key::Char('y') => (Dashboard { band_edit: None, ..d }, Action::ApplyBand),
            Key::Esc | Key::Char('n') | Key::Char('q') => (Dashboard { band_edit: None, ..d }, Action::DiscardBand),
            _ => (Dashboard { band_edit: Some(BandEditor { confirming: false, ..e }), ..d }, Action::Nothing),
        }
    } else {
        match key {
            Key::Up => (Dashboard { band_edit: Some(BandEditor { day_selected: true, ..e }), ..d }, Action::Nothing),
            Key::Down => (Dashboard { band_edit: Some(BandEditor { day_selected: false, ..e }), ..d }, Action::Nothing),
            Key::Left => (d, Action::NudgeBand { day: e.day_selected, increase: false }),
            Key::Right => (d, Action::NudgeBand { day: e.day_selected, increase: true }),
            Key::Char('d') => (d, Action::DefaultBand),
            Key::Enter => (Dashboard { band_edit: None, ..d }, Action::ApplyBand),
            Key::Esc | Key::Char('b') | Key::Char('q') => if touched {
                (Dashboard { band_edit: Some(BandEditor { confirming: true, ..e }), ..d }, Action::Nothing)
            } else {
                (Dashboard { band_edit: None, ..d }, Action::DiscardBand)
            },
            _ => (d, Action::Nothing),
        }
    }
}

/// The location picker's keys: the arrows move the cursor, enter pins it,
/// escape drops it and `q` still quits.
pub open spec fn picker_step(d: Dashboard, key: Key) -> (Dashboard, Action) {
    match key {
        Key::Up => (d, Action::MovePicker(Direction::North)),
        Key::Down => (d, Action::MovePicker(Direction::South)),
        Key::Right => (d, Action::MovePicker(Direction::East)),
        Key::Left => (d, Action::MovePicker(Direction::West)),
        Key::Enter => (Dashboard { picking: false, ..d }, Action::PinLocation),
        Key::Esc => (Dashboard { picking: false, ..d }, Action::CancelPicker),
        Key::Char('q') => (d, Action::Quit),
        _ => (d, Action::Nothing),
    }
}

/// The world map's keys: `m` always closes it, the picker runs inside it,
/// and otherwise enter starts a pick, `c` returns to the timezone and
/// escape or `q` closes.
pub open spec fn map_step(d: Dashboard, key: Key) -> (Dashboard, Action) {
    if key == Key::Char('m') {
        (Dashboard { map_popup: false, ..d }, Action::Nothing)
    } else if d.picking {
        picker_step(d, key)
    } else {
        match key {
            Key::Enter => (Dashboard { picking: true, ..d }, Action::StartPicker),
            Key::Char('c') => (d, Action::ClearLocation),
            Key::Esc | Key::Char('q') => (Dashboard { map_popup: false, ..d }, Action::Nothing),
            _ => (d, Action::Nothing),
        }
    }
}

/// The help overlay's keys: one section unfolded at a time, walked in a
/// ring; escape, enter, `q` or `?` closes.
pub open spec fn help_step(d: Dashboard, key: Key) -> (Dashboard, Action) {
    match key {
        Key::Up | Key::Left => (
            Dashboard { help_section: ((d.help_section + HELP_SECTIONS - 1) % HELP_SECTIONS as int) as usize, ..d },
            Action::Nothing,
        ),
        Key::Down | Key::Right | Key::Tab => (
            Dashboard { help_section: ((d.help_section + 1) % HELP_SECTIONS as int) as usize, ..d },
            Action::Nothing,
        ),
        Key::Esc | Key::Enter | Key::Char('q') | Key::Char('?') => (Dashboard { help_popup: false, ..d }, Action::Nothing),
        _ => (d, Action::Nothing),
    }
}

/// The sun overlay's keys: escape, enter, `q` or `s` closes.
pub open spec fn sun_step(d: Dashboard, key: Key) -> (Dashboard, Action) {
    match key {
        Key::Esc | Key::Enter | Key::Char('q') | Key::Char('s') => (Dashboard { sun_popup: false, ..d }, Action::Nothing),
        _ => (d, Action::Nothing),
    }
}

/// The fade switch flipped, when there is one to flip.
pub open spec fn fade_flip(d: Dashboard) -> (Dashboard, Action) {
    match d.fade {
        Some(f) => (Dashboard { fade: Some(!f), ..d }, Action::SetFade(!f)),
        None => (d, Action::Nothing),
    }
}

/// Left or right on the selected settings row.
pub open spec fn adjust_step(d: Dashboard, increase: bool, ctx: Context) -> (Dashboard, Action) {
    let row: usize = d.settings_selected;
    if row == 0 {
        match ctx.status {
            Some(s) => (d, Action::SetDayTemp(spec_nudged_day_temp(s.day_temp, s.night_temp, increase))),
            None => (d, Action::Nothing),
        }
    } else if row == 1 {
        match ctx.status {
            Some(s) => (d, Action::SetNightTemp(spec_nudged_night_temp(s.night_temp, s.day_temp, increase))),
            None => (d, Action::Nothing),
        }
    } else if row == 2 {
        if ctx.status is Some { (d, Action::StepGamma(increase)) } else { (d, Action::Nothing) }
    } else if row == 3 {
        if ctx.status is Some { (d, Action::StepNightDim(increase)) } else { (d, Action::Nothing) }
    } else if row == 4 {
        fade_flip(d)
    } else if row == 5 {
        let i: usize = spec_cycled(d.theme_index as nat, THEME_COUNT as nat, increase) as usize;
        (Dashboard { theme_index: i, ..d }, Action::WearTheme(i))
    } else if row == 6 {
        (d, Action::ToggleLogin)
    } else {
        (d, Action::Nothing)
    }
}

/// The settings tab's keys: up and down select a row, left and right
/// adjust it, enter or space toggles the rows that toggle.
pub open spec fn settings_step(d: Dashboard, key: Key, ctx: Context) -> (Dashboard, Action) {
    match key {
        Key::Up => (Dashboard { settings_selected: if d.settings_selected == 0 { 0 } else { (d.settings_selected - 1) as usize }, ..d }, Action::Nothing),
        Key::Down => (
            Dashboard {
                settings_selected: if d.settings_selected + 1 < SETTINGS_ITEMS { (d.settings_selected + 1) as usize } else { (SETTINGS_ITEMS - 1) as usize },
                ..d
            },
            Action::Nothing,
        ),
        Key::Left => adjust_step(d, false, ctx),
        Key::Right => adjust_step(d, true, ctx),
        Key::Enter | Key::Char(' ') => if d.settings_selected == 4 {
            fade_flip(d)
        } else if d.settings_selected == 5 {
            (Dashboard { theme_popup: Some(d.theme_index), ..d }, Action::Nothing)
        } else if d.settings_selected == 6 {
            (d, Action::ToggleLogin)
        } else {
            (d, Action::Nothing)
        },
        _ => (d, Action::Nothing),
    }
}

/// The location tab's keys while not picking.
pub open spec fn location_step(d: Dashboard, key: Key) -> (Dashboard, Action) {
    match key {
        Key::Enter => (Dashboard { picking: true, ..d }, Action::StartPicker),
        Key::Char('c') => (d, Action::ClearLocation),
        Key::Char('m') => (Dashboard { map_popup: true, ..d }, Action::Nothing),
        _ => (d, Action::Nothing),
    }
}

/// Whether a character is a tab's number key.
pub open spec fn is_tab_digit(c: char) -> bool {
    '1' <= c && c <= '9'
}

/// The keys of the tabs themselves. `q` and escape quit, as does ctrl-c;
/// `t`, `a`, `T`, `?`, `s` and `r` work on every tab; `b` opens the band
/// editor where a curve is drawn and a band is known; tab and the digits
/// switch tabs; the settings and location tabs own the rest, and elsewhere
/// up and down nudge the night bound.
pub open spec fn tabs_step(d: Dashboard, key: Key, ctrl: bool, ctx: Context) -> (Dashboard, Action) {
    match key {
        Key::Char('q') | Key::Esc => (d, Action::Quit),
        Key::Char('c') if ctrl => (d, Action::Quit),
        Key::Char('t') => (d, Action::Toggle),
        Key::Char('a') => (d, Action::FollowTheSun),
        Key::Char('T') => {
            let i: usize = spec_cycled(d.theme_index as nat, THEME_COUNT as nat, true) as usize;
            (Dashboard { theme_index: i, ..d }, Action::WearTheme(i))
        },
        Key::Char('?') => (Dashboard { help_popup: true, ..d }, Action::Nothing),
        Key::Char('s') => (Dashboard { sun_popup: true, ..d }, Action::Nothing),
        Key::Char('r') => if ctx.status is Some {
            (d, Action::Nothing)
        } else {
            (d, Action::Revive { restart: ctx.mismatch })
        },
        Key::Char('b') if ctx.band_known && (d.tab == NOW_TAB || d.tab == TODAY_TAB) => (
            Dashboard { band_edit: Some(BandEditor { day_selected: false, confirming: false }), ..d },
            Action::OpenBandEditor,
        ),
        Key::Tab => (Dashboard { tab: ((d.tab + 1) % TAB_COUNT as int) as usize, ..d }, Action::Nothing),
        Key::Char(c) if is_tab_digit(c) => {
            let i: int = (c as u32) - ('1' as u32);
            if i < TAB_COUNT {
                (Dashboard { tab: i as usize, ..d }, Action::Nothing)
            } else {
                (d, Action::Nothing)
            }
        },
        _ => if d.tab == SETTINGS_TAB {
            settings_step(d, key, ctx)
        } else if d.tab == LOCATION_TAB {
            location_step(d, key)
        } else if key == Key::Up || key == Key::Down {
            match ctx.status {
                Some(s) => (d, Action::SetNightTemp(spec_nudged_night_temp(s.night_temp, s.day_temp, key == Key::Up))),
                None => (d, Action::Nothing),
            }
        } else {
            (d, Action::Nothing)
        },
    }
}

/// A key press: the topmost open mode has the keyboard — the theme picker,
/// then the band editor, the map, the help and sun overlays, the location
/// picker on its tab, and last the tabs.
pub open spec fn key_step(d: Dashboard, key: Key, ctrl: bool, ctx: Context) -> (Dashboard, Action) {
    if d.theme_popup is Some {
        popup_step(d, key)
    } else if d.band_edit is Some {
        band_step(d, key, ctx.touched)
    } else if d.map_popup {
        map_step(d, key)
    } else if d.help_popup {
        help_step(d, key)
    } else if d.sun_popup {
        sun_step(d, key)
    } else if d.picking && d.tab == LOCATION_TAB {
        picker_step(d, key)
    } else {
        tabs_step(d, key, ctrl, ctx)
    }
}

/// The theme picker's keys.
fn popup_keys(d: Dashboard, key: Key) -> (r: (Dashboard, Action))
    requires
        d.theme_popup is Some,
    ensures
        r == popup_step(d, key),
{
    let sel: usize = d.theme_popup.unwrap();
    match key {
        Key::Up => (Dashboard { theme_popup: Some(if sel == 0 { 0 } else { sel - 1 }), ..d }, Action::Nothing),
        Key::Down => (
            Dashboard { theme_popup: Some(if sel < THEME_COUNT - 1 { sel + 1 } else { THEME_COUNT - 1 }), ..d },
            Action::Nothing,
        ),
        Key::Enter => (Dashboard { theme_index: sel, theme_popup: None, ..d }, Action::WearTheme(sel)),
        Key::Esc | Key::Char('q') => (Dashboard { theme_popup: None, ..d }, Action::Nothing),
        _ => (d, Action::Nothing),
    }
}

/// The band editor's keys.
fn band_keys(d: Dashboard, key: Key, touched: bool) -> (r: (Dashboard, Action))
    requires
        d.band_edit is Some,
    ensures
        r == band_step(d, key, touched),
{
    let e = d.band_edit.unwrap();
    if e.confirming {
        match key {
            Key::Enter | Key::Char('y') => (Dashboard { band_edit: None, ..d }, Action::ApplyBand),
            Key::Esc | Key::Char('n') | Key::Char('q') => (Dashboard { band_edit: None, ..d }, Action::DiscardBand),
            _ => (Dashboard { band_edit: Some(BandEditor { confirming: false, ..e }), ..d }, Action::Nothing),
        }
    } else {
        match key {
            Key::Up => (Dashboard { band_edit: Some(BandEditor { day_selected: true, ..e }), ..d }, Action::Nothing),
            Key::Down => (Dashboard { band_edit: Some(BandEditor { day_selected: false, ..e }), ..d }, Action::Nothing),
            Key::Left => (d, Action::NudgeBand { day: e.day_selected, increase: false }),
            Key::Right => (d, Action::NudgeBand { day: e.day_selected, increase: true }),
            Key::Char('d') => (d, Action::DefaultBand),
            Key::Enter => (Dashboard { band_edit: None, ..d }, Action::ApplyBand),
            Key::Esc | Key::Char('b') | Key::Char('q') => if touched {
                (Dashboard { band_edit: Some(BandEditor { confirming: true, ..e }), ..d }, Action::Nothing)
            } else {
                (Dashboard { band_edit: None, ..d }, Action::DiscardBand)
            },
            _ => (d, Action::Nothing),
        }
    }
}

/// The location picker's keys.
fn picker_keys(d: Dashboard, key: Key) -> (r: (Dashboard, Action))
    ensures
        r == picker_step(d, key),
{
    match key {
        Key::Up => (d, Action::MovePicker(Direction::North)),
        Key::Down => (d, Action::MovePicker(Direction::South)),
        Key::Right => (d, Action::MovePicker(Direction::East)),
        Key::Left => (d, Action::MovePicker(Direction::West)),
        Key::Enter => (Dashboard { picking: false, ..d }, Action::PinLocation),
        Key::Esc => (Dashboard { picking: false, ..d }, Action::CancelPicker),
        Key::Char('q') => (d, Action::Quit),
        _ => (d, Action::Nothing),
    }
}

/// The world map's keys.
fn map_keys(d: Dashboard, key: Key) -> (r: (Dashboard, Action))
    ensures
        r == map_step(d, key),
{
    if key == Key::Char('m') {
        (Dashboard { map_popup: false, ..d }, Action::Nothing)
    } else if d.picking {
        picker_keys(d, key)
    } else {
        match key {
            Key::Enter => (Dashboard { picking: true, ..d }, Action::StartPicker),
            Key::Char('c') => (d, Action::ClearLocation),
            Key::Esc | Key::Char('q') => (Dashboard { map_popup: false, ..d }, Action::Nothing),
            _ => (d, Action::Nothing),
        }
    }
}

/// The help overlay's keys.
fn help_keys(d: Dashboard, key: Key) -> (r: (Dashboard, Action))
    requires
        d.help_section < HELP_SECTIONS,
    ensures
        r == help_step(d, key),
{
    match key {
        Key::Up | Key::Left => (
            Dashboard { help_section: (d.help_section + HELP_SECTIONS - 1) % HELP_SECTIONS, ..d },
            Action::Nothing,
        ),
        Key::Down | Key::Right | Key::Tab => (
            Dashboard { help_section: (d.help_section + 1) % HELP_SECTIONS, ..d },
            Action::Nothing,
        ),
        Key::Esc | Key::Enter | Key::Char('q') | Key::Char('?') => (Dashboard { help_popup: false, ..d }, Action::Nothing),
        _ => (d, Action::Nothing),
    }
}

/// The sun overlay's keys.
fn sun_keys(d: Dashboard, key: Key) -> (r: (Dashboard, Action))
    ensures
        r == sun_step(d, key),
{
    match key {
        Key::Esc | Key::Enter | Key::Char('q') | Key::Char('s') => (Dashboard { sun_popup: false, ..d }, Action::Nothing),
        _ => (d, Action::Nothing),
    }
}

/// The fade switch flipped, when there is one.
fn flip_fade(d: Dashboard) -> (r: (Dashboard, Action))
    ensures
        r == fade_flip(d),
{
    match d.fade {
        Some(f) => (Dashboard { fade: Some(!f), ..d }, Action::SetFade(!f)),
        None => (d, Action::Nothing),
    }
}

/// Left or right on the selected settings row.
fn adjust(d: Dashboard, increase: bool, ctx: Context) -> (r: (Dashboard, Action))
    requires
        d.wf(),
    ensures
        r == adjust_step(d, increase, ctx),
{
    let row: usize = d.settings_selected;
    if row == 0 {
        match ctx.status {
            Some(s) => (d, Action::SetDayTemp(nudged_day_temp(s.day_temp, s.night_temp, increase))),
            None => (d, Action::Nothing),
        }
    } else if row == 1 {
        match ctx.status {
            Some(s) => (d, Action::SetNightTemp(nudged_night_temp(s.night_temp, s.day_temp, increase))),
            None => (d, Action::Nothing),
        }
    } else if row == 2 {
        if ctx.status.is_some() { (d, Action::StepGamma(increase)) } else { (d, Action::Nothing) }
    } else if row == 3 {
        if ctx.status.is_some() { (d, Action::StepNightDim(increase)) } else { (d, Action::Nothing) }
    } else if row == 4 {
        flip_fade(d)
    } else if row == 5 {
        let i: usize = cycled(d.theme_index, THEME_COUNT, increase);
        (Dashboard { theme_index: i, ..d }, Action::WearTheme(i))
    } else if row == 6 {
        (d, Action::ToggleLogin)
    } else {
        (d, Action::Nothing)
    }
}

/// The settings tab's keys.
fn settings_keys(d: Dashboard, key: Key, ctx: Context) -> (r: (Dashboard, Action))
    requires
        d.wf(),
    ensures
        r == settings_step(d, key, ctx),
{
    match key {
        Key::Up => (
            Dashboard { settings_selected: if d.settings_selected == 0 { 0 } else { d.settings_selected - 1 }, ..d },
            Action::Nothing,
        ),
        Key::Down => (
            Dashboard {
                settings_selected: if d.settings_selected < SETTINGS_ITEMS - 1 { d.settings_selected + 1 } else { SETTINGS_ITEMS - 1 },
                ..d
            },
            Action::Nothing,
        ),
        Key::Left => adjust(d, false, ctx),
        Key::Right => adjust(d, true, ctx),
        Key::Enter | Key::Char(' ') => if d.settings_selected == 4 {
            flip_fade(d)
        } else if d.settings_selected == 5 {
            (Dashboard { theme_popup: Some(d.theme_index), ..d }, Action::Nothing)
        } else if d.settings_selected == 6 {
            (d, Action::ToggleLogin)
        } else {
            (d, Action::Nothing)
        },
        _ => (d, Action::Nothing),
    }
}

/// The location tab's keys while not picking.
fn location_keys(d: Dashboard, key: Key) -> (r: (Dashboard, Action))
    ensures
        r == location_step(d, key),
{
    match key {
        Key::Enter => (Dashboard { picking: true, ..d }, Action::StartPicker),
        Key::Char('c') => (d, Action::ClearLocation),
        Key::Char('m') => (Dashboard { map_popup: true, ..d }, Action::Nothing),
        _ => (d, Action::Nothing),
    }
}

/// The keys of the tabs themselves.
fn tabs_keys(d: Dashboard, key: Key, ctrl: bool, ctx: Context) -> (r: (Dashboard, Action))
    requires
        d.wf(),
    ensures
        r == tabs_step(d, key, ctrl, ctx),
{
    match key {
        Key::Char('q') | Key::Esc => (d, Action::Quit),
        Key::Char('c') if ctrl => (d, Action::Quit),
        Key::Char('t') => (d, Action::Toggle),
        Key::Char('a') => (d, Action::FollowTheSun),
        Key::Char('T') => {
            let i: usize = cycled(d.theme_index, THEME_COUNT, true);
            (Dashboard { theme_index: i, ..d }, Action::WearTheme(i))
        },
        Key::Char('?') => (Dashboard { help_popup: true, ..d }, Action::Nothing),
        Key::Char('s') => (Dashboard { sun_popup: true, ..d }, Action::Nothing),
        Key::Char('r') => if ctx.status.is_some() {
            (d, Action::Nothing)
        } else {
            (d, Action::Revive { restart: ctx.mismatch })
        },
        Key::Char('b') if ctx.band_known && (d.tab == NOW_TAB || d.tab == TODAY_TAB) => (
            Dashboard { band_edit: Some(BandEditor { day_selected: false, confirming: false }), ..d },
            Action::OpenBandEditor,
        ),
        Key::Tab => (Dashboard { tab: (d.tab + 1) % TAB_COUNT, ..d }, Action::Nothing),
        Key::Char(c) if '1' <= c && c <= '9' => {
            let i: u32 = (c as u32) - ('1' as u32);
            if i < 5 {
                (Dashboard { tab: i as usize, ..d }, Action::Nothing)
            } else {
                (d, Action::Nothing)
            }
        },
        _ => if d.tab == SETTINGS_TAB {
            settings_keys(d, key, ctx)
        } else if d.tab == LOCATION_TAB {
            location_keys(d, key)
        } else if key == Key::Up || key == Key::Down {
            match ctx.status {
                Some(s) => (d, Action::SetNightTemp(nudged_night_temp(s.night_temp, s.day_temp, key == Key::Up))),
                None => (d, Action::Nothing),
            }
        } else {
            (d, Action::Nothing)
        },
    }
}

impl Dashboard {
    /// A dashboard opening on `tab`, wearing theme `theme_index`, with the
    /// fade switch as the daemon reported it: nothing open, the first
    /// settings row and help section selected.
    pub fn new(tab: usize, theme_index: usize, fade: Option<bool>) -> (d: Dashboard)
        requires
            tab < TAB_COUNT,
            theme_index < THEME_COUNT,
        ensures
            d.wf(),
            d.at_rest(),
            d.tab == tab,
            d.theme_index == theme_index,
            d.fade == fade,
            d.settings_selected == 0,
            d.help_section == 0,
            !d.picking,
    {
        Dashboard {
            tab,
            settings_selected: 0,
            theme_index,
            theme_popup: None,
            band_edit: None,
            help_popup: false,
            help_section: 0,
            sun_popup: false,
            map_popup: false,
            picking: false,
            fade,
        }
    }

    /// Handles one key press (`ctrl` when the control key was held) and
    /// returns what the program must do next.
    pub fn handle_key(&mut self, key: Key, ctrl: bool, ctx: Context) -> (a: Action)
        requires
            old(self).wf(),
        ensures
            (*final(self), a) == key_step(*old(self), key, ctrl, ctx),
            final(self).wf(),
    {
        let d = *self;
        let (next, action) = if d.theme_popup.is_some() {
            popup_keys(d, key)
        } else if d.band_edit.is_some() {
            band_keys(d, key, ctx.touched)
        } else if d.map_popup {
            map_keys(d, key)
        } else if d.help_popup {
            help_keys(d, key)
        } else if d.sun_popup {
            sun_keys(d, key)
        } else if d.picking && d.tab == LOCATION_TAB {
            picker_keys(d, key)
        } else {
            tabs_keys(d, key, ctrl, ctx)
        };
        proof {
            lemma_keys_keep_the_dashboard_well_formed(d, key, ctrl, ctx);
        }
        *self = next;
        action
    }
}

/// Every key keeps every index of the dashboard pointing at something that
/// exists.
pub proof fn lemma_keys_keep_the_dashboard_well_formed(d: Dashboard, key: Key, ctrl: bool, ctx: Context)
    requires
        d.wf(),
    ensures
        key_step(d, key, ctrl, ctx).0.wf(),
{
    assert(spec_cycled(d.theme_index as nat, THEME_COUNT as nat, true) < THEME_COUNT) by {
        vstd::arithmetic::div_mod::lemma_mod_bound((d.theme_index + 1) as int, THEME_COUNT as int);
    }
    assert(spec_cycled(d.theme_index as nat, THEME_COUNT as nat, false) < THEME_COUNT) by {
        vstd::arithmetic::div_mod::lemma_mod_bound((d.theme_index + THEME_COUNT - 1) as int, THEME_COUNT as int);
    }
}

/// The theme picker owns the keyboard while it is open: a key moves its
/// highlight, wears the highlighted theme or closes it, and nothing else.
pub proof fn lemma_the_theme_picker_owns_the_keyboard(d: Dashboard, key: Key, ctrl: bool, ctx: Context)
    requires
        d.theme_popup is Some,
    ensures
        ({
            let (n, a) = key_step(d, key, ctrl, ctx);
            &&& n == (Dashboard { theme_popup: n.theme_popup, theme_index: n.theme_index, ..d })
            &&& a == Action::Nothing || a == Action::WearTheme(n.theme_index)
        }),
{
}

/// The daemon never hears about the band draft until it is applied: while
/// the editor is open, a key edits the draft, applies it, drops it, or
/// does nothing.
pub proof fn lemma_the_draft_reaches_the_daemon_only_on_apply(d: Dashboard, key: Key, ctrl: bool, ctx: Context)
    requires
        d.theme_popup is None,
        d.band_edit is Some,
    ensures
        ({
            let a = key_step(d, key, ctrl, ctx).1;
            ||| a == Action::Nothing
            ||| a is NudgeBand
            ||| a == Action::DefaultBand
            ||| a == Action::ApplyBand
            ||| a == Action::DiscardBand
        }),
{
}

/// A changed draft is never thrown away silently: leaving the editor with
/// one asks first, so until the question is answered the editor closes
/// only by applying.
pub proof fn lemma_a_changed_draft_is_never_dropped_unasked(d: Dashboard, key: Key, ctrl: bool, ctx: Context)
    requires
        d.theme_popup is None,
        d.band_edit matches Some(e) && !e.confirming,
        ctx.touched,
    ensures
        key_step(d, key, ctrl, ctx).1 != Action::DiscardBand,
        key_step(d, key, ctrl, ctx).0.band_edit is None ==> key_step(d, key, ctrl, ctx).1
            == Action::ApplyBand,
{
}

/// The band editor opens only where a curve is drawn, against a daemon
/// that reported a band, and only on `b`.
pub proof fn lemma_the_band_editor_opens_only_over_a_curve(d: Dashboard, key: Key, ctrl: bool, ctx: Context)
    requires
        d.band_edit is None,
        key_step(d, key, ctrl, ctx).0.band_edit is Some,
    ensures
        key == Key::Char('b'),
        ctx.band_known,
        d.tab == NOW_TAB || d.tab == TODAY_TAB,
        key_step(d, key, ctrl, ctx).1 == Action::OpenBandEditor,
{
}

/// Only `q` quits from inside a mode, and only the location picker lets it:
/// escape and ctrl-c quit from the tabs alone, and neither the theme picker
/// nor the band editor ever quits.
pub proof fn lemma_what_quits(d: Dashboard, key: Key, ctrl: bool, ctx: Context)
    ensures
        key_step(d, key, ctrl, ctx).1 == Action::Quit ==> {
            &&& d.theme_popup is None
            &&& d.band_edit is None
            &&& key == Key::Char('q') || d.at_rest()
            &&& key == Key::Char('q') || key == Key::Esc || (key == Key::Char('c') && ctrl)
        },
        d.at_rest() && (key == Key::Char('q') || key == Key::Esc) ==> key_step(d, key, ctrl, ctx).1
            == Action::Quit,
{
}

/// A key never sends bounds that cross: a daytime bound it sends is at or
/// above the daemon's night bound, a night bound at or below its daytime
/// bound.
pub proof fn lemma_keys_never_cross_the_bounds(d: Dashboard, key: Key, ctrl: bool, ctx: Context)
    requires
        d.wf(),
    ensures
        key_step(d, key, ctrl, ctx).1 matches Action::SetDayTemp(k) ==> ctx.status matches Some(s)
            && k >= s.night_temp,
        key_step(d, key, ctrl, ctx).1 matches Action::SetNightTemp(k) ==> ctx.status matches Some(s)
            && k <= s.day_temp,
{
    if let Some(s) = ctx.status {
        crate::bounds::lemma_nudges_keep_the_pair_ordered(s.day_temp, s.night_temp, true);
        crate::bounds::lemma_nudges_keep_the_pair_ordered(s.day_temp, s.night_temp, false);
    }
}

/// The help sections form a ring: a step down then a step up unfolds the
/// section that was open.
pub proof fn lemma_help_sections_walk_a_ring(d: Dashboard, ctrl: bool, ctx: Context)
    requires
        d.wf(),
        d.theme_popup is None,
        d.band_edit is None,
        !d.map_popup,
        d.help_popup,
    ensures
        key_step(key_step(d, Key::Down, ctrl, ctx).0, Key::Up, ctrl, ctx).0 == d,
{
    let n = key_step(d, Key::Down, ctrl, ctx).0;
    assert(n.help_section == (d.help_section + 1) % 4);
    assert(key_step(n, Key::Up, ctrl, ctx).0.help_section == (n.help_section + 3) % 4);
}

/// Whether the location picker has the keyboard: it runs inside the map,
/// or on the location tab with nothing open over it.
pub open spec fn picker_has_keyboard(d: Dashboard) -> bool {
    &&& d.theme_popup is None
    &&& d.band_edit is None
    &&& d.picking
    &&& (d.map_popup || (!d.help_popup && !d.sun_popup && d.tab == LOCATION_TAB))
}

/// The picker's arrows move the cursor the way they point on the map: up
/// raises the latitude, down lowers it, right raises the longitude, left
/// lowers it, each along one axis only — so the four arrows go four
/// different ways and opposite arrows undo each other.
pub proof fn lemma_the_picker_arrows_point_as_drawn(d: Dashboard, ctrl: bool, ctx: Context)
    requires
        picker_has_keyboard(d),
    ensures
        key_step(d, Key::Up, ctrl, ctx).1 matches Action::MovePicker(m) && latitude_step(m) > 0
            && longitude_step(m) == 0,
        key_step(d, Key::Down, ctrl, ctx).1 matches Action::MovePicker(m) && latitude_step(m) < 0
            && longitude_step(m) == 0,
        key_step(d, Key::Right, ctrl, ctx).1 matches Action::MovePicker(m) && longitude_step(m) > 0
            && latitude_step(m) == 0,
        key_step(d, Key::Left, ctrl, ctx).1 matches Action::MovePicker(m) && longitude_step(m) < 0
            && latitude_step(m) == 0,
        key_step(d, Key::Up, ctrl, ctx).0 == d && key_step(d, Key::Down, ctrl, ctx).0 == d
            && key_step(d, Key::Left, ctrl, ctx).0 == d && key_step(d, Key::Right, ctrl, ctx).0 == d,
{
}

/// Enter pins the cursor and escape drops it, and either way the pick is
/// over and nothing else changes; a pin is sent only from a running pick.
pub proof fn lemma_a_pick_ends_in_a_pin_or_nothing(d: Dashboard, key: Key, ctrl: bool, ctx: Context)
    ensures
        picker_has_keyboard(d) ==> key_step(d, Key::Enter, ctrl, ctx) == (
            Dashboard { picking: false, ..d },
            Action::PinLocation,
        ),
        picker_has_keyboard(d) ==> key_step(d, Key::Esc, ctrl, ctx) == (
            Dashboard { picking: false, ..d },
            Action::CancelPicker,
        ),
        key_step(d, key, ctrl, ctx).1 == Action::PinLocation ==> d.picking && key == Key::Enter,
{
}

} // verus!
