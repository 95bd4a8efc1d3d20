//! The tray icon's decisions: which icon it shows, what a click does, the
//! hover text, and the right-click menu's entries in their fixed order.
//!
//! The menu keeps one shape whatever the daemon is doing: what is
//! happening, what can be done about it, and the application itself, in
//! three blocks. A control that cannot work now is greyed rather than
//! hidden, because the readout above says why; only an entry whose absence
//! needs no explaining (the fade switch against a daemon that has never
//! heard of it, the panel when it is not installed) comes and goes.

use vstd::prelude::*;

use crate::readout::Reading;
use crate::text::{chars_of, concat, decimal, decimal_chars, string_of};

verus! {

broadcast use vstd::string::group_string_axioms;

/// What the tray knows when it builds its menu.
#[derive(Clone, Copy, Debug, PartialEq, Eq, Structural)]
pub struct TrayView {
    /// The daemon's status, `None` when it cannot be read.
    pub status: Option<Reading>,
    /// The fade switch, `None` when the daemon cannot answer for it.
    pub fade: Option<bool>,
    /// The daemon owns its bus name but cannot be read: another version.
    pub mismatch: bool,
    /// Whether the daemon runs the default transition band.
    pub default_band: bool,
    /// Whether the settings panel is installed.
    pub panel_installed: bool,
}

/// One entry of the tray's menu.
#[derive(Clone, Copy, Debug, PartialEq, Eq, Structural)]
pub enum MenuEntry {
    /// What the screen is doing, not clickable.
    Readout,
    /// The configured band, not clickable; shown only when it is not the
    /// default.
    BandLine,
    /// A line between blocks.
    Separator,
    /// "Turn on" or "Turn off": the direction it promises is the one it
    /// sends.
    Switch { turn_on: bool, enabled: bool },
    /// The "Automatic" checkbox: ticked while following the sun.
    Automatic { checked: bool, enabled: bool },
    /// The "Fade transitions" checkbox.
    FadeTransitions { checked: bool },
    /// "Start the daemon", or "Restart the daemon" for one of another
    /// version.
    Daemon { restart: bool },
    /// "Settings…", which opens the panel.
    Settings,
    /// "Quit".
    Quit,
}

/// What the tray does on a click.
#[derive(Clone, Copy, Debug, PartialEq, Eq, Structural)]
pub enum TrayAction {
    /// Nothing: the entry is not clickable.
    Nothing,
    /// Ask the daemon to toggle the filter.
    Toggle,
    /// Ask the daemon to switch the filter on (`true`) or off.
    SetEnabled(bool),
    /// Refresh, then hold or follow by what the fresh status says.
    ToggleFollow,
    /// Hold the screen at this temperature.
    Hold(u32),
    /// Ask the daemon to follow the sun.
    FollowTheSun,
    /// Send this fade switch.
    SetFade(bool),
    /// Start a daemon.
    StartDaemon,
    /// Restart the daemon of another version.
    RestartDaemon,
    /// Open the settings panel.
    OpenPanel,
    /// Leave.
    Quit,
}

/// The menu: the readout (and the band when it is not the default); the
/// switch, the automatic checkbox and the fade checkbox when the daemon
/// answers for it; the daemon's repair when it cannot be read, and the
/// panel when it is installed; and quit.
pub open spec fn spec_menu(v: TrayView) -> Seq<MenuEntry> {
    let reachable = v.status is Some;
    let on = v.status matches Some(s) && s.enabled;
    let following = v.status matches Some(s) && s.following;
    let head = if reachable && !v.default_band {
        seq![MenuEntry::Readout, MenuEntry::BandLine]
    } else {
        seq![MenuEntry::Readout]
    };
    let controls = seq![
        MenuEntry::Switch { turn_on: !on, enabled: reachable },
        MenuEntry::Automatic { checked: following, enabled: reachable },
    ] + match v.fade {
        Some(f) => seq![MenuEntry::FadeTransitions { checked: f }],
        None => Seq::empty(),
    };
    let app = (if reachable {
        Seq::empty()
    } else {
        seq![MenuEntry::Daemon { restart: v.mismatch }]
    }) + (if v.panel_installed {
        seq![MenuEntry::Settings]
    } else {
        Seq::empty()
    });
    head + seq![MenuEntry::Separator] + controls + seq![MenuEntry::Separator] + app + seq![
        MenuEntry::Separator,
        MenuEntry::Quit,
    ]
}

/// The label of an entry with fixed words; the readout and band lines are
/// worded elsewhere and a separator has none.
pub open spec fn spec_label(e: MenuEntry) -> Option<Seq<char>> {
    match e {
        MenuEntry::Switch { turn_on, .. } => Some(if turn_on { "Turn on"@ } else { "Turn off"@ }),
        MenuEntry::Automatic { .. } => Some("Automatic"@),
        MenuEntry::FadeTransitions { .. } => Some("Fade transitions"@),
        MenuEntry::Daemon { restart } => Some(if restart { "Restart the daemon"@ } else { "Start the daemon"@ }),
        MenuEntry::Settings => Some("Settings\u{2026}"@),
        MenuEntry::Quit => Some("Quit"@),
        _ => None,
    }
}

/// The themed icon an entry carries, if any.
pub open spec fn spec_entry_icon(e: MenuEntry) -> Option<Seq<char>> {
    match e {
        MenuEntry::Daemon { restart } => Some(if restart { "view-refresh"@ } else { "media-playback-start"@ }),
        MenuEntry::Settings => Some("preferences-system"@),
        MenuEntry::Quit => Some("application-exit"@),
        _ => None,
    }
}

/// What clicking an entry does.
pub open spec fn spec_activate(e: MenuEntry) -> TrayAction {
    match e {
        MenuEntry::Switch { turn_on, .. } => TrayAction::SetEnabled(turn_on),
        MenuEntry::Automatic { .. } => TrayAction::ToggleFollow,
        MenuEntry::FadeTransitions { checked } => TrayAction::SetFade(!checked),
        MenuEntry::Daemon { restart } => if restart {
            TrayAction::RestartDaemon
        } else {
            TrayAction::StartDaemon
        },
        MenuEntry::Settings => TrayAction::OpenPanel,
        MenuEntry::Quit => TrayAction::Quit,
        _ => TrayAction::Nothing,
    }
}

/// The icon: the plain one while the filter is on, and during a version
/// mismatch, because then a daemon is running; the disabled one otherwise.
pub open spec fn spec_icon_name(status: Option<Reading>, mismatch: bool) -> Seq<char> {
    if (status matches Some(s) && s.enabled) || mismatch {
        "night-light-symbolic"@
    } else {
        "night-light-disabled-symbolic"@
    }
}

/// A left click: it toggles the filter, or starts a daemon when there is
/// none to toggle.
pub open spec fn spec_click(status: Option<Reading>, mismatch: bool) -> TrayAction {
    if status is None && !mismatch {
        TrayAction::StartDaemon
    } else {
        TrayAction::Toggle
    }
}

/// The automatic checkbox, decided on a freshly read status: following
/// freezes at the temperature shown, anything else resumes following.
pub open spec fn spec_follow_toggle(status: Option<Reading>) -> TrayAction {
    match status {
        Some(s) => if s.following {
            TrayAction::Hold(s.temperature)
        } else {
            TrayAction::FollowTheSun
        },
        None => TrayAction::FollowTheSun,
    }
}

/// The hover text for a readable daemon: on or off and the temperature,
/// what drives it, and the sun's line when a location is known.
pub open spec fn describe_words(r: Reading, source: Seq<char>, sun: Seq<char>) -> Seq<char> {
    (if r.enabled { "on"@ } else { "off"@ }) + " \u{b7} "@ + decimal(r.temperature as nat) + " K\n"@
        + source + if r.has_location {
        "\n"@ + sun
    } else {
        Seq::empty()
    }
}

/// The hover text.
pub open spec fn tooltip_words(status: Option<Reading>, mismatch: bool, source: Seq<char>, sun: Seq<char>) -> Seq<char> {
    match status {
        Some(r) => describe_words(r, source, sun),
        None => if mismatch {
            "update needed\ntray and daemon are different versions"@
        } else {
            "daemon not running"@
        },
    }
}

/// The tray's menu entries, in order.
pub fn menu(v: TrayView) -> (m: Vec<MenuEntry>)
    ensures
        m@ == spec_menu(v),
{
    let reachable = v.status.is_some();
    let on = match v.status {
        Some(s) => s.enabled,
        None => false,
    };
    let following = match v.status {
        Some(s) => s.following,
        None => false,
    };
    let mut m: Vec<MenuEntry> = Vec::new();
    m.push(MenuEntry::Readout);
    if reachable && !v.default_band {
        m.push(MenuEntry::BandLine);
    }
    m.push(MenuEntry::Separator);
    m.push(MenuEntry::Switch { turn_on: !on, enabled: reachable });
    m.push(MenuEntry::Automatic { checked: following, enabled: reachable });
    if let Some(f) = v.fade {
        m.push(MenuEntry::FadeTransitions { checked: f });
    }
    m.push(MenuEntry::Separator);
    if !reachable {
        m.push(MenuEntry::Daemon { restart: v.mismatch });
    }
    if v.panel_installed {
        m.push(MenuEntry::Settings);
    }
    m.push(MenuEntry::Separator);
    m.push(MenuEntry::Quit);
    assert(m@ =~= spec_menu(v));
    m
}

/// The label of an entry with fixed words.
pub fn label(e: MenuEntry) -> (r: Option<&'static str>)
    ensures
        (match r {
            Some(s) => Some(s@),
            None => None,
        }) == spec_label(e),
{
    match e {
        MenuEntry::Switch { turn_on, .. } => Some(if turn_on { "Turn on" } else { "Turn off" }),
        MenuEntry::Automatic { .. } => Some("Automatic"),
        MenuEntry::FadeTransitions { .. } => Some("Fade transitions"),
        MenuEntry::Daemon { restart } => Some(if restart { "Restart the daemon" } else { "Start the daemon" }),
        MenuEntry::Settings => Some("Settings\u{2026}"),
        MenuEntry::Quit => Some("Quit"),
        _ => None,
    }
}

/// The themed icon an entry carries, if any.
pub fn entry_icon(e: MenuEntry) -> (r: Option<&'static str>)
    ensures
        (match r {
            Some(s) => Some(s@),
            None => None,
        }) == spec_entry_icon(e),
{
    match e {
        MenuEntry::Daemon { restart } => Some(if restart { "view-refresh" } else { "media-playback-start" }),
        MenuEntry::Settings => Some("preferences-system"),
        MenuEntry::Quit => Some("application-exit"),
        _ => None,
    }
}

/// What clicking an entry does.
pub fn activate(e: MenuEntry) -> (a: TrayAction)
    ensures
        a == spec_activate(e),
{
    match e {
        MenuEntry::Switch { turn_on, .. } => TrayAction::SetEnabled(turn_on),
        MenuEntry::Automatic { .. } => TrayAction::ToggleFollow,
        MenuEntry::FadeTransitions { checked } => TrayAction::SetFade(!checked),
        MenuEntry::Daemon { restart } => if restart {
            TrayAction::RestartDaemon
        } else {
            TrayAction::StartDaemon
        },
        MenuEntry::Settings => TrayAction::OpenPanel,
        MenuEntry::Quit => TrayAction::Quit,
        _ => TrayAction::Nothing,
    }
}

/// The tray's icon name.
pub fn icon_name(status: Option<Reading>, mismatch: bool) -> (r: &'static str)
    ensures
        r@ == spec_icon_name(status, mismatch),
{
    let on = match status {
        Some(s) => s.enabled,
        None => false,
    };
    if on || mismatch {
        "night-light-symbolic"
    } else {
        "night-light-disabled-symbolic"
    }
}

/// What a left click does.
pub fn click(status: Option<Reading>, mismatch: bool) -> (a: TrayAction)
    ensures
        a == spec_click(status, mismatch),
{
    if status.is_none() && !mismatch {
        TrayAction::StartDaemon
    } else {
        TrayAction::Toggle
    }
}

/// What the automatic checkbox does, on a freshly read status.
pub fn follow_toggle(status: Option<Reading>) -> (a: TrayAction)
    ensures
        a == spec_follow_toggle(status),
{
    match status {
        Some(s) => if s.following {
            TrayAction::Hold(s.temperature)
        } else {
            TrayAction::FollowTheSun
        },
        None => TrayAction::FollowTheSun,
    }
}

/// The hover text for a readable daemon. `source` is what drives the
/// temperature in the daemon's words, `sun` the line about the sun, used
/// only when a location is known.
pub fn describe(r: Reading, source: &str, sun: &str) -> (t: String)
    ensures
        t@ == describe_words(r, source@, sun@),
{
    let onoff = if r.enabled { chars_of("on") } else { chars_of("off") };
    let head = concat(&concat(&onoff, &chars_of(" \u{b7} ")), &decimal_chars(r.temperature as u64));
    let mut text = concat(&concat(&head, &chars_of(" K\n")), &chars_of(source));
    if r.has_location {
        text = concat(&concat(&text, &chars_of("\n")), &chars_of(sun));
    }
    proof {
        assert(describe_words(r, source@, sun@) =~= text@);
    }
    string_of(&text)
}

/// The hover text.
pub fn tooltip(status: Option<Reading>, mismatch: bool, source: &str, sun: &str) -> (t: String)
    ensures
        t@ == tooltip_words(status, mismatch, source@, sun@),
{
    match status {
        Some(r) => describe(r, source, sun),
        None => if mismatch {
            "update needed\ntray and daemon are different versions".to_owned()
        } else {
            "daemon not running".to_owned()
        },
    }
}

/// The menu keeps one shape whatever the daemon is doing: the readout
/// first, quit last behind a separator, and the switch and the automatic
/// checkbox right after the first separator, greyed when the daemon cannot
/// be reached.
pub proof fn lemma_the_menu_keeps_one_shape(v: TrayView)
    ensures
        ({
            let m = spec_menu(v);
            let k: int = if v.status is Some && !v.default_band { 2int } else { 1int };
            &&& m[0] == MenuEntry::Readout
            &&& m.last() == MenuEntry::Quit
            &&& m[m.len() - 2] == MenuEntry::Separator
            &&& m[k] == MenuEntry::Separator
            &&& m[k + 1] matches MenuEntry::Switch { enabled, .. } && enabled == v.status is Some
            &&& m[k + 2] matches MenuEntry::Automatic { enabled, .. } && enabled == v.status is Some
        }),
{
}

/// The switch promises a direction and sends that direction: it reads
/// "Turn on" exactly when the filter is not on, and clicking it asks for
/// what it reads.
pub proof fn lemma_the_switch_sends_what_it_says(v: TrayView)
    ensures
        ({
            let m = spec_menu(v);
            let k: int = if v.status is Some && !v.default_band { 2int } else { 1int };
            let on = v.status matches Some(s) && s.enabled;
            &&& spec_label(m[k + 1]) == Some(if on { "Turn off"@ } else { "Turn on"@ })
            &&& spec_activate(m[k + 1]) == TrayAction::SetEnabled(!on)
        }),
{
}

/// The daemon's repair is offered exactly when its status cannot be read,
/// the fade checkbox exactly when the daemon answers for it, and the
/// panel exactly when it is installed.
pub proof fn lemma_entries_come_and_go_by_what_they_need(v: TrayView)
    ensures
        spec_menu(v).contains(MenuEntry::Daemon { restart: v.mismatch }) <==> v.status is None,
        (exists|i: int| 0 <= i < spec_menu(v).len() && spec_menu(v)[i] is FadeTransitions)
            <==> v.fade is Some,
        spec_menu(v).contains(MenuEntry::Settings) <==> v.panel_installed,
{
    let m = spec_menu(v);
    let k: int = if v.status is Some && !v.default_band { 2int } else { 1int };
    let f: int = if v.fade is Some { 1int } else { 0int };
    // Where each block starts.
    assert(m[k + 3 + f] == MenuEntry::Separator);
    if v.status is None {
        assert(m[k + 4 + f] == MenuEntry::Daemon { restart: v.mismatch });
    }
    if v.fade is Some {
        assert(m[k + 3] is FadeTransitions);
    }
    if v.panel_installed {
        let d: int = if v.status is None { 1int } else { 0int };
        assert(m[k + 4 + f + d] == MenuEntry::Settings);
    }
}

/// A checkbox click asks for the opposite of its tick: clicking the fade
/// checkbox sends the fade switch its tick does not show, and the fade
/// checkbox in the menu shows the daemon's switch, so a click from the menu
/// always flips it.
pub proof fn lemma_a_checkbox_click_flips_it(v: TrayView, checked: bool)
    ensures
        (spec_activate(MenuEntry::FadeTransitions { checked }) matches TrayAction::SetFade(f) && f != checked),
        forall|i: int|
            0 <= i < spec_menu(v).len() && #[trigger] spec_menu(v)[i] is FadeTransitions ==> (v.fade
                matches Some(f) && spec_activate(spec_menu(v)[i]) == TrayAction::SetFade(!f)),
{
    let m = spec_menu(v);
    let k: int = if v.status is Some && !v.default_band { 2int } else { 1int };
    let f: int = if v.fade is Some { 1int } else { 0int };
    let d: int = if v.status is None { 1int } else { 0int };
    let p: int = if v.panel_installed { 1int } else { 0int };
    assert(m.len() == k + 4 + f + d + p + 2);
    assert forall|i: int| 0 <= i < m.len() && #[trigger] m[i] is FadeTransitions implies (v.fade matches Some(g)
        && spec_activate(m[i]) == TrayAction::SetFade(!g)) by {
        if i < k {
        } else if i == k {
        } else if i < k + 3 {
        } else if i < k + 3 + f {
        } else if i == k + 3 + f {
        } else if i < k + 4 + f + d + p {
            if d == 1 && i == k + 4 + f {
                assert(m[i] is Daemon);
            } else {
                assert(m[i] == MenuEntry::Settings);
            }
        } else if i == k + 4 + f + d + p {
            assert(m[i] == MenuEntry::Separator);
        } else {
            assert(m[i] == MenuEntry::Quit);
        }
    }
}

/// The icon and the clicks agree with what they show: a left click starts
/// a daemon only where the icon shows the disabled variant; the automatic
/// box freezes only a screen that is following the sun, and freezes it at
/// the temperature it shows; any other state resumes following.
pub proof fn lemma_the_clicks_act_on_what_is_shown(status: Option<Reading>, mismatch: bool)
    ensures
        spec_click(status, mismatch) == TrayAction::StartDaemon ==> spec_icon_name(status, mismatch)
            == "night-light-disabled-symbolic"@,
        spec_click(status, mismatch) == TrayAction::StartDaemon || spec_click(status, mismatch)
            == TrayAction::Toggle,
        spec_follow_toggle(status) matches TrayAction::Hold(k) ==> (status matches Some(s) && s.following
            && k == s.temperature),
        (status matches Some(s) && s.following) ==> spec_follow_toggle(status) is Hold,
        !(status matches Some(s) && s.following) ==> spec_follow_toggle(status) == TrayAction::FollowTheSun,
{
}

} // verus!
