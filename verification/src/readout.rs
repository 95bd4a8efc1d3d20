//! The words the interfaces print: spans of time, how far off a moment is,
//! what the chart has to say about the screen, and a place's name. Callers
//! round their measurements to whole minutes or seconds; the wording is
//! decided here.

use vstd::prelude::*;

use crate::text::{chars_of, concat, decimal, decimal_chars, last_index, last_index_of, string_of};

verus! {

broadcast use vstd::string::group_string_axioms;

/// The night bound a settings screen starts from: the configuration default,
/// or the deeper night a demonstration reel draws.
pub const DEFAULT_NIGHT: u32 = 4500;

/// The night bound of a demonstration, which has no daemon to correct it.
pub const DEMO_NIGHT: u32 = 2600;

/// A number at least two digits wide, zero-padded (`{:02}`).
pub open spec fn pad2(n: nat) -> Seq<char> {
    if n < 10 {
        seq!['0'] + decimal(n)
    } else {
        decimal(n)
    }
}

/// `"{h}h {m:02}m"` for a span of minutes.
pub open spec fn hours_minutes_words(minutes: nat) -> Seq<char> {
    decimal(minutes / 60) + "h "@ + pad2(minutes % 60) + "m"@
}

/// `"3h 20m"`, or `"45m"` under an hour.
pub open spec fn span_words(minutes: nat) -> Seq<char> {
    if minutes / 60 > 0 {
        hours_minutes_words(minutes)
    } else {
        decimal(minutes % 60) + "m"@
    }
}

/// `"in 2h 05m"`, `"3h 12m ago"` or `"now"` for a signed count of minutes.
pub open spec fn relative_words(minutes: int) -> Seq<char> {
    if minutes == 0 {
        "now"@
    } else if minutes > 0 {
        "in "@ + span_words(minutes as nat)
    } else {
        span_words((-minutes) as nat) + " ago"@
    }
}

/// How a day's length changed against yesterday, from the change in whole
/// seconds and its direction.
pub open spec fn length_change_words(seconds: nat, longer: bool) -> Seq<char> {
    let word = if longer {
        "longer"@
    } else {
        "shorter"@
    };
    if seconds == 0 {
        "the same as yesterday"@
    } else if seconds / 60 == 0 {
        decimal(seconds % 60) + "s "@ + word + " than yesterday"@
    } else {
        decimal(seconds / 60) + "m "@ + pad2(seconds % 60) + "s "@ + word + " than yesterday"@
    }
}

/// What the chart says about the screen: nothing when the screen follows
/// the schedule drawn; otherwise whether it is off or held, with the
/// temperature. Off outranks a hold.
pub open spec fn out_of_force_words(enabled: bool, following: bool, temperature: u32) -> Option<
    Seq<char>,
> {
    if enabled && following {
        None
    } else if enabled {
        Some("held at "@ + decimal(temperature as nat) + " K"@)
    } else {
        Some("off \u{b7} "@ + decimal(temperature as nat) + " K"@)
    }
}

/// The last `/`-separated part of a zone name, underscores read as spaces.
pub open spec fn city_of(zone: Seq<char>) -> Seq<char> {
    let last = match last_index(zone, '/') {
        Some(i) => zone.skip(i + 1),
        None => zone,
    };
    last.map_values(|c: char| if c == '_' { ' ' } else { c })
}

/// A place's label: the city, marked `≈` when the match is only nearby.
pub open spec fn place_words(zone: Seq<char>, exact: bool) -> Seq<char> {
    if exact {
        city_of(zone)
    } else {
        "\u{2248} "@ + city_of(zone)
    }
}

/// The view of an optional string.
pub open spec fn opt_words(s: Option<String>) -> Option<Seq<char>> {
    match s {
        Some(v) => Some(v@),
        None => None,
    }
}

/// The starting night bound: the deeper one in a demonstration.
pub fn default_night(demo: bool) -> (kelvin: u32)
    ensures
        kelvin == (if demo {
            DEMO_NIGHT
        } else {
            DEFAULT_NIGHT
        }),
{
    if demo {
        DEMO_NIGHT
    } else {
        DEFAULT_NIGHT
    }
}

/// Zero-padded to two digits.
fn pad2_chars(n: u64) -> (r: Vec<char>)
    ensures
        r@ == pad2(n as nat),
{
    let digits = decimal_chars(n);
    if n < 10 {
        let zero = vec!['0'];
        concat(&zero, &digits)
    } else {
        digits
    }
}

/// Characters of a literal followed by more characters.
fn then(a: Vec<char>, b: &str) -> (r: Vec<char>)
    ensures
        r@ == a@ + b@,
{
    concat(&a, &chars_of(b))
}

/// The characters of `"{h}h {m:02}m"`.
fn hours_minutes_chars(minutes: u64) -> (r: Vec<char>)
    ensures
        r@ == hours_minutes_words(minutes as nat),
{
    let head = then(decimal_chars(minutes / 60), "h ");
    then(concat(&head, &pad2_chars(minutes % 60)), "m")
}

/// The characters of a short span.
fn span_chars(minutes: u64) -> (r: Vec<char>)
    ensures
        r@ == span_words(minutes as nat),
{
    if minutes / 60 > 0 {
        hours_minutes_chars(minutes)
    } else {
        then(decimal_chars(minutes % 60), "m")
    }
}

/// `"14h 32m"` for a span in whole minutes: hours and minutes, because that
/// is how long a day is said out loud.
pub fn hours_and_minutes(minutes: u64) -> (s: String)
    ensures
        s@ == hours_minutes_words(minutes as nat),
{
    string_of(&hours_minutes_chars(minutes))
}

/// A short `"3h 20m"` or `"45m"` span, for the daylight label.
pub fn hm(minutes: u64) -> (s: String)
    ensures
        s@ == span_words(minutes as nat),
{
    string_of(&span_chars(minutes))
}

/// An integer as `{:02}` prints it: zero-padded to two places, a negative
/// number signed, the sign counting towards the width.
pub open spec fn signed_pad2(n: int) -> Seq<char> {
    if n >= 0 {
        pad2(n as nat)
    } else {
        "-"@ + decimal((-n) as nat)
    }
}

/// `"{:02}:{:02}"` of a count of minutes, split into hours and minutes with
/// truncating division as integer division truncates.
pub open spec fn hhmm_words(minutes: int) -> Seq<char> {
    let hours = if minutes >= 0 { minutes / 60 } else { -((-minutes) / 60) };
    let rest = if minutes >= 0 { minutes % 60 } else { -((-minutes) % 60) };
    signed_pad2(hours) + ":"@ + signed_pad2(rest)
}

/// `{:02}` of a signed number.
fn signed_pad2_chars(n: i64) -> (r: Vec<char>)
    requires
        n > i64::MIN,
    ensures
        r@ == signed_pad2(n as int),
{
    if n >= 0 {
        pad2_chars(n as u64)
    } else {
        concat(&chars_of("-"), &decimal_chars((-n) as u64))
    }
}

/// A milestone's clock time, `"HH:MM"`, from its hour of the day rounded
/// to whole minutes.
pub fn hhmm(minutes: i64) -> (s: String)
    requires
        minutes > i64::MIN,
    ensures
        s@ == hhmm_words(minutes as int),
{
    let (hours, rest): (i64, i64) = if minutes >= 0 {
        (minutes / 60, minutes % 60)
    } else {
        let a = (-minutes) as u64;
        (-((a / 60) as i64), -((a % 60) as i64))
    };
    string_of(&concat(&then(signed_pad2_chars(hours), ":"), &signed_pad2_chars(rest)))
}


/// `"in 2h 05m"`, `"3h 12m ago"` or `"now"` for a signed count of whole
/// minutes, so a row says how far off it is without arithmetic.
pub fn relative(minutes: i64) -> (s: String)
    requires
        minutes > i64::MIN,
    ensures
        s@ == relative_words(minutes as int),
{
    if minutes == 0 {
        "now".to_owned()
    } else if minutes > 0 {
        let r = concat(&chars_of("in "), &span_chars(minutes as u64));
        string_of(&r)
    } else {
        let magnitude = (-minutes) as u64;
        string_of(&then(span_chars(magnitude), " ago"))
    }
}

/// The day's length against yesterday, from the change in whole seconds:
/// seconds matter, because near the solstices the change is a handful of
/// them.
pub fn length_change(seconds: u64, longer: bool) -> (s: String)
    ensures
        s@ == length_change_words(seconds as nat, longer),
{
    if seconds == 0 {
        return "the same as yesterday".to_owned();
    }
    let word = if longer {
        "longer"
    } else {
        "shorter"
    };
    let head = if seconds / 60 == 0 {
        then(decimal_chars(seconds % 60), "s ")
    } else {
        then(concat(&then(decimal_chars(seconds / 60), "m "), &pad2_chars(seconds % 60)), "s ")
    };
    string_of(&then(then(head, word), " than yesterday"))
}

/// What the chart has to say about the screen, or `None` when the schedule
/// it draws is what the screen is following. A filter that is off is off
/// whether or not a hold sits remembered under it.
pub fn out_of_force(enabled: bool, following: bool, temperature: u32) -> (r: Option<String>)
    ensures
        opt_words(r) == out_of_force_words(enabled, following, temperature),
{
    if enabled && following {
        None
    } else if enabled {
        let text = then(concat(&chars_of("held at "), &decimal_chars(temperature as u64)), " K");
        Some(string_of(&text))
    } else {
        let text = then(
            concat(&chars_of("off \u{b7} "), &decimal_chars(temperature as u64)),
            " K",
        );
        Some(string_of(&text))
    }
}

/// A human label from a zone name and how close it sits: `Europe/Istanbul`
/// right on the spot reads "Istanbul", a nearby match "≈ Istanbul".
pub fn place_label(zone: &str, exact: bool) -> (s: String)
    ensures
        s@ == place_words(zone@, exact),
{
    let z = chars_of(zone);
    let n = z.len();
    let found = last_index_of(&z, '/');
    let last = match found {
        Some(i) => crate::text::slice(&z, i + 1, n),
        None => z,
    };
    let mut city: Vec<char> = Vec::new();
    let mut i: usize = 0;
    while i < last.len()
        invariant
            i <= last.len(),
            city@ == last@.take(i as int).map_values(|c: char| if c == '_' { ' ' } else { c }),
        decreases last.len() - i,
    {
        let c = last[i];
        city.push(if c == '_' { ' ' } else { c });
        assert(last@.take(i + 1) == last@.take(i as int).push(last@[i as int]));
        i = i + 1;
    }
    assert(last@.take(last.len() as int) == last@);
    if exact {
        string_of(&city)
    } else {
        string_of(&concat(&chars_of("\u{2248} "), &city))
    }
}

/// The dashboard's and the panel's tabs, in order.
pub open spec fn tab_name(i: int) -> Seq<char> {
    if i == 0 {
        "now"@
    } else if i == 1 {
        "today"@
    } else if i == 2 {
        "location"@
    } else if i == 3 {
        "outputs"@
    } else {
        "settings"@
    }
}

/// How many tabs there are.
pub const TAB_COUNT: usize = 5;

/// The first tab named `name`, searching from `i`.
pub open spec fn tab_from(name: Seq<char>, i: int) -> Option<int>
    decreases 5 - i,
{
    if i < 0 || i >= 5 {
        None
    } else if tab_name(i) == name {
        Some(i)
    } else {
        tab_from(name, i + 1)
    }
}

/// A `--tab` value as the dashboard reads it: a tab's name, or its number
/// counted from one.
pub open spec fn spec_tab_index(name: Seq<char>) -> Option<int> {
    match tab_from(name, 0) {
        Some(i) => Some(i),
        None => match crate::number::parse_u32_spec(name) {
            Some(n) => if 1 <= n <= 5 {
                Some(n - 1)
            } else {
                None
            },
            None => None,
        },
    }
}

/// The tab's name at `i`.
fn tab_title(i: usize) -> (s: &'static str)
    requires
        i < TAB_COUNT,
    ensures
        s@ == tab_name(i as int),
{
    if i == 0 {
        "now"
    } else if i == 1 {
        "today"
    } else if i == 2 {
        "location"
    } else if i == 3 {
        "outputs"
    } else {
        "settings"
    }
}

/// The index of the tab with this name.
pub fn tab_by_name(name: &str) -> (r: Option<usize>)
    ensures
        r matches Some(i) ==> tab_from(name@, 0) == Some(i as int) && i < TAB_COUNT,
        r is None ==> tab_from(name@, 0) is None,
{
    let wanted = chars_of(name);
    let mut i: usize = 0;
    while i < TAB_COUNT
        invariant
            i <= 5,
            wanted@ == name@,
            tab_from(name@, 0) == tab_from(name@, i as int),
        decreases 5 - i,
    {
        if crate::text::same_chars(&chars_of(tab_title(i)), &wanted) {
            return Some(i);
        }
        i = i + 1;
    }
    None
}

/// A `--tab` value: a tab's name, or its number counted from one.
pub fn tab_index(name: &str) -> (r: Option<usize>)
    ensures
        r matches Some(i) ==> spec_tab_index(name@) == Some(i as int) && i < TAB_COUNT,
        r is None ==> spec_tab_index(name@) is None,
{
    match tab_by_name(name) {
        Some(i) => Some(i),
        None => match crate::number::parse_u32(name) {
            Some(n) => if 1 <= n && n <= 5 {
                Some((n - 1) as usize)
            } else {
                None
            },
            None => None,
        },
    }
}

/// How the tray presents its one-line readout.
#[derive(Clone, Copy, Debug, PartialEq, Eq, Structural)]
pub enum Disposition {
    /// An ordinary reading.
    Informative,
    /// Something is missing: the daemon is not running.
    Warning,
    /// Something is wrong: the daemon answers but speaks another version.
    Alert,
}

/// What the readout needs from a daemon snapshot.
#[derive(Clone, Copy, Debug, PartialEq, Eq, Structural)]
pub struct Reading {
    pub enabled: bool,
    pub following: bool,
    pub has_location: bool,
    pub temperature: u32,
}

/// The tray's readout: "off" outranks everything, "manual" outranks the
/// sun's phase, and a daemon that cannot be read is either absent or a
/// different version.
pub open spec fn readout_words(status: Option<Reading>, mismatch: bool, phase: Seq<char>) -> (
    Seq<char>,
    Disposition,
) {
    match status {
        Some(s) => {
            let head = decimal(s.temperature as nat) + " K \u{b7} "@;
            if !s.enabled {
                (head + "off"@, Disposition::Informative)
            } else if !s.following {
                (head + "manual"@, Disposition::Informative)
            } else if s.has_location {
                (head + phase, Disposition::Informative)
            } else {
                (head + "no location"@, Disposition::Informative)
            }
        },
        None => if mismatch {
            ("Update needed \u{b7} versions differ"@, Disposition::Alert)
        } else {
            ("Daemon not running"@, Disposition::Warning)
        },
    }
}

/// The tray's readout words and how to present them. `phase` names where
/// the sun is in the configured band, used when a location is known.
pub fn readout_label(status: Option<Reading>, mismatch: bool, phase: &str) -> (r: (String, Disposition))
    ensures
        (r.0@, r.1) == readout_words(status, mismatch, phase@),
{
    match status {
        Some(s) => {
            let head = then(decimal_chars(s.temperature as u64), " K \u{b7} ");
            if !s.enabled {
                (string_of(&then(head, "off")), Disposition::Informative)
            } else if !s.following {
                (string_of(&then(head, "manual")), Disposition::Informative)
            } else if s.has_location {
                (string_of(&then(head, phase)), Disposition::Informative)
            } else {
                (string_of(&then(head, "no location")), Disposition::Informative)
            }
        },
        None => if mismatch {
            ("Update needed \u{b7} versions differ".to_owned(), Disposition::Alert)
        } else {
            ("Daemon not running".to_owned(), Disposition::Warning)
        },
    }
}

/// The wall clock's `"HH:MM"` at `now` seconds since the Unix epoch, in a
/// zone `offset` seconds east of UTC.
pub open spec fn clock_words(now: int, offset: int) -> Seq<char> {
    let secs = (now + offset) % 86400;
    pad2((secs / 3600) as nat) + ":"@ + pad2(((secs % 3600) / 60) as nat)
}

/// The strip's place and time: the city and the clock, or the clock alone
/// until a place is known.
pub open spec fn where_when_words(city: Option<Seq<char>>, clock: Seq<char>) -> Seq<char> {
    match city {
        Some(c) => c + " \u{b7} "@ + clock,
        None => clock,
    }
}

/// The state card's headline, mode and reason, and the phase its little sky
/// draws: off outranks everything and manual outranks the sun, the same
/// precedence the tray's readout keeps; the sky appears only where the sun
/// is what drives the screen.
pub open spec fn state_words(status: Option<Reading>, mismatch: bool, phase: Seq<char>, where_when: Seq<char>) -> (
    Seq<char>,
    Seq<char>,
    Seq<char>,
    Option<Seq<char>>,
) {
    match status {
        Some(s) => {
            let head = decimal(s.temperature as nat) + " K"@;
            if !s.enabled {
                (head, "OFF"@, "the filter is off \u{b7} "@ + where_when, None)
            } else if !s.following {
                (head, "MANUAL"@, "held by hand \u{b7} "@ + where_when, None)
            } else {
                let place = if s.has_location { phase } else { "no location"@ };
                (head, "AUTO"@, place + " \u{b7} "@ + where_when, if s.has_location { Some(phase) } else { None })
            }
        },
        None => if mismatch {
            ("update needed"@, Seq::empty(), "this panel and the daemon are different versions"@, None)
        } else {
            ("not running"@, Seq::empty(), "the daemon is not running, so nothing reaches the screen"@, None)
        },
    }
}

/// The local wall clock as `"HH:MM"`, from seconds since the Unix epoch and
/// the zone's offset from UTC in seconds.
pub fn clock(now: i64, offset: i32) -> (s: String)
    requires
        i64::MIN <= now + offset <= i64::MAX,
    ensures
        s@ == clock_words(now as int, offset as int),
{
    let total = now + offset as i64;
    let r = total % 86400;
    let secs = if r < 0 { r + 86400 } else { r };
    assert(secs == (now + offset) % 86400) by {
        assert(total == now + offset);
    }
    let hours = pad2_chars((secs / 3600) as u64);
    let minutes = pad2_chars(((secs % 3600) / 60) as u64);
    string_of(&concat(&then(hours, ":"), &minutes))
}

/// The place and time the panel's strip shows.
pub fn where_and_when(city: Option<&str>, clock: &str) -> (s: String)
    ensures
        s@ == where_when_words(
            match city {
                Some(c) => Some(c@),
                None => None,
            },
            clock@,
        ),
{
    match city {
        Some(c) => string_of(&concat(&then(chars_of(c), " \u{b7} "), &chars_of(clock))),
        None => string_of(&chars_of(clock)),
    }
}

/// The panel's state card: the headline, the mode, the reason, and the
/// phase for the little sky when the sun drives the screen. `phase` names
/// where the sun is in the daemon's band; `where_when` is the strip's place
/// and time.
pub fn state_lines(status: Option<Reading>, mismatch: bool, phase: &str, where_when: &str) -> (r: (
    String,
    String,
    String,
    Option<String>,
))
    ensures
        (r.0@, r.1@, r.2@, opt_words(r.3)) == state_words(status, mismatch, phase@, where_when@),
{
    match status {
        Some(s) => {
            let head = string_of(&then(decimal_chars(s.temperature as u64), " K"));
            if !s.enabled {
                (head, "OFF".to_owned(), string_of(&then(chars_of("the filter is off \u{b7} "), where_when)), None)
            } else if !s.following {
                (head, "MANUAL".to_owned(), string_of(&then(chars_of("held by hand \u{b7} "), where_when)), None)
            } else {
                let place = if s.has_location { chars_of(phase) } else { chars_of("no location") };
                let why = string_of(&then(then(place, " \u{b7} "), where_when));
                let sky = if s.has_location { Some(string_of(&chars_of(phase))) } else { None };
                (head, "AUTO".to_owned(), why, sky)
            }
        },
        None => if mismatch {
            (
                "update needed".to_owned(),
                string_of(&Vec::new()),
                "this panel and the daemon are different versions".to_owned(),
                None,
            )
        } else {
            (
                "not running".to_owned(),
                string_of(&Vec::new()),
                "the daemon is not running, so nothing reaches the screen".to_owned(),
                None,
            )
        },
    }
}

/// A line of the `--status` readout that appears only when there is
/// something to say: its label and text, then a line break.
pub open spec fn optional_line(label: Seq<char>, text: Option<Seq<char>>) -> Seq<char> {
    match text {
        Some(t) => label + t + "\n"@,
        None => Seq::empty(),
    }
}

/// The readout's first two lines: on or off with the temperature, and what
/// drives it.
pub open spec fn status_head(enabled: bool, temperature: u32, source: Seq<char>) -> Seq<char> {
    "nightlightd: "@ + (if enabled { "on"@ } else { "off"@ }) + ", "@ + decimal(temperature as nat) + " K\n"@
        + "  source: "@ + source + "\n"@
}

/// The fade line, printed only when the switch is off.
pub open spec fn fade_line(fade: bool) -> Seq<char> {
    if fade {
        Seq::empty()
    } else {
        "  fade:   off\n"@
    }
}

/// The sun's line and the place's, when a location is known.
pub open spec fn located_lines(located: Option<(Seq<char>, Seq<char>)>) -> Seq<char> {
    match located {
        Some((sun, place)) => "  sun:    "@ + sun + "\n"@ + "  place:  "@ + place + " (resolved)\n"@,
        None => Seq::empty(),
    }
}

/// The `--status` readout: the headline, what drives the temperature, and
/// then only the details that are doing something — the ramp's shaping
/// factors, the fade switch when it is off, a band that is not the default,
/// and the sun and the place when a location is known. Measurements come
/// worded by the caller.
pub open spec fn status_words(
    enabled: bool,
    temperature: u32,
    source: Seq<char>,
    ramp: Option<Seq<char>>,
    fade: bool,
    band: Option<Seq<char>>,
    located: Option<(Seq<char>, Seq<char>)>,
) -> Seq<char> {
    status_head(enabled, temperature, source) + optional_line("  ramp:   "@, ramp) + fade_line(fade)
        + optional_line("  band:   "@, band) + located_lines(located)
}

/// How many line breaks a text holds.
pub open spec fn newlines(s: Seq<char>) -> nat
    decreases s.len(),
{
    if s.len() == 0 {
        0
    } else {
        newlines(s.drop_last()) + if s.last() == '\n' { 1nat } else { 0nat }
    }
}

/// Line breaks add up over a concatenation.
pub proof fn lemma_newlines_add(a: Seq<char>, b: Seq<char>)
    ensures
        newlines(a + b) == newlines(a) + newlines(b),
    decreases b.len(),
{
    if b.len() == 0 {
        assert(a + b =~= a);
    } else {
        assert((a + b).drop_last() =~= a + b.drop_last());
        lemma_newlines_add(a, b.drop_last());
    }
}

/// A text with no line break in it.
pub open spec fn one_line(s: Seq<char>) -> bool {
    forall|i: int| 0 <= i < s.len() ==> s[i] != '\n'
}

/// One line holds no line break.
proof fn lemma_one_line_has_no_breaks(s: Seq<char>)
    requires
        one_line(s),
    ensures
        newlines(s) == 0,
    decreases s.len(),
{
    if s.len() > 0 {
        lemma_one_line_has_no_breaks(s.drop_last());
    }
}

/// One line joined to another is one line.
proof fn lemma_one_line_join(a: Seq<char>, b: Seq<char>)
    requires
        one_line(a),
        one_line(b),
    ensures
        one_line(a + b),
{
    assert forall|i: int| 0 <= i < (a + b).len() implies (a + b)[i] != '\n' by {
        if i >= a.len() {
            assert((a + b)[i] == b[i - a.len()]);
        }
    }
}

/// A label, a one-line text and a break make one line.
proof fn lemma_a_line_is_one_line(label: Seq<char>, t: Seq<char>)
    requires
        one_line(label),
        one_line(t),
    ensures
        newlines(label + t + "\n"@) == 1,
{
    lemma_one_line_join(label, t);
    lemma_one_line_has_no_breaks(label + t);
    lemma_newlines_add(label + t, "\n"@);
    assert(newlines("\n"@) == 1) by {
        reveal_strlit("\n");
        assert("\n"@.drop_last() =~= Seq::<char>::empty());
        assert(newlines(Seq::<char>::empty()) == 0);
    }
}

/// A decimal numeral holds no line break.
proof fn lemma_decimal_is_one_line(n: nat)
    ensures
        one_line(decimal(n)),
    decreases n,
{
    if n >= 10 {
        lemma_decimal_is_one_line(n / 10);
        lemma_one_line_join(decimal(n / 10), seq![crate::text::digit_char((n % 10) as int)]);
    }
}

/// The headline and the source make two lines.
proof fn lemma_head_has_two_lines(enabled: bool, temperature: u32, source: Seq<char>)
    requires
        one_line(source),
    ensures
        newlines(status_head(enabled, temperature, source)) == 2,
{
    reveal_strlit("nightlightd: ");
    reveal_strlit("on");
    reveal_strlit("off");
    reveal_strlit(", ");
    reveal_strlit(" K");
    reveal_strlit(" K\n");
    reveal_strlit("  source: ");
    reveal_strlit("\n");
    let onoff = if enabled { "on"@ } else { "off"@ };
    lemma_decimal_is_one_line(temperature as nat);
    lemma_one_line_join("nightlightd: "@, onoff);
    lemma_one_line_join("nightlightd: "@ + onoff, ", "@);
    lemma_one_line_join("nightlightd: "@ + onoff + ", "@, decimal(temperature as nat));
    let head = "nightlightd: "@ + onoff + ", "@ + decimal(temperature as nat);
    assert(head + " K\n"@ =~= head + " K"@ + "\n"@);
    lemma_a_line_is_one_line(head, " K"@);
    lemma_a_line_is_one_line("  source: "@, source);
    lemma_newlines_add(head + " K\n"@, "  source: "@ + source + "\n"@);
    assert(status_head(enabled, temperature, source) =~= (head + " K\n"@) + ("  source: "@ + source
        + "\n"@));
}

/// An optional line is one line when present, none when absent.
proof fn lemma_optional_line_count(label: Seq<char>, text: Option<Seq<char>>)
    requires
        one_line(label),
        text matches Some(t) ==> one_line(t),
    ensures
        newlines(optional_line(label, text)) == if text is Some { 1nat } else { 0nat },
{
    if let Some(t) = text {
        lemma_a_line_is_one_line(label, t);
    }
}

/// The fade line is there only when the switch is off.
proof fn lemma_fade_line_count(fade: bool)
    ensures
        newlines(fade_line(fade)) == if fade { 0nat } else { 1nat },
{
    if !fade {
        reveal_strlit("  fade:   off");
        reveal_strlit("  fade:   off\n");
        reveal_strlit("\n");
        assert("  fade:   off\n"@ =~= "  fade:   off"@ + Seq::<char>::empty() + "\n"@);
        lemma_a_line_is_one_line("  fade:   off"@, Seq::<char>::empty());
    }
}

/// A location earns two lines.
proof fn lemma_located_lines_count(located: Option<(Seq<char>, Seq<char>)>)
    requires
        located matches Some((sun, place)) ==> one_line(sun) && one_line(place),
    ensures
        newlines(located_lines(located)) == if located is Some { 2nat } else { 0nat },
{
    if let Some((sun, place)) = located {
        reveal_strlit("  sun:    ");
        reveal_strlit("  place:  ");
        reveal_strlit(" (resolved)");
        reveal_strlit(" (resolved)\n");
        reveal_strlit("\n");
        assert(" (resolved)\n"@ =~= " (resolved)"@ + "\n"@);
        lemma_a_line_is_one_line("  sun:    "@, sun);
        lemma_one_line_join(place, " (resolved)"@);
        lemma_a_line_is_one_line("  place:  "@, place + " (resolved)"@);
        let a = "  sun:    "@ + sun + "\n"@;
        let b = "  place:  "@ + (place + " (resolved)"@) + "\n"@;
        assert(located_lines(located) =~= a + b);
        lemma_newlines_add(a, b);
    }
}

/// A setting that is doing nothing earns no line in the readout, and one
/// that is doing something earns exactly one; a location earns two. So
/// with every worded piece on one line, the readout has two lines plus one
/// for each of the ramp, a fade switched off and the band, and two for a
/// location.
pub proof fn lemma_only_what_does_something_earns_a_line(
    enabled: bool,
    temperature: u32,
    source: Seq<char>,
    ramp: Option<Seq<char>>,
    fade: bool,
    band: Option<Seq<char>>,
    located: Option<(Seq<char>, Seq<char>)>,
)
    requires
        one_line(source),
        ramp matches Some(r) ==> one_line(r),
        band matches Some(b) ==> one_line(b),
        located matches Some((sun, place)) ==> one_line(sun) && one_line(place),
    ensures
        newlines(status_words(enabled, temperature, source, ramp, fade, band, located)) == 2 + (if ramp
            is Some {
            1int
        } else {
            0
        }) + (if fade {
            0int
        } else {
            1
        }) + (if band is Some {
            1int
        } else {
            0
        }) + (if located is Some {
            2int
        } else {
            0
        }),
{
    reveal_strlit("  ramp:   ");
    reveal_strlit("  band:   ");
    let a = status_head(enabled, temperature, source);
    let b = optional_line("  ramp:   "@, ramp);
    let c = fade_line(fade);
    let d = optional_line("  band:   "@, band);
    let e = located_lines(located);
    lemma_head_has_two_lines(enabled, temperature, source);
    lemma_optional_line_count("  ramp:   "@, ramp);
    lemma_fade_line_count(fade);
    lemma_optional_line_count("  band:   "@, band);
    lemma_located_lines_count(located);
    lemma_newlines_add(a, b);
    lemma_newlines_add(a + b, c);
    lemma_newlines_add(a + b + c, d);
    lemma_newlines_add(a + b + c + d, e);
}

/// An optional line's characters.
fn optional_line_chars(label: &str, text: Option<&str>) -> (r: Vec<char>)
    ensures
        r@ == optional_line(
            label@,
            match text {
                Some(t) => Some(t@),
                None => None,
            },
        ),
{
    match text {
        Some(t) => then(then(chars_of(label), t), "\n"),
        None => Vec::new(),
    }
}

/// The `--status` readout. `ramp` words the shaping factors when they do
/// something, `band` a band that is not the default, and `located` the
/// sun's line and the coordinates when a location is known.
pub fn status_text(
    enabled: bool,
    temperature: u32,
    source: &str,
    ramp: Option<&str>,
    fade: bool,
    band: Option<&str>,
    located: Option<(&str, &str)>,
) -> (s: String)
    ensures
        s@ == status_words(
            enabled,
            temperature,
            source@,
            match ramp {
                Some(r) => Some(r@),
                None => None,
            },
            fade,
            match band {
                Some(b) => Some(b@),
                None => None,
            },
            match located {
                Some((sun, place)) => Some((sun@, place@)),
                None => None,
            },
        ),
{
    let onoff = if enabled { "on" } else { "off" };
    let first = then(concat(&then(then(chars_of("nightlightd: "), onoff), ", "), &decimal_chars(temperature as u64)), " K\n");
    let head = then(then(then(first, "  source: "), source), "\n");
    let fade_chars = if fade { Vec::new() } else { chars_of("  fade:   off\n") };
    let place_chars = match located {
        Some((sun, place)) => then(then(then(then(then(chars_of("  sun:    "), sun), "\n"), "  place:  "), place), " (resolved)\n"),
        None => Vec::new(),
    };
    let ramp_chars = optional_line_chars("  ramp:   ", ramp);
    let band_chars = optional_line_chars("  band:   ", band);
    let out = concat(&concat(&concat(&concat(&head, &ramp_chars), &fade_chars), &band_chars), &place_chars);
    string_of(&out)
}

/// The panel's state card and the tray's readout rank a status alike: off
/// outranks everything, manual outranks the sun, and the sun's phase shows
/// in both exactly when the filter follows it at a known location. The
/// phase is one of the band's three words.
pub proof fn lemma_the_panel_and_the_tray_rank_alike(s: Reading, mismatch: bool, phase: Seq<char>, where_when: Seq<char>)
    requires
        phase == "day"@ || phase == "night"@ || phase == "transition"@,
    ensures
        ({
            let card = state_words(Some(s), mismatch, phase, where_when);
            let tray = readout_words(Some(s), mismatch, phase).0;
            let head = decimal(s.temperature as nat) + " K \u{b7} "@;
            &&& (card.1 == "OFF"@) <==> (tray == head + "off"@)
            &&& (card.1 == "MANUAL"@) <==> (tray == head + "manual"@)
            &&& (card.3 is Some) <==> (s.enabled && s.following && s.has_location)
            &&& card.3 is Some ==> tray == head + phase
        }),
{
    reveal_strlit("OFF");
    reveal_strlit("MANUAL");
    reveal_strlit("AUTO");
    reveal_strlit("off");
    reveal_strlit("manual");
    reveal_strlit("no location");
    reveal_strlit("day");
    reveal_strlit("night");
    reveal_strlit("transition");
    let head = decimal(s.temperature as nat) + " K \u{b7} "@;
    let tray = readout_words(Some(s), mismatch, phase).0;
    let tail = if !s.enabled {
        "off"@
    } else if !s.following {
        "manual"@
    } else if s.has_location {
        phase
    } else {
        "no location"@
    };
    assert(tray == head + tail);
    lemma_append_cancel(head, tail, "off"@);
    lemma_append_cancel(head, tail, "manual"@);
    assert("OFF"@ != "MANUAL"@ && "OFF"@ != "AUTO"@ && "MANUAL"@ != "AUTO"@) by {
        assert("OFF"@.len() != "MANUAL"@.len());
        assert("OFF"@[0] != "AUTO"@[0]);
        assert("MANUAL"@[0] != "AUTO"@[0]);
    }
    assert("off"@ != "manual"@ && "off"@ != "no location"@ && "manual"@ != "no location"@) by {
        assert("off"@.len() != "manual"@.len());
        assert("off"@.len() != "no location"@.len());
        assert("manual"@.len() != "no location"@.len());
    }
    assert(phase != "off"@ && phase != "manual"@) by {
        assert("day"@[0] != "off"@[0]);
        assert("night"@.len() != "off"@.len() && "night"@.len() != "manual"@.len());
        assert("transition"@.len() != "off"@.len() && "transition"@.len() != "manual"@.len());
        assert("day"@.len() != "manual"@.len());
    }
}

/// Two texts with the same beginning are equal only when the rest is.
proof fn lemma_append_cancel(head: Seq<char>, a: Seq<char>, b: Seq<char>)
    ensures
        head + a == head + b <==> a == b,
{
    if head + a == head + b {
        assert(a =~= (head + a).skip(head.len() as int));
        assert(b =~= (head + b).skip(head.len() as int));
    }
}

/// What each line of the `--status` readout says: the readout opens with
/// the headline and the source; a ramp, a band and a fade switched off each
/// appear as their labelled line with the caller's words; and with a
/// location the readout ends with the sun's line, carrying the sun words
/// the caller gave, then the place's line with its coordinates.
pub proof fn lemma_each_line_says_its_own_thing(
    enabled: bool,
    temperature: u32,
    source: Seq<char>,
    ramp: Option<Seq<char>>,
    fade: bool,
    band: Option<Seq<char>>,
    located: Option<(Seq<char>, Seq<char>)>,
)
    ensures
        ({
            let text = status_words(enabled, temperature, source, ramp, fade, band, located);
            let head = "nightlightd: "@ + (if enabled { "on"@ } else { "off"@ }) + ", "@ + decimal(
                temperature as nat,
            ) + " K\n"@ + "  source: "@ + source + "\n"@;
            &&& text.take(head.len() as int) == head
            &&& ramp matches Some(r) ==> exists|a: Seq<char>, b: Seq<char>| text == a + ("  ramp:   "@ + r + "\n"@) + b
            &&& !fade ==> exists|a: Seq<char>, b: Seq<char>| text == a + "  fade:   off\n"@ + b
            &&& band matches Some(w) ==> exists|a: Seq<char>, b: Seq<char>| text == a + ("  band:   "@ + w + "\n"@) + b
            &&& located matches Some((sun, place)) ==> exists|a: Seq<char>| text == a + ("  sun:    "@ + sun + "\n"@)
                + ("  place:  "@ + place + " (resolved)\n"@)
        }),
{
    lemma_head_and_ramp_lines(enabled, temperature, source, ramp, fade, band, located);
    lemma_fade_and_band_lines(enabled, temperature, source, ramp, fade, band, located);
    lemma_sun_and_place_lines(enabled, temperature, source, ramp, fade, band, located);
}

/// The readout's headline and ramp line.
proof fn lemma_head_and_ramp_lines(
    enabled: bool,
    temperature: u32,
    source: Seq<char>,
    ramp: Option<Seq<char>>,
    fade: bool,
    band: Option<Seq<char>>,
    located: Option<(Seq<char>, Seq<char>)>,
)
    ensures
        ({
            let text = status_words(enabled, temperature, source, ramp, fade, band, located);
            let head = status_head(enabled, temperature, source);
            &&& text.take(head.len() as int) == head
            &&& ramp matches Some(r) ==> exists|a: Seq<char>, b: Seq<char>| text == a + ("  ramp:   "@ + r + "\n"@) + b
        }),
{
    let h = status_head(enabled, temperature, source);
    let rest = optional_line("  ramp:   "@, ramp) + fade_line(fade) + optional_line("  band:   "@, band)
        + located_lines(located);
    let text = status_words(enabled, temperature, source, ramp, fade, band, located);
    assert(text =~= h + rest);
    assert(text.take(h.len() as int) =~= h);
    if let Some(x) = ramp {
        let b = fade_line(fade) + optional_line("  band:   "@, band) + located_lines(located);
        assert(text =~= h + ("  ramp:   "@ + x + "\n"@) + b);
    }
}

/// The readout's fade and band lines.
proof fn lemma_fade_and_band_lines(
    enabled: bool,
    temperature: u32,
    source: Seq<char>,
    ramp: Option<Seq<char>>,
    fade: bool,
    band: Option<Seq<char>>,
    located: Option<(Seq<char>, Seq<char>)>,
)
    ensures
        ({
            let text = status_words(enabled, temperature, source, ramp, fade, band, located);
            &&& !fade ==> exists|a: Seq<char>, b: Seq<char>| text == a + "  fade:   off\n"@ + b
            &&& band matches Some(w) ==> exists|a: Seq<char>, b: Seq<char>| text == a + ("  band:   "@ + w + "\n"@) + b
        }),
{
    let text = status_words(enabled, temperature, source, ramp, fade, band, located);
    let before = status_head(enabled, temperature, source) + optional_line("  ramp:   "@, ramp);
    if !fade {
        let b = optional_line("  band:   "@, band) + located_lines(located);
        assert(text =~= before + "  fade:   off\n"@ + b);
    }
    if let Some(w) = band {
        let a = before + fade_line(fade);
        assert(text =~= a + ("  band:   "@ + w + "\n"@) + located_lines(located));
    }
}

/// The readout's closing sun and place lines.
proof fn lemma_sun_and_place_lines(
    enabled: bool,
    temperature: u32,
    source: Seq<char>,
    ramp: Option<Seq<char>>,
    fade: bool,
    band: Option<Seq<char>>,
    located: Option<(Seq<char>, Seq<char>)>,
)
    ensures
        ({
            let text = status_words(enabled, temperature, source, ramp, fade, band, located);
            located matches Some((sun, place)) ==> exists|a: Seq<char>| text == a + ("  sun:    "@ + sun + "\n"@)
                + ("  place:  "@ + place + " (resolved)\n"@)
        }),
{
    if let Some((sun, place)) = located {
        let text = status_words(enabled, temperature, source, ramp, fade, band, located);
        let a = status_head(enabled, temperature, source) + optional_line("  ramp:   "@, ramp) + fade_line(fade)
            + optional_line("  band:   "@, band);
        assert(text =~= a + ("  sun:    "@ + sun + "\n"@) + ("  place:  "@ + place + " (resolved)\n"@));
    }
}

} // verus!
