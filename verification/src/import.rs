//! One-time import of a gammastep or redshift INI config.
//!
//! A user arriving from either tool should find their settings already in
//! place. The INI text is read line by line: blank lines and lines starting
//! with `;` or `#` are comments, `[name]` opens a section (names and keys
//! are case-insensitive), and `key = value` sets a key in the current
//! section. What is understood is kept; anything else contributes nothing,
//! and a file that contributes nothing is no import.
//!
//! Integer settings are read here. Floating-point settings are checked
//! here against the grammar `f64::from_str` accepts and kept as the text
//! that was checked, to be read as numbers where they are spent.

use vstd::prelude::*;

use crate::number::{float_chars_ok, is_float_text, parse_u32_chars, parse_u32_spec};
use crate::text::{
    chars_of, lines, lines_of, lower, lower_chars, same_chars, slice, split, split_chars,
    split_once, split_once_char, starts_with, string_of, trim, trim_chars, views,
};

verus! {

broadcast use vstd::string::group_string_axioms;

/// What the reader knows after some lines: the current section and every
/// setting understood so far.
pub struct ImportState {
    pub section: Seq<char>,
    pub day_temp: Option<u32>,
    pub night_temp: Option<u32>,
    pub gamma: Option<Seq<Seq<char>>>,
    pub day_brightness: Option<Seq<char>>,
    pub night_brightness: Option<Seq<char>>,
    pub fade: Option<bool>,
    pub lat: Option<Seq<char>>,
    pub lon: Option<Seq<char>>,
    pub imported: bool,
}

/// The settings a gammastep or redshift file contributed. Temperatures are
/// kelvin; gamma is one exponent or the parts of an R:G:B triple (to be
/// averaged); brightness factors and coordinates are decimal texts that
/// `f64::from_str` accepts.
pub struct Imported {
    pub day_temp: Option<u32>,
    pub night_temp: Option<u32>,
    pub gamma: Option<Vec<String>>,
    pub day_brightness: Option<String>,
    pub night_brightness: Option<String>,
    pub fade: Option<bool>,
    /// Latitude and longitude, present only as a pair.
    pub location: Option<(String, String)>,
}

/// The state before the first line: no section, nothing understood.
pub open spec fn initial_state() -> ImportState {
    ImportState {
        section: Seq::empty(),
        day_temp: None,
        night_temp: None,
        gamma: None,
        day_brightness: None,
        night_brightness: None,
        fade: None,
        lat: None,
        lon: None,
        imported: false,
    }
}

/// A blank line or a comment (`;` or `#`), after trimming.
pub open spec fn is_comment(line: Seq<char>) -> bool {
    line.len() == 0 || line[0] == ';' || line[0] == '#'
}

/// The name inside `[` and `]`, if the trimmed line is a section header.
pub open spec fn header(line: Seq<char>) -> Option<Seq<char>> {
    if line.len() >= 2 && line[0] == '[' && line.last() == ']' {
        Some(line.subrange(1, line.len() - 1))
    } else {
        None
    }
}

/// gammastep's gamma: one value, or an R:G:B triple whose trimmed parts
/// must each be a float.
pub open spec fn spec_gamma_parts(value: Seq<char>) -> Option<Seq<Seq<char>>> {
    if find_colon(value) is None {
        if is_float_text(value) {
            Some(seq![value])
        } else {
            None
        }
    } else {
        let parts = split(value, ':').map_values(|p: Seq<char>| trim(p));
        if forall|i: int| 0 <= i < parts.len() ==> is_float_text(#[trigger] parts[i]) {
            Some(parts)
        } else {
            None
        }
    }
}

/// Where the first `:` is.
pub open spec fn find_colon(value: Seq<char>) -> Option<int> {
    crate::text::find(value, seq![':'])
}

/// The section gammastep and redshift keep their settings in.
pub open spec fn general() -> Seq<char> {
    seq!['g', 'e', 'n', 'e', 'r', 'a', 'l']
}

/// The section of a manual location.
pub open spec fn manual() -> Seq<char> {
    seq!['m', 'a', 'n', 'u', 'a', 'l']
}

/// What one `key = value` line does to the state.
pub open spec fn apply_setting(st: ImportState, key: Seq<char>, value: Seq<char>) -> ImportState {
    if st.section == general() {
        apply_general(st, key, value)
    } else if st.section == manual() {
        apply_manual(st, key, value)
    } else {
        st
    }
}

/// What a line in `[general]` does.
pub open spec fn apply_general(st: ImportState, key: Seq<char>, value: Seq<char>) -> ImportState {
    if key == seq!['t', 'e', 'm', 'p', '-', 'd', 'a', 'y'] {
            match parse_u32_spec(value) {
                Some(k) => ImportState { day_temp: Some(k), imported: true, ..st },
                None => st,
            }
        } else if key == seq!['t', 'e', 'm', 'p', '-', 'n', 'i', 'g', 'h', 't'] {
            match parse_u32_spec(value) {
                Some(k) => ImportState { night_temp: Some(k), imported: true, ..st },
                None => st,
            }
        } else if key == seq!['g', 'a', 'm', 'm', 'a'] {
            match spec_gamma_parts(value) {
                Some(parts) => ImportState { gamma: Some(parts), imported: true, ..st },
                None => st,
            }
        } else if key == seq!['b', 'r', 'i', 'g', 'h', 't', 'n', 'e', 's', 's', '-', 'd', 'a', 'y'] {
            if is_float_text(value) {
                ImportState { day_brightness: Some(value), imported: true, ..st }
            } else {
                st
            }
        } else if key == seq![
            'b',
            'r',
            'i',
            'g',
            'h',
            't',
            'n',
            'e',
            's',
            's',
            '-',
            'n',
            'i',
            'g',
            'h',
            't',
        ] {
            if is_float_text(value) {
                ImportState { night_brightness: Some(value), imported: true, ..st }
            } else {
                st
            }
        } else if key == seq!['f', 'a', 'd', 'e'] {
            // gammastep and redshift write 0 or 1; anything else is not
            // understood.
            if value == seq!['0'] || value == seq!['1'] {
                ImportState { fade: Some(value == seq!['1']), imported: true, ..st }
            } else {
                st
            }
        } else {
            st
        }
}

/// What a line in `[manual]` does. A coordinate that does not read as a
/// number clears the one before.
pub open spec fn apply_manual(st: ImportState, key: Seq<char>, value: Seq<char>) -> ImportState {
    if key == seq!['l', 'a', 't'] {
        ImportState { lat: if is_float_text(value) { Some(value) } else { None }, ..st }
    } else if key == seq!['l', 'o', 'n'] {
        ImportState { lon: if is_float_text(value) { Some(value) } else { None }, ..st }
    } else {
        st
    }
}

/// What one line of the file does to the state.
pub open spec fn step(st: ImportState, raw: Seq<char>) -> ImportState {
    let line = trim(raw);
    if is_comment(line) {
        st
    } else if header(line) is Some {
        ImportState { section: lower(header(line).unwrap()), ..st }
    } else {
        match split_once(line, seq!['=']) {
            Some((key, value)) => apply_setting(st, lower(trim(key)), trim(value)),
            None => st,
        }
    }
}

/// The state after reading `ls` from `st`.
pub open spec fn run(st: ImportState, ls: Seq<Seq<char>>) -> ImportState
    decreases ls.len(),
{
    if ls.len() == 0 {
        st
    } else {
        run(step(st, ls[0]), ls.drop_first())
    }
}

/// Whether the file contributed anything: a setting understood, or a
/// manual location given as a pair.
pub open spec fn contributes(st: ImportState) -> bool {
    st.imported || (st.lat is Some && st.lon is Some)
}

/// The state after reading the whole of `text`.
pub open spec fn read_all(text: Seq<char>) -> ImportState {
    run(initial_state(), lines(text))
}

/// Blank lines and comments change nothing.
pub proof fn lemma_comments_change_nothing(st: ImportState, raw: Seq<char>)
    requires
        is_comment(trim(raw)),
    ensures
        step(st, raw) == st,
{
}

/// A setting once understood is never forgotten: whatever lines follow, the
/// file still counts as an import.
pub proof fn lemma_understood_stays_understood(st: ImportState, ls: Seq<Seq<char>>)
    requires
        st.imported,
    ensures
        run(st, ls).imported,
    decreases ls.len(),
{
    if ls.len() > 0 {
        lemma_understood_stays_understood(step(st, ls[0]), ls.drop_first());
    }
}

/// Reading one more line is one more step.
pub proof fn lemma_run_push(st: ImportState, ls: Seq<Seq<char>>, line: Seq<char>)
    ensures
        run(st, ls.push(line)) == step(run(st, ls), line),
    decreases ls.len(),
{
    if ls.len() == 0 {
        assert(ls.push(line).drop_first() =~= Seq::<Seq<char>>::empty());
        assert(ls.push(line)[0] == line);
        assert(run(step(st, line), Seq::<Seq<char>>::empty()) == step(st, line));
    } else {
        assert(ls.push(line).drop_first() =~= ls.drop_first().push(line));
        assert(ls.push(line)[0] == ls[0]);
        lemma_run_push(step(st, ls[0]), ls.drop_first(), line);
    }
}

/// The last understood value wins: a `temp-day` line in `[general]` whose
/// value reads as a number sets the daytime bound, whatever came before it.
pub proof fn lemma_later_lines_win(
    st: ImportState,
    ls: Seq<Seq<char>>,
    raw: Seq<char>,
    key: Seq<char>,
    value: Seq<char>,
    kelvin: u32,
)
    requires
        run(st, ls).section == general(),
        !is_comment(trim(raw)),
        header(trim(raw)) is None,
        split_once(trim(raw), seq!['=']) == Some((key, value)),
        lower(trim(key)) == seq!['t', 'e', 'm', 'p', '-', 'd', 'a', 'y'],
        parse_u32_spec(trim(value)) == Some(kelvin),
    ensures
        run(st, ls.push(raw)).day_temp == Some(kelvin),
        run(st, ls.push(raw)).imported,
{
    lemma_run_push(st, ls, raw);
}

/// Every setting of `[general]` that is understood is kept, and makes the
/// file an import: a temperature that reads as a `u32`, a gamma of one or
/// three floats, a brightness that reads as a float, a fade of `0` or `1`.
/// Each such line sets its own setting to what it says and leaves every
/// other setting as it was.
pub proof fn lemma_understood_settings_are_kept(st: ImportState, key: Seq<char>, value: Seq<char>)
    requires
        st.section == general(),
    ensures
        ({
            let n = apply_setting(st, key, value);
            &&& key == seq!['t', 'e', 'm', 'p', '-', 'd', 'a', 'y'] && parse_u32_spec(value) is Some
                ==> n == (ImportState { day_temp: parse_u32_spec(value), imported: true, ..st })
            &&& key == seq!['t', 'e', 'm', 'p', '-', 'n', 'i', 'g', 'h', 't'] && parse_u32_spec(value) is Some
                ==> n == (ImportState { night_temp: parse_u32_spec(value), imported: true, ..st })
            &&& key == seq!['g', 'a', 'm', 'm', 'a'] && spec_gamma_parts(value) is Some
                ==> n == (ImportState { gamma: spec_gamma_parts(value), imported: true, ..st })
            &&& key == seq!['b', 'r', 'i', 'g', 'h', 't', 'n', 'e', 's', 's', '-', 'd', 'a', 'y']
                && is_float_text(value) ==> n == (ImportState { day_brightness: Some(value), imported: true, ..st })
            &&& key == seq!['b', 'r', 'i', 'g', 'h', 't', 'n', 'e', 's', 's', '-', 'n', 'i', 'g', 'h', 't']
                && is_float_text(value) ==> n == (ImportState { night_brightness: Some(value), imported: true, ..st })
            &&& key == seq!['f', 'a', 'd', 'e'] && (value == seq!['0'] || value == seq!['1'])
                ==> n == (ImportState { fade: Some(value == seq!['1']), imported: true, ..st })
        }),
{
}

/// A `brightness-day` line in `[general]` whose value reads as a float sets
/// the daytime brightness to that value and makes the file an import,
/// whatever came before it.
pub proof fn lemma_a_day_brightness_line_imports(
    st: ImportState,
    ls: Seq<Seq<char>>,
    raw: Seq<char>,
    key: Seq<char>,
    value: Seq<char>,
)
    requires
        run(st, ls).section == general(),
        !is_comment(trim(raw)),
        header(trim(raw)) is None,
        split_once(trim(raw), seq!['=']) == Some((key, value)),
        lower(trim(key)) == seq!['b', 'r', 'i', 'g', 'h', 't', 'n', 'e', 's', 's', '-', 'd', 'a', 'y'],
        is_float_text(trim(value)),
    ensures
        run(st, ls.push(raw)).day_brightness == Some(trim(value)),
        run(st, ls.push(raw)).imported,
        contributes(run(st, ls.push(raw))),
{
    lemma_run_push(st, ls, raw);
    lemma_understood_settings_are_kept(run(st, ls), lower(trim(key)), trim(value));
}

/// Lines outside `[general]` and `[manual]` contribute nothing.
pub proof fn lemma_other_sections_contribute_nothing(
    st: ImportState,
    key: Seq<char>,
    value: Seq<char>,
)
    requires
        st.section != general(),
        st.section != manual(),
    ensures
        apply_setting(st, key, value) == st,
{
}

/// The view of optional text.
pub open spec fn opt_text(s: Option<String>) -> Option<Seq<char>> {
    match s {
        Some(v) => Some(v@),
        None => None,
    }
}

/// The views of a list of strings.
pub open spec fn string_views(v: Seq<String>) -> Seq<Seq<char>> {
    v.map_values(|s: String| s@)
}

/// Whether `r` carries exactly the settings of state `st`.
pub open spec fn carries(r: Imported, st: ImportState) -> bool {
    &&& r.day_temp == st.day_temp
    &&& r.night_temp == st.night_temp
    &&& (match (r.gamma, st.gamma) {
        (Some(g), Some(h)) => string_views(g@) == h,
        (None, None) => true,
        _ => false,
    })
    &&& opt_text(r.day_brightness) == st.day_brightness
    &&& opt_text(r.night_brightness) == st.night_brightness
    &&& r.fade == st.fade
    &&& (match r.location {
        Some((lat, lon)) => st.lat == Some(lat@) && st.lon == Some(lon@),
        None => !(st.lat is Some && st.lon is Some),
    })
}

/// The reader's state, kept in characters.
struct Reader {
    section: Vec<char>,
    day_temp: Option<u32>,
    night_temp: Option<u32>,
    gamma: Option<Vec<Vec<char>>>,
    day_brightness: Option<Vec<char>>,
    night_brightness: Option<Vec<char>>,
    fade: Option<bool>,
    lat: Option<Vec<char>>,
    lon: Option<Vec<char>>,
    imported: bool,
}

/// The view of optional characters.
pub open spec fn opt_chars(s: Option<Vec<char>>) -> Option<Seq<char>> {
    match s {
        Some(v) => Some(v@),
        None => None,
    }
}

impl Reader {
    spec fn state(&self) -> ImportState {
        ImportState {
            section: self.section@,
            day_temp: self.day_temp,
            night_temp: self.night_temp,
            gamma: match self.gamma {
                Some(g) => Some(views(g@)),
                None => None,
            },
            day_brightness: opt_chars(self.day_brightness),
            night_brightness: opt_chars(self.night_brightness),
            fade: self.fade,
            lat: opt_chars(self.lat),
            lon: opt_chars(self.lon),
            imported: self.imported,
        }
    }
}

/// Whether the characters spell `word`.
fn is_word(s: &Vec<char>, word: &str) -> (b: bool)
    ensures
        b == (s@ == word@),
{
    same_chars(s, &chars_of(word))
}

/// gammastep's gamma value: one exponent, or an R:G:B triple whose trimmed
/// parts are each an exponent.
fn gamma_parts(value: &Vec<char>) -> (r: Option<Vec<Vec<char>>>)
    ensures
        (match r {
            Some(p) => spec_gamma_parts(value@) == Some(views(p@)),
            None => spec_gamma_parts(value@) is None,
        }),
{
    let colon = crate::text::find_char(value, ':');
    if colon.is_none() {
        if float_chars_ok(value) {
            let mut one: Vec<Vec<char>> = Vec::new();
            one.push(value.clone());
            assert(views(one@) =~= seq![value@]);
            return Some(one);
        }
        return None;
    }
    let pieces = split_chars(value, ':');
    let ghost wanted = split(value@, ':').map_values(|p: Seq<char>| trim(p));
    let mut parts: Vec<Vec<char>> = Vec::new();
    let mut i: usize = 0;
    while i < pieces.len()
        invariant
            i <= pieces.len(),
            views(pieces@) == split(value@, ':'),
            find_colon(value@) is Some,
            wanted == split(value@, ':').map_values(|p: Seq<char>| trim(p)),
            views(parts@) == wanted.take(i as int),
            forall|k: int| 0 <= k < i ==> is_float_text(#[trigger] wanted[k]),
        decreases pieces.len() - i,
    {
        assert(pieces@[i as int]@ == views(pieces@)[i as int]);
        let part = trim_chars(&pieces[i]);
        assert(wanted[i as int] == trim(split(value@, ':')[i as int]));
        if !float_chars_ok(&part) {
            assert(!is_float_text(wanted[i as int]));
            return None;
        }
        let ghost before = parts@;
        parts.push(part);
        assert(views(parts@) == views(before).push(part@));
        assert(wanted.take(i + 1) == wanted.take(i as int).push(wanted[i as int]));
        i = i + 1;
    }
    assert(wanted.take(wanted.len() as int) == wanted);
    Some(parts)
}

impl Reader {
    /// Applies one `key = value` line.
    fn apply(&mut self, key: &Vec<char>, value: &Vec<char>)
        ensures
            final(self).state() == apply_setting(old(self).state(), key@, value@),
    {
        proof {
            reveal_strlit("general");
            reveal_strlit("manual");
            assert("general"@ =~= general());
            assert("manual"@ =~= manual());
        }
        if is_word(&self.section, "general") {
            self.apply_general(key, value);
        } else if is_word(&self.section, "manual") {
            self.apply_manual(key, value);
        }
    }

    /// Applies a line of `[general]`.
    fn apply_general(&mut self, key: &Vec<char>, value: &Vec<char>)
        ensures
            final(self).state() == apply_general(old(self).state(), key@, value@),
    {
        proof {
            reveal_strlit("temp-day");
            reveal_strlit("temp-night");
            reveal_strlit("gamma");
            reveal_strlit("brightness-day");
            reveal_strlit("brightness-night");
            reveal_strlit("fade");
            assert("temp-day"@ =~= seq!['t', 'e', 'm', 'p', '-', 'd', 'a', 'y']);
            assert("temp-night"@ =~= seq!['t', 'e', 'm', 'p', '-', 'n', 'i', 'g', 'h', 't']);
            assert("gamma"@ =~= seq!['g', 'a', 'm', 'm', 'a']);
            assert("brightness-day"@ =~= seq![
                'b',
                'r',
                'i',
                'g',
                'h',
                't',
                'n',
                'e',
                's',
                's',
                '-',
                'd',
                'a',
                'y',
            ]);
            assert("brightness-night"@ =~= seq![
                'b',
                'r',
                'i',
                'g',
                'h',
                't',
                'n',
                'e',
                's',
                's',
                '-',
                'n',
                'i',
                'g',
                'h',
                't',
            ]);
            assert("fade"@ =~= seq!['f', 'a', 'd', 'e']);
        }
        if is_word(key, "temp-day") {
            if let Some(k) = parse_u32_chars(value) {
                self.day_temp = Some(k);
                self.imported = true;
            }
        } else if is_word(key, "temp-night") {
            if let Some(k) = parse_u32_chars(value) {
                self.night_temp = Some(k);
                self.imported = true;
            }
        } else if is_word(key, "gamma") {
            if let Some(parts) = gamma_parts(value) {
                self.gamma = Some(parts);
                self.imported = true;
            }
        } else if is_word(key, "brightness-day") {
            if float_chars_ok(value) {
                self.day_brightness = Some(value.clone());
                self.imported = true;
            }
        } else if is_word(key, "brightness-night") {
            if float_chars_ok(value) {
                self.night_brightness = Some(value.clone());
                self.imported = true;
            }
        } else if is_word(key, "fade") {
            let zero = vec!['0'];
            let one = vec!['1'];
            assert(zero@ =~= seq!['0']);
            assert(one@ =~= seq!['1']);
            let is_one = same_chars(value, &one);
            if same_chars(value, &zero) || is_one {
                self.fade = Some(is_one);
                self.imported = true;
            }
        }
    }

    /// Applies a line of `[manual]`.
    fn apply_manual(&mut self, key: &Vec<char>, value: &Vec<char>)
        ensures
            final(self).state() == apply_manual(old(self).state(), key@, value@),
    {
        proof {
            reveal_strlit("lat");
            reveal_strlit("lon");
            assert("lat"@ =~= seq!['l', 'a', 't']);
            assert("lon"@ =~= seq!['l', 'o', 'n']);
        }
        if is_word(key, "lat") {
            self.lat = if float_chars_ok(value) {
                Some(value.clone())
            } else {
                None
            };
        } else if is_word(key, "lon") {
            self.lon = if float_chars_ok(value) {
                Some(value.clone())
            } else {
                None
            };
        }
    }

    /// Reads one line.
    fn step(&mut self, raw: &Vec<char>)
        ensures
            final(self).state() == step(old(self).state(), raw@),
    {
        let line = trim_chars(raw);
        if line.len() == 0 || line[0] == ';' || line[0] == '#' {
            return;
        }
        if line.len() >= 2 && line[0] == '[' && line[line.len() - 1] == ']' {
            let name = slice(&line, 1, line.len() - 1);
            self.section = lower_chars(&name);
            return;
        }
        match split_once_char(&line, '=') {
            Some((key, value)) => {
                let key = lower_chars(&trim_chars(&key));
                let value = trim_chars(&value);
                self.apply(&key, &value);
            },
            None => {},
        }
    }
}

/// Translates gammastep or redshift INI text. `None` when the file
/// contributes nothing understood: an empty import is no import.
pub fn translate(text: &str) -> (r: Option<Imported>)
    ensures
        (match r {
            Some(imported) => contributes(read_all(text@)) && carries(imported, read_all(text@)),
            None => !contributes(read_all(text@)),
        }),
{
    let all = lines_of(&chars_of(text));
    let mut reader = Reader {
        section: Vec::new(),
        day_temp: None,
        night_temp: None,
        gamma: None,
        day_brightness: None,
        night_brightness: None,
        fade: None,
        lat: None,
        lon: None,
        imported: false,
    };
    assert(reader.state() == initial_state());
    assert(views(all@).skip(0) == views(all@));
    let mut k: usize = 0;
    while k < all.len()
        invariant
            k <= all.len(),
            views(all@) == lines(text@),
            read_all(text@) == run(reader.state(), views(all@).skip(k as int)),
        decreases all.len() - k,
    {
        let ghost rest = views(all@).skip(k as int);
        assert(rest.drop_first() == views(all@).skip(k + 1));
        assert(rest[0] == all@[k as int]@);
        reader.step(&all[k]);
        k = k + 1;
    }
    let location = match (&reader.lat, &reader.lon) {
        (Some(lat), Some(lon)) => Some((string_of(lat), string_of(lon))),
        _ => None,
    };
    if !reader.imported && location.is_none() {
        return None;
    }
    let gamma = match &reader.gamma {
        Some(parts) => {
            let mut texts: Vec<String> = Vec::new();
            let mut i: usize = 0;
            while i < parts.len()
                invariant
                    i <= parts.len(),
                    string_views(texts@) == views(parts@).take(i as int),
                decreases parts.len() - i,
            {
                let ghost before = texts@;
                texts.push(string_of(&parts[i]));
                assert(string_views(texts@) == string_views(before).push(parts@[i as int]@));
                assert(views(parts@).take(i + 1) == views(parts@).take(i as int).push(
                    views(parts@)[i as int],
                ));
                i = i + 1;
            }
            assert(views(parts@).take(parts.len() as int) == views(parts@));
            Some(texts)
        },
        None => None,
    };
    let day_brightness = match &reader.day_brightness {
        Some(v) => Some(string_of(v)),
        None => None,
    };
    let night_brightness = match &reader.night_brightness {
        Some(v) => Some(string_of(v)),
        None => None,
    };
    Some(
        Imported {
            day_temp: reader.day_temp,
            night_temp: reader.night_temp,
            gamma,
            day_brightness,
            night_brightness,
            fade: reader.fade,
            location,
        },
    )
}

} // verus!
