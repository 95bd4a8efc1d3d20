//! The client's flag values: `--fade on|off`, `--band DAY:NIGHT` and
//! `--brightness VALUE` or `DAY:NIGHT`. Nonsense gives `None`, so the
//! caller can print a usage hint instead of sending garbage to the daemon.
//! Numbers are checked against the grammar `f64::from_str` accepts, less
//! the spellings of infinity and not-a-number, and handed back as the text
//! that was checked; a literal too large for an `f64` is left to the
//! caller, which reads the number.

use vstd::prelude::*;

use crate::number::{is_number_text, number_chars_ok};
use crate::text::{chars_of, lower, lower_chars, same_chars, split_once, split_once_char, string_of, trim, trim_chars};

verus! {

broadcast use vstd::string::group_string_axioms;

/// `--fade`: `on` or `off`, ignoring case and surrounding whitespace.
pub open spec fn spec_parse_fade(text: Seq<char>) -> Option<bool> {
    let word = lower(trim(text));
    if word == seq!['o', 'n'] {
        Some(true)
    } else if word == seq!['o', 'f', 'f'] {
        Some(false)
    } else {
        None
    }
}

/// Two numbers split by the first colon, each trimmed; `nan` and the
/// infinities are nonsense here.
pub open spec fn spec_parse_band(text: Seq<char>) -> Option<(Seq<char>, Seq<char>)> {
    match split_once(text, seq![':']) {
        Some((day, night)) => if is_number_text(trim(day)) && is_number_text(trim(night)) {
            Some((trim(day), trim(night)))
        } else {
            None
        },
        None => None,
    }
}

/// One number for both bounds, or `DAY:NIGHT`.
pub open spec fn spec_parse_brightness(text: Seq<char>) -> Option<(Seq<char>, Seq<char>)> {
    match split_once(text, seq![':']) {
        Some(_) => spec_parse_band(text),
        None => if is_number_text(trim(text)) {
            Some((trim(text), trim(text)))
        } else {
            None
        },
    }
}

/// The view of an optional pair of strings.
pub open spec fn pair_view(r: Option<(String, String)>) -> Option<(Seq<char>, Seq<char>)> {
    match r {
        Some((a, b)) => Some((a@, b@)),
        None => None,
    }
}

/// Parses the `--fade` value: `on` or `off`, generous about case and
/// whitespace, `None` for anything else.
pub fn parse_fade(text: &str) -> (r: Option<bool>)
    ensures
        r == spec_parse_fade(text@),
{
    let word = lower_chars(&trim_chars(&chars_of(text)));
    let on = vec!['o', 'n'];
    let off = vec!['o', 'f', 'f'];
    assert(on@ =~= seq!['o', 'n']);
    assert(off@ =~= seq!['o', 'f', 'f']);
    if same_chars(&word, &on) {
        Some(true)
    } else if same_chars(&word, &off) {
        Some(false)
    } else {
        None
    }
}

/// Parses the `--band` value: two elevations, day then night, split by a
/// colon. An inverted pair is passed through; the daemon judges it where
/// it is spent.
pub fn parse_band(text: &str) -> (r: Option<(String, String)>)
    ensures
        pair_view(r) == spec_parse_band(text@),
{
    let t = chars_of(text);
    band_texts(&t)
}

/// The two sides of a `DAY:NIGHT` pair, when each spells a number.
fn band_texts(t: &Vec<char>) -> (r: Option<(String, String)>)
    ensures
        pair_view(r) == spec_parse_band(t@),
{
    match split_once_char(t, ':') {
        Some((day, night)) => {
            let day = trim_chars(&day);
            let night = trim_chars(&night);
            if number_chars_ok(&day) && number_chars_ok(&night) {
                Some((string_of(&day), string_of(&night)))
            } else {
                None
            }
        },
        None => None,
    }
}

/// Parses the `--brightness` value: `0.9` means both bounds, `1.0:0.9`
/// means day and night.
pub fn parse_brightness(text: &str) -> (r: Option<(String, String)>)
    ensures
        pair_view(r) == spec_parse_brightness(text@),
{
    let t = chars_of(text);
    match crate::text::find_char(&t, ':') {
        Some(_) => band_texts(&t),
        None => {
            proof {
                assert(split_once(t@, seq![':']) is None);
            }
            let both = trim_chars(&t);
            if number_chars_ok(&both) {
                Some((string_of(&both), string_of(&both)))
            } else {
                None
            }
        },
    }
}

} // verus!
