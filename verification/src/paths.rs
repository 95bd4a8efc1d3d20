//! Where this program's files live, and how a path is shown.
//!
//! The environment is read by the caller; here is only the choice: a
//! non-empty `XDG_CONFIG_HOME`, else `HOME` with `.config` joined on, and
//! this program's own directory below that.

use vstd::prelude::*;

use crate::text::{chars_of, concat, slice, starts_with, starts_with_chars, string_of};

verus! {

broadcast use vstd::string::group_string_axioms;

/// `Path::join` on Unix: an absolute `part` replaces the base; otherwise a
/// separator is added unless the base is empty or already ends in one.
pub open spec fn spec_join(base: Seq<char>, part: Seq<char>) -> Seq<char> {
    if part.len() > 0 && part[0] == '/' {
        part
    } else if base.len() == 0 || base.last() == '/' {
        base + part
    } else {
        base + seq!['/'] + part
    }
}

/// A set variable: present and not blank.
pub open spec fn is_set(value: Option<Seq<char>>) -> bool {
    value matches Some(v) && v.len() > 0
}

/// The directory configuration lives under: a set `XDG_CONFIG_HOME`, else
/// a set `HOME` with `.config` joined on, else nothing.
pub open spec fn spec_home_from(xdg: Option<Seq<char>>, home: Option<Seq<char>>) -> Option<
    Seq<char>,
> {
    if is_set(xdg) {
        xdg
    } else if is_set(home) {
        Some(spec_join(home.unwrap(), seq!['.', 'c', 'o', 'n', 'f', 'i', 'g']))
    } else {
        None
    }
}

/// This program's directory name under the configuration home.
pub open spec fn program_dir() -> Seq<char> {
    seq!['n', 'i', 'g', 'h', 't', 'l', 'i', 'g', 'h', 't', 'd']
}

/// `<config home>/nightlightd/<name>`.
pub open spec fn spec_config_file(config_home: Option<Seq<char>>, name: Seq<char>) -> Option<
    Seq<char>,
> {
    match config_home {
        Some(home) => Some(spec_join(spec_join(home, program_dir()), name)),
        None => None,
    }
}

/// The view of an optional string slice.
pub open spec fn opt_view(s: Option<&str>) -> Option<Seq<char>> {
    match s {
        Some(v) => Some(v@),
        None => None,
    }
}

/// The view of an optional string.
pub open spec fn opt_string_view(s: Option<String>) -> Option<Seq<char>> {
    match s {
        Some(v) => Some(v@),
        None => None,
    }
}

/// `s` with every trailing `c` removed (`str::trim_end_matches`).
pub open spec fn strip_trailing(s: Seq<char>, c: char) -> Seq<char>
    decreases s.len(),
{
    if s.len() > 0 && s.last() == c {
        strip_trailing(s.drop_last(), c)
    } else {
        s
    }
}

/// A path with the home directory written as `~`, but only when the home
/// directory really is its parent: the prefix must end on a path boundary.
pub open spec fn spec_shorten_home(path: Seq<char>, home: Option<Seq<char>>) -> Seq<char> {
    match home {
        Some(h0) => {
            let h = strip_trailing(h0, '/');
            if h.len() == 0 {
                path
            } else if path == h {
                seq!['~']
            } else if starts_with(path, h) && starts_with(path.skip(h.len() as int), seq!['/']) {
                seq!['~'] + path.skip(h.len() as int)
            } else {
                path
            }
        },
        None => path,
    }
}

/// Shortening loses nothing: whenever the path is shortened, it is `~`
/// followed by what comes after the home directory, and writing the home
/// directory back in front of that gives the path again.
pub proof fn lemma_shortened_path_expands_back(path: Seq<char>, home: Seq<char>)
    ensures
        ({
            let h = strip_trailing(home, '/');
            let short = spec_shorten_home(path, Some(home));
            short != path ==> short[0] == '~' && h + short.drop_first() == path
        }),
{
    let h = strip_trailing(home, '/');
    let short = spec_shorten_home(path, Some(home));
    if short != path && h.len() > 0 {
        if path == h {
            assert(short.drop_first() =~= Seq::<char>::empty());
            assert(h + short.drop_first() =~= path);
        } else {
            assert(short.drop_first() =~= path.skip(h.len() as int));
            assert(path.take(h.len() as int) == h);
            assert(h + path.skip(h.len() as int) =~= path);
        }
    }
}

/// Joins a relative or absolute `part` onto `base`, as `Path::join` does.
pub fn join_chars(base: &Vec<char>, part: &Vec<char>) -> (r: Vec<char>)
    ensures
        r@ == spec_join(base@, part@),
{
    if part.len() > 0 && part[0] == '/' {
        part.clone()
    } else if base.len() == 0 || base[base.len() - 1] == '/' {
        concat(base, part)
    } else {
        let mut with_sep = base.clone();
        with_sep.push('/');
        concat(&with_sep, part)
    }
}

/// `Path::join` on Unix.
pub fn join(base: &str, part: &str) -> (r: String)
    ensures
        r@ == spec_join(base@, part@),
{
    let joined = join_chars(&chars_of(base), &chars_of(part));
    string_of(&joined)
}

/// The configuration home from the two variables, taken rather than read so
/// the choice can be checked against strings: `XDG_CONFIG_HOME` when set,
/// else `HOME/.config`. An exported but empty variable counts as unset.
pub fn home_from(xdg: Option<&str>, home: Option<&str>) -> (r: Option<String>)
    ensures
        opt_string_view(r) == spec_home_from(opt_view(xdg), opt_view(home)),
{
    if let Some(x) = xdg {
        let v = chars_of(x);
        if v.len() > 0 {
            return Some(string_of(&v));
        }
    }
    if let Some(h) = home {
        let v = chars_of(h);
        if v.len() > 0 {
            let dot_config = vec!['.', 'c', 'o', 'n', 'f', 'i', 'g'];
            let joined = join_chars(&v, &dot_config);
            return Some(string_of(&joined));
        }
    }
    None
}

/// A named file in this program's own directory, `<config home>/nightlightd/<name>`;
/// nothing when there is no configuration home.
pub fn config_file(config_home: Option<String>, name: &str) -> (r: Option<String>)
    ensures
        opt_string_view(r) == spec_config_file(opt_string_view(config_home), name@),
{
    match config_home {
        Some(home) => {
            let dir = vec!['n', 'i', 'g', 'h', 't', 'l', 'i', 'g', 'h', 't', 'd'];
            let base = join_chars(&chars_of(home.as_str()), &dir);
            let file = join_chars(&base, &chars_of(name));
            Some(string_of(&file))
        },
        None => None,
    }
}

/// The characters without their trailing `c`s.
fn strip_trailing_chars(s: &Vec<char>, c: char) -> (r: Vec<char>)
    ensures
        r@ == strip_trailing(s@, c),
{
    let mut j = s.len();
    assert(s@.take(j as int) == s@);
    while j > 0 && s[j - 1] == c
        invariant
            j <= s.len(),
            strip_trailing(s@, c) == strip_trailing(s@.take(j as int), c),
        decreases j,
    {
        assert(s@.take(j as int).drop_last() == s@.take(j - 1));
        j = j - 1;
    }
    slice(s, 0, j)
}

/// The path with the home directory written as `~`. `/home/umut` is a
/// prefix of `/home/umutdincer` by text but of nothing by filesystem, so
/// only a prefix that ends on a path boundary is shortened; a blank or
/// missing home leaves the path as it was.
pub fn shorten_home(path: &str, home: Option<&str>) -> (r: String)
    ensures
        r@ == spec_shorten_home(path@, opt_view(home)),
{
    let p = chars_of(path);
    match home {
        Some(home_text) => {
            let h = strip_trailing_chars(&chars_of(home_text), '/');
            if h.len() == 0 {
                return string_of(&p);
            }
            if crate::text::same_chars(&p, &h) {
                let tilde = vec!['~'];
                return string_of(&tilde);
            }
            if starts_with_chars(&p, &h) {
                let rest = slice(&p, h.len(), p.len());
                assert(rest@ == p@.skip(h@.len() as int));
                if rest.len() > 0 && rest[0] == '/' {
                    assert(rest@.take(1) =~= seq!['/']);
                    let tilde = vec!['~'];
                    return string_of(&concat(&tilde, &rest));
                }
                if rest.len() > 0 {
                    assert(rest@.take(1)[0] != seq!['/'][0]);
                }
            }
            string_of(&p)
        },
        None => string_of(&p),
    }
}

} // verus!
