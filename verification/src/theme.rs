//! The named themes two interfaces share: each is a fixed accent (or none,
//! for the live screen tint), an optional second hue for data values, and an
//! optional designed page base. A theme is chosen and remembered by name.

use vstd::prelude::*;

use crate::text::{chars_of, same_chars};

verus! {

broadcast use vstd::string::group_string_axioms;

/// A colour as red, green and blue channels.
pub type Rgb = (u8, u8, u8);

/// A named theme: a fixed accent (or `None` for the live screen tint), an
/// optional secondary hue for data values, and an optional designed base.
#[derive(Clone, Copy)]
pub struct Theme {
    pub name: &'static str,
    pub accent: Option<Rgb>,
    pub secondary: Option<Rgb>,
    pub base: Option<Rgb>,
}

/// How many themes there are.
pub const THEME_COUNT: usize = 8;

/// The themes in cycle order; `live` first because it is the identity.
pub open spec fn spec_theme(i: int) -> Theme {
    if i == 0 {
        // Warm accent from the screen, cool steel for data.
        Theme { name: "live", accent: None, secondary: Some((130, 170, 190)), base: None }
    } else if i == 1 {
        Theme {
            name: "tokyo",
            accent: Some((122, 162, 247)),
            secondary: Some((187, 154, 247)),
            base: Some((26, 27, 38)),
        }
    } else if i == 2 {
        Theme {
            name: "mocha",
            accent: Some((203, 166, 247)),
            secondary: Some((148, 226, 213)),
            base: Some((30, 30, 46)),
        }
    } else if i == 3 {
        Theme {
            name: "nord",
            accent: Some((136, 192, 208)),
            secondary: Some((235, 203, 139)),
            base: Some((46, 52, 64)),
        }
    } else if i == 4 {
        Theme {
            name: "gruvbox",
            accent: Some((250, 189, 47)),
            secondary: Some((142, 192, 124)),
            base: Some((40, 40, 40)),
        }
    } else if i == 5 {
        Theme {
            name: "synth",
            accent: Some((255, 110, 199)),
            secondary: Some((100, 220, 255)),
            base: Some((36, 23, 54)),
        }
    } else if i == 6 {
        Theme {
            name: "ember",
            accent: Some((255, 170, 90)),
            secondary: Some((108, 190, 180)),
            base: None,
        }
    } else {
        // Deliberately monochrome: a phosphor CRT has one colour.
        Theme { name: "phosphor", accent: Some((51, 255, 102)), secondary: None, base: None }
    }
}

/// The theme at table position `i`.
pub fn theme(i: usize) -> (t: Theme)
    requires
        i < THEME_COUNT,
    ensures
        t == spec_theme(i as int),
{
    if i == 0 {
        Theme { name: "live", accent: None, secondary: Some((130, 170, 190)), base: None }
    } else if i == 1 {
        Theme {
            name: "tokyo",
            accent: Some((122, 162, 247)),
            secondary: Some((187, 154, 247)),
            base: Some((26, 27, 38)),
        }
    } else if i == 2 {
        Theme {
            name: "mocha",
            accent: Some((203, 166, 247)),
            secondary: Some((148, 226, 213)),
            base: Some((30, 30, 46)),
        }
    } else if i == 3 {
        Theme {
            name: "nord",
            accent: Some((136, 192, 208)),
            secondary: Some((235, 203, 139)),
            base: Some((46, 52, 64)),
        }
    } else if i == 4 {
        Theme {
            name: "gruvbox",
            accent: Some((250, 189, 47)),
            secondary: Some((142, 192, 124)),
            base: Some((40, 40, 40)),
        }
    } else if i == 5 {
        Theme {
            name: "synth",
            accent: Some((255, 110, 199)),
            secondary: Some((100, 220, 255)),
            base: Some((36, 23, 54)),
        }
    } else if i == 6 {
        Theme {
            name: "ember",
            accent: Some((255, 170, 90)),
            secondary: Some((108, 190, 180)),
            base: None,
        }
    } else {
        Theme { name: "phosphor", accent: Some((51, 255, 102)), secondary: None, base: None }
    }
}

/// The name of the theme at `i`, as characters.
pub open spec fn theme_name(i: int) -> Seq<char> {
    spec_theme(i).name@
}

/// The first theme whose name is `n`, searching from `i`.
pub open spec fn index_from(n: Seq<char>, i: int) -> Option<int>
    decreases 8 - i,
{
    if i < 0 || i >= 8 {
        None
    } else if theme_name(i) == n {
        Some(i)
    } else {
        index_from(n, i + 1)
    }
}

/// The index of the first theme named `n`.
pub open spec fn spec_index_of(n: Seq<char>) -> Option<int> {
    index_from(n, 0)
}

/// The theme at `i`, falling back to `live` outside the table.
pub open spec fn spec_at(i: int) -> Theme {
    if 0 <= i < 8 {
        spec_theme(i)
    } else {
        spec_theme(0)
    }
}

/// The index of a theme by name.
pub fn index_of(name: &str) -> (r: Option<usize>)
    ensures
        r matches Some(i) ==> spec_index_of(name@) == Some(i as int) && i < THEME_COUNT,
        r is None ==> spec_index_of(name@) is None,
{
    let wanted = chars_of(name);
    let mut i: usize = 0;
    while i < THEME_COUNT
        invariant
            i <= 8,
            wanted@ == name@,
            spec_index_of(name@) == index_from(name@, i as int),
        decreases 8 - i,
    {
        let entry = theme(i);
        let candidate = chars_of(entry.name);
        if same_chars(&candidate, &wanted) {
            return Some(i);
        }
        i = i + 1;
    }
    None
}

/// The theme at `index`, falling back to `live`: a saved name that no
/// longer exists must give the default, not nothing.
pub fn at(index: usize) -> (t: Theme)
    ensures
        t == spec_at(index as int),
{
    if index < THEME_COUNT {
        theme(index)
    } else {
        theme(0)
    }
}

/// A search that finds something finds a theme with that name.
proof fn lemma_index_from_hit(n: Seq<char>, i: int)
    ensures
        index_from(n, i) matches Some(k) ==> i <= k < 8 && theme_name(k) == n,
    decreases 8 - i,
{
    if 0 <= i < 8 && theme_name(i) != n {
        lemma_index_from_hit(n, i + 1);
    }
}

/// A name finds the theme that carries it: whatever index `index_of`
/// reports for a name is a theme with exactly that name.
pub proof fn lemma_found_theme_has_the_name(n: Seq<char>)
    ensures
        spec_index_of(n) matches Some(i) ==> 0 <= i < 8 && spec_theme(i).name@ == n,
{
    lemma_index_from_hit(n, 0);
}

/// Every theme is reachable by its own name: the names are distinct, so
/// looking up the name of the theme at `i` gives back `i`.
pub proof fn lemma_every_theme_is_reachable_by_name(i: int)
    requires
        0 <= i < 8,
    ensures
        spec_index_of(spec_theme(i).name@) == Some(i),
{
    reveal_strlit("live");
    reveal_strlit("tokyo");
    reveal_strlit("mocha");
    reveal_strlit("nord");
    reveal_strlit("gruvbox");
    reveal_strlit("synth");
    reveal_strlit("ember");
    reveal_strlit("phosphor");
    reveal_with_fuel(index_from, 9);
    let n = spec_theme(i).name@;
    assert forall|j: int| 0 <= j < i implies theme_name(j) != n by {
        assert(theme_name(j)[0] != n[0]);
    }
}

/// An index past the table is the default theme, `live`, which is the one
/// theme whose accent follows the screen.
pub proof fn lemma_out_of_table_is_live(i: int)
    requires
        i >= 8,
    ensures
        spec_at(i) == spec_theme(0),
        spec_at(i).accent is None,
{
}

/// The theme remembered in a saved file: its trimmed text names a theme,
/// else `live`. Anything unreadable, empty, or naming a theme that no longer
/// exists lands on the default.
pub open spec fn spec_remembered(saved: Option<Seq<char>>) -> int {
    match saved {
        Some(text) => match spec_index_of(crate::text::trim(text)) {
            Some(i) => i,
            None => 0,
        },
        None => 0,
    }
}

/// The theme index to wear from the contents of the remembered-theme file,
/// if it could be read.
pub fn remembered_index(saved: Option<&str>) -> (i: usize)
    ensures
        i == spec_remembered(match saved {
            Some(t) => Some(t@),
            None => None,
        }),
        i < THEME_COUNT,
{
    match saved {
        Some(text) => {
            let name = crate::text::trim_chars(&chars_of(text));
            let found = index_of(crate::text::string_of(&name).as_str());
            proof {
                lemma_index_from_hit(name@, 0);
            }
            match found {
                Some(i) => i,
                None => 0,
            }
        },
        None => 0,
    }
}

/// The name a theme is remembered by, or nothing for an index outside the
/// table: an index is one release away from meaning another theme, so the
/// name is what gets saved.
pub fn remembered_name(index: usize) -> (name: Option<&'static str>)
    ensures
        index < THEME_COUNT ==> name == Some(spec_theme(index as int).name),
        index >= THEME_COUNT ==> name is None,
{
    if index < THEME_COUNT {
        Some(theme(index).name)
    } else {
        None
    }
}

impl Theme {
    /// Whether this theme's accent comes from the screen rather than from
    /// the table: the one theme that has to be redrawn as the day goes on.
    pub fn is_live(&self) -> (b: bool)
        ensures
            b == self.accent.is_none(),
    {
        self.accent.is_none()
    }
}

} // verus!
