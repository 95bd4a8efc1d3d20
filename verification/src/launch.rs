//! The command lines of the two windows. The terminal dashboard takes
//! `--theme <name>`, `--tab <name or number>` and `--demo`; the settings
//! panel takes `--tab <name>` and `--demo`; both take the two that answer
//! and leave, `--version` and `--help`, which are all the tray takes.
//! Flags are read in order; a later
//! `--theme` or `--tab` wins, and the first flag that cannot be read is the
//! error.

use vstd::prelude::*;

use crate::readout::{spec_tab_index, tab_by_name, tab_from, tab_index, TAB_COUNT};
use crate::text::{chars_of, same_chars};
use crate::theme::{index_of, spec_index_of, THEME_COUNT};

verus! {

broadcast use vstd::string::group_string_axioms;

/// What the command line asks for.
#[derive(Clone, Copy, Debug, PartialEq, Eq, Structural)]
pub enum Launch {
    /// Open the dashboard: with this theme for this run (`None` wears the
    /// remembered one), on this tab, on the demonstration clock or not.
    Run { theme: Option<usize>, tab: usize, demo: bool },
    /// Print the version and leave.
    Version,
    /// Print the usage and leave.
    Help,
}

/// Why a command line cannot be read.
#[derive(Clone, Copy, Debug, PartialEq, Eq, Structural)]
pub enum ArgProblem {
    /// An unknown flag, or a flag missing its value: print the usage.
    Usage,
    /// `--theme` named no theme.
    UnknownTheme,
    /// `--tab` named no tab.
    UnknownTab,
    /// A flag the panel does not know.
    UnknownOption,
}

/// A command line that cannot be read, with the value at fault (empty for
/// a usage error).
#[derive(Clone, Debug)]
pub struct ArgError {
    pub problem: ArgProblem,
    pub value: String,
}

/// The arguments, as characters.
pub open spec fn arg_views(args: Seq<String>) -> Seq<Seq<char>> {
    args.map_values(|a: String| a@)
}

/// The command line read from the flags still to come, given what the
/// flags before them set.
pub open spec fn spec_launch(args: Seq<Seq<char>>, theme: Option<usize>, tab: usize, demo: bool) -> Result<
    Launch,
    (ArgProblem, Seq<char>),
>
    decreases args.len(),
{
    if args.len() == 0 {
        Ok(Launch::Run { theme, tab, demo })
    } else {
        let a = args[0];
        let rest = args.drop_first();
        if a == "--version"@ || a == "-V"@ {
            Ok(Launch::Version)
        } else if a == "--help"@ || a == "-h"@ {
            Ok(Launch::Help)
        } else if a == "--theme"@ || a == "-t"@ {
            if rest.len() == 0 {
                Err((ArgProblem::Usage, Seq::empty()))
            } else {
                match spec_index_of(rest[0]) {
                    Some(i) => spec_launch(rest.drop_first(), Some(i as usize), tab, demo),
                    None => Err((ArgProblem::UnknownTheme, rest[0])),
                }
            }
        } else if a == "--tab"@ {
            if rest.len() == 0 {
                Err((ArgProblem::Usage, Seq::empty()))
            } else {
                match spec_tab_index(rest[0]) {
                    Some(i) => spec_launch(rest.drop_first(), theme, i as usize, demo),
                    None => Err((ArgProblem::UnknownTab, rest[0])),
                }
            }
        } else if a == "--demo"@ {
            spec_launch(rest, theme, tab, true)
        } else {
            Err((ArgProblem::Usage, Seq::empty()))
        }
    }
}

/// The view of a reading of the command line.
pub open spec fn launch_view(r: Result<Launch, ArgError>) -> Result<Launch, (ArgProblem, Seq<char>)> {
    match r {
        Ok(l) => Ok(l),
        Err(e) => Err((e.problem, e.value@)),
    }
}

/// Whether `a` reads as the literal `lit`.
fn is(a: &String, lit: &str) -> (b: bool)
    ensures
        b == (a@ == lit@),
{
    same_chars(&chars_of(a.as_str()), &chars_of(lit))
}

/// Reads the dashboard's command line (the arguments after the program's
/// name). A dashboard to run gets a tab and a theme that exist.
pub fn parse_args(args: &Vec<String>) -> (r: Result<Launch, ArgError>)
    ensures
        launch_view(r) == spec_launch(arg_views(args@), None, 0, false),
        r matches Ok(Launch::Run { theme, tab, .. }) ==> tab < TAB_COUNT && (theme matches Some(t)
            ==> t < THEME_COUNT),
{
    let mut theme: Option<usize> = None;
    let mut tab: usize = 0;
    let mut demo = false;
    let mut i: usize = 0;
    assert(arg_views(args@).skip(0) =~= arg_views(args@));
    while i < args.len()
        invariant
            i <= args.len(),
            tab < TAB_COUNT,
            theme matches Some(t) ==> t < THEME_COUNT,
            spec_launch(arg_views(args@).skip(i as int), theme, tab, demo) == spec_launch(
                arg_views(args@),
                None,
                0,
                false,
            ),
        decreases args.len() - i,
    {
        let ghost rest = arg_views(args@).skip(i as int);
        assert(rest[0] == args@[i as int]@);
        assert(rest.drop_first() =~= arg_views(args@).skip(i + 1));
        let a = &args[i];
        if is(a, "--version") || is(a, "-V") {
            return Ok(Launch::Version);
        } else if is(a, "--help") || is(a, "-h") {
            return Ok(Launch::Help);
        } else if is(a, "--theme") || is(a, "-t") {
            if i + 1 >= args.len() {
                return Err(ArgError { problem: ArgProblem::Usage, value: String::new() });
            }
            assert(rest.drop_first()[0] == args@[i + 1]@);
            assert(rest.drop_first().drop_first() =~= arg_views(args@).skip(i + 2));
            let name = &args[i + 1];
            match index_of(name.as_str()) {
                Some(t) => {
                    theme = Some(t);
                },
                None => {
                    return Err(ArgError { problem: ArgProblem::UnknownTheme, value: name.clone() });
                },
            }
            i = i + 2;
        } else if is(a, "--tab") {
            if i + 1 >= args.len() {
                return Err(ArgError { problem: ArgProblem::Usage, value: String::new() });
            }
            assert(rest.drop_first()[0] == args@[i + 1]@);
            assert(rest.drop_first().drop_first() =~= arg_views(args@).skip(i + 2));
            let name = &args[i + 1];
            match tab_index(name.as_str()) {
                Some(t) => {
                    tab = t;
                },
                None => {
                    return Err(ArgError { problem: ArgProblem::UnknownTab, value: name.clone() });
                },
            }
            i = i + 2;
        } else if is(a, "--demo") {
            demo = true;
            i = i + 1;
        } else {
            return Err(ArgError { problem: ArgProblem::Usage, value: String::new() });
        }
    }
    assert(arg_views(args@).skip(i as int) =~= Seq::<Seq<char>>::empty());
    Ok(Launch::Run { theme, tab, demo })
}

/// What the panel's command line asks for.
#[derive(Clone, Copy, Debug, PartialEq, Eq, Structural)]
pub enum PanelLaunch {
    /// Open the window on this tab, on the demonstration clock or not.
    Run { tab: usize, demo: bool },
    /// Print the version and leave.
    Version,
    /// Print the usage and leave.
    Help,
}

/// The panel's command line read from the flags still to come. Its tabs
/// are chosen by name only, and an unknown flag is named in the error.
pub open spec fn spec_panel_launch(args: Seq<Seq<char>>, tab: usize, demo: bool) -> Result<
    PanelLaunch,
    (ArgProblem, Seq<char>),
>
    decreases args.len(),
{
    if args.len() == 0 {
        Ok(PanelLaunch::Run { tab, demo })
    } else {
        let a = args[0];
        let rest = args.drop_first();
        if a == "--version"@ || a == "-V"@ {
            Ok(PanelLaunch::Version)
        } else if a == "--help"@ || a == "-h"@ {
            Ok(PanelLaunch::Help)
        } else if a == "--demo"@ {
            spec_panel_launch(rest, tab, true)
        } else if a == "--tab"@ {
            if rest.len() == 0 {
                Err((ArgProblem::Usage, Seq::empty()))
            } else {
                match tab_from(rest[0], 0) {
                    Some(i) => spec_panel_launch(rest.drop_first(), i as usize, demo),
                    None => Err((ArgProblem::UnknownTab, rest[0])),
                }
            }
        } else {
            Err((ArgProblem::UnknownOption, a))
        }
    }
}

/// The view of a reading of the panel's command line.
pub open spec fn panel_launch_view(r: Result<PanelLaunch, ArgError>) -> Result<PanelLaunch, (ArgProblem, Seq<char>)> {
    match r {
        Ok(l) => Ok(l),
        Err(e) => Err((e.problem, e.value@)),
    }
}

/// Reads the panel's command line (the arguments after the program's
/// name). A window to open gets a tab that exists.
pub fn parse_panel_args(args: &Vec<String>) -> (r: Result<PanelLaunch, ArgError>)
    ensures
        panel_launch_view(r) == spec_panel_launch(arg_views(args@), 0, false),
        r matches Ok(PanelLaunch::Run { tab, .. }) ==> tab < TAB_COUNT,
{
    let mut tab: usize = 0;
    let mut demo = false;
    let mut i: usize = 0;
    assert(arg_views(args@).skip(0) =~= arg_views(args@));
    while i < args.len()
        invariant
            i <= args.len(),
            tab < TAB_COUNT,
            spec_panel_launch(arg_views(args@).skip(i as int), tab, demo) == spec_panel_launch(
                arg_views(args@),
                0,
                false,
            ),
        decreases args.len() - i,
    {
        let ghost rest = arg_views(args@).skip(i as int);
        assert(rest[0] == args@[i as int]@);
        assert(rest.drop_first() =~= arg_views(args@).skip(i + 1));
        let a = &args[i];
        if is(a, "--version") || is(a, "-V") {
            return Ok(PanelLaunch::Version);
        } else if is(a, "--help") || is(a, "-h") {
            return Ok(PanelLaunch::Help);
        } else if is(a, "--demo") {
            demo = true;
            i = i + 1;
        } else if is(a, "--tab") {
            if i + 1 >= args.len() {
                return Err(ArgError { problem: ArgProblem::Usage, value: String::new() });
            }
            assert(rest.drop_first()[0] == args@[i + 1]@);
            assert(rest.drop_first().drop_first() =~= arg_views(args@).skip(i + 2));
            let name = &args[i + 1];
            match tab_by_name(name.as_str()) {
                Some(t) => {
                    tab = t;
                },
                None => {
                    return Err(ArgError { problem: ArgProblem::UnknownTab, value: name.clone() });
                },
            }
            i = i + 2;
        } else {
            return Err(ArgError { problem: ArgProblem::UnknownOption, value: a.clone() });
        }
    }
    assert(arg_views(args@).skip(i as int) =~= Seq::<Seq<char>>::empty());
    Ok(PanelLaunch::Run { tab, demo })
}

/// What the tray's command line asks for, when it asks for anything.
#[derive(Clone, Copy, Debug, PartialEq, Eq, Structural)]
pub enum Answer {
    /// Print the version and leave.
    Version,
    /// Print the usage and leave.
    Help,
}

/// The tray's command line: it takes no options, so only the first
/// argument is read; nothing means run, and anything but `--version` or
/// `--help` is an unknown option.
pub open spec fn spec_tray_launch(args: Seq<Seq<char>>) -> Result<Option<Answer>, (ArgProblem, Seq<char>)> {
    if args.len() == 0 {
        Ok(None)
    } else if args[0] == "--version"@ || args[0] == "-V"@ {
        Ok(Some(Answer::Version))
    } else if args[0] == "--help"@ || args[0] == "-h"@ {
        Ok(Some(Answer::Help))
    } else {
        Err((ArgProblem::UnknownOption, args[0]))
    }
}

/// Reads the tray's command line (the arguments after the program's name):
/// `None` to run the tray, or what to answer before leaving.
pub fn parse_tray_args(args: &Vec<String>) -> (r: Result<Option<Answer>, ArgError>)
    ensures
        (match r {
            Ok(a) => Ok(a),
            Err(e) => Err((e.problem, e.value@)),
        }) == spec_tray_launch(arg_views(args@)),
{
    if args.len() == 0 {
        return Ok(None);
    }
    let a = &args[0];
    assert(arg_views(args@)[0] == a@);
    if is(a, "--version") || is(a, "-V") {
        Ok(Some(Answer::Version))
    } else if is(a, "--help") || is(a, "-h") {
        Ok(Some(Answer::Help))
    } else {
        Err(ArgError { problem: ArgProblem::UnknownOption, value: a.clone() })
    }
}

} // verus!
