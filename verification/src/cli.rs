//! Command-line flags.
use vstd::prelude::*;

use crate::text::{chars_to_string, is_lit, push_str, str_chars, string_chars, strip_prefix, strip_prefix_spec};

verus! {

/// Whether some argument is `a` or `b`.
pub open spec fn any_arg_is(args: Seq<String>, a: Seq<char>, b: Seq<char>) -> bool {
    exists|i: int| 0 <= i < args.len() && (args[i]@ == a || args[i]@ == b)
}

fn any_arg(args: &[String], a: &str, b: &str) -> (r: bool)
    ensures
        r == any_arg_is(args@, a@, b@),
{
    let mut i: usize = 0;
    while i < args.len()
        invariant
            i <= args@.len(),
            forall|j: int| 0 <= j < i ==> !(args@[j]@ == a@ || args@[j]@ == b@),
        decreases args@.len() - i,
    {
        let c = string_chars(&args[i]);
        if is_lit(c.as_slice(), a) || is_lit(c.as_slice(), b) {
            return true;
        }
        i = i + 1;
    }
    false
}

/// Returns `true` if `--version` or `-V` appears in the arguments.
pub fn version_requested(args: &[String]) -> (r: bool)
    ensures
        r == any_arg_is(args@, "--version"@, "-V"@),
{
    any_arg(args, "--version", "-V")
}

/// Returns `true` if `--help` or `-h` appears in the arguments.
pub fn help_requested(args: &[String]) -> (r: bool)
    ensures
        r == any_arg_is(args@, "--help"@, "-h"@),
{
    any_arg(args, "--help", "-h")
}

/// Returns `true` if `--list-scopes` appears in the arguments.
pub fn list_scopes_requested(args: &[String]) -> (r: bool)
    ensures
        r == any_arg_is(args@, "--list-scopes"@, "--list-scopes"@),
{
    any_arg(args, "--list-scopes", "--list-scopes")
}

/// Returns `true` if `--debug` appears in the arguments: the session then
/// writes a debug log.
pub fn debug_requested(args: &[String]) -> (r: bool)
    ensures
        r == any_arg_is(args@, "--debug"@, "--debug"@),
{
    any_arg(args, "--debug", "--debug")
}

/// The usage text `--help` prints, for a program version.
pub open spec fn help_text_spec(version: Seq<char>) -> Seq<char> {
    "mmterm "@ + version + "

A cross-platform CPU-rendered terminal emulator.

Usage: mmterm [OPTIONS]

Options:
  --version, -V       Print version and exit
  --help,    -h       Print this help and exit
  --debug             Enable debug logging to ~/.mmterm/debug-<ts>.log
  --scope <name>      Use a named session scope (~/.config/mmterm/sessions/<name>.toml)
  --scope=<name>      Same as --scope <name>
  -s <name>           Short form of --scope
  --list-scopes       Print all saved scope names and exit
  --maximized         Start with the window maximized
  --fullscreen        Start with the window in fullscreen (wins over --maximized)"@
}

/// The usage text `--help` prints.
pub fn help_text(version: &str) -> (r: String)
    ensures
        r@ == help_text_spec(version@),
{
    let mut v = str_chars("mmterm ");
    push_str(&mut v, version);
    push_str(
        &mut v,
        "

A cross-platform CPU-rendered terminal emulator.

Usage: mmterm [OPTIONS]

Options:
  --version, -V       Print version and exit
  --help,    -h       Print this help and exit
  --debug             Enable debug logging to ~/.mmterm/debug-<ts>.log
  --scope <name>      Use a named session scope (~/.config/mmterm/sessions/<name>.toml)
  --scope=<name>      Same as --scope <name>
  -s <name>           Short form of --scope
  --list-scopes       Print all saved scope names and exit
  --maximized         Start with the window maximized
  --fullscreen        Start with the window in fullscreen (wins over --maximized)",
    );
    chars_to_string(v.as_slice())
}

/// How the window should be sized at startup, when requested on the command line.
#[derive(Debug, Clone, Copy, PartialEq, Eq, Structural)]
pub enum StartupWindowMode {
    Maximized,
    Fullscreen,
}

/// The startup window mode `--maximized` / `--fullscreen` ask for;
/// `--fullscreen` takes precedence when both are present.
pub open spec fn startup_mode_spec(args: Seq<String>) -> Option<StartupWindowMode> {
    if any_arg_is(args, "--fullscreen"@, "--fullscreen"@) {
        Some(StartupWindowMode::Fullscreen)
    } else if any_arg_is(args, "--maximized"@, "--maximized"@) {
        Some(StartupWindowMode::Maximized)
    } else {
        None
    }
}

/// Extracts the startup window mode from `--maximized` / `--fullscreen`.
pub fn startup_window_mode(args: &[String]) -> (r: Option<StartupWindowMode>)
    ensures
        r == startup_mode_spec(args@),
{
    let mut mode: Option<StartupWindowMode> = None;
    let mut i: usize = 0;
    while i < args.len()
        invariant
            i <= args@.len(),
            forall|j: int| 0 <= j < i ==> args@[j]@ != "--fullscreen"@,
            mode is Some <==> exists|j: int| 0 <= j < i && args@[j]@ == "--maximized"@,
            mode is Some ==> mode == Some(StartupWindowMode::Maximized),
        decreases args@.len() - i,
    {
        let c = string_chars(&args[i]);
        if is_lit(c.as_slice(), "--fullscreen") {
            return Some(StartupWindowMode::Fullscreen);
        } else if is_lit(c.as_slice(), "--maximized") {
            mode = Some(StartupWindowMode::Maximized);
        }
        i = i + 1;
    }
    mode
}

/// The startup mode in terms of the arguments alone: `--fullscreen`
/// anywhere gives fullscreen; otherwise `--maximized` anywhere gives a
/// maximized window; otherwise the window opens normally.  Adding a
/// `--fullscreen` argument always yields fullscreen.
pub proof fn lemma_startup_mode_flags(args: Seq<String>, extra: String)
    ensures
        (exists|i: int| 0 <= i < args.len() && (#[trigger] args[i])@ == "--fullscreen"@) ==> startup_mode_spec(args)
            == Some(StartupWindowMode::Fullscreen),
        (forall|i: int| 0 <= i < args.len() ==> (#[trigger] args[i])@ != "--fullscreen"@) && (exists|i: int|
            0 <= i < args.len() && (#[trigger] args[i])@ == "--maximized"@) ==> startup_mode_spec(args) == Some(
            StartupWindowMode::Maximized,
        ),
        (forall|i: int| 0 <= i < args.len() ==> (#[trigger] args[i])@ != "--fullscreen"@ && args[i]@ != "--maximized"@)
            ==> startup_mode_spec(args) is None,
        extra@ == "--fullscreen"@ ==> startup_mode_spec(args.push(extra)) == Some(StartupWindowMode::Fullscreen),
{
    if extra@ == "--fullscreen"@ {
        let a2 = args.push(extra);
        assert(a2[args.len() as int]@ == "--fullscreen"@);
    }
}

/// The scope the arguments name, looking from index `i` on.
pub open spec fn scope_from(args: Seq<String>, i: int) -> Option<Seq<char>>
    decreases args.len() - i,
{
    if i < 0 || i >= args.len() {
        None
    } else if args[i]@ == "--scope"@ || args[i]@ == "-s"@ {
        if i + 1 < args.len() { Some(args[i + 1]@) } else { None }
    } else if strip_prefix_spec(args[i]@, "--scope="@) is Some {
        strip_prefix_spec(args[i]@, "--scope="@)
    } else {
        scope_from(args, i + 1)
    }
}

/// Extracts the `--scope <name>` / `--scope=<name>` / `-s <name>` value from
/// the arguments; the first scope flag wins.
pub fn scope_from_args(args: &[String]) -> (r: Option<String>)
    ensures
        match r {
            Some(s) => scope_from(args@, 0) == Some(s@),
            None => scope_from(args@, 0) is None,
        },
{
    let mut i: usize = 0;
    while i < args.len()
        invariant
            i <= args@.len(),
            scope_from(args@, 0) == scope_from(args@, i as int),
        decreases args@.len() - i,
    {
        let c = string_chars(&args[i]);
        if is_lit(c.as_slice(), "--scope") || is_lit(c.as_slice(), "-s") {
            if i + 1 < args.len() {
                return Some(args[i + 1].clone());
            }
            return None;
        }
        if let Some(val) = strip_prefix(c.as_slice(), "--scope=") {
            return Some(chars_to_string(val.as_slice()));
        }
        i = i + 1;
    }
    None
}

} // verus!
