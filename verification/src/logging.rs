//! Where log files go and what they are called.
use vstd::prelude::*;
use crate::text::{chars_to_string, decimal, owned, push_decimal, push_str};

verus! {

/// The log directory: `log_dir` when it is set, else `.mmterm` under `home`.
pub open spec fn log_dir_spec(log_dir: Seq<char>, home: Seq<char>) -> Seq<char> {
    if log_dir.len() == 0 {
        home + "/.mmterm"@
    } else {
        log_dir
    }
}

/// Resolves the directory used for log files, falling back to
/// `<home>/.mmterm` when `log_dir` is empty.
pub fn resolve_log_dir(log_dir: &str, home: &str) -> (r: String)
    ensures
        r@ == log_dir_spec(log_dir@, home@),
{
    if log_dir.unicode_len() == 0 {
        let mut out: Vec<char> = Vec::new();
        push_str(&mut out, home);
        push_str(&mut out, "/.mmterm");
        assert(out@ =~= log_dir_spec(log_dir@, home@));
        chars_to_string(out.as_slice())
    } else {
        owned(log_dir)
    }
}

/// `<dir>/mmterm-<ts>-pane<pane_id>.log`.
pub open spec fn log_file_path_spec(dir: Seq<char>, ts: nat, pane_id: nat) -> Seq<char> {
    dir + "/mmterm-"@ + decimal(ts) + "-pane"@ + decimal(pane_id) + ".log"@
}

/// The log file of pane `pane_id` in directory `dir`, for a session
/// started at Unix time `ts`.
pub fn log_file_path(dir: &str, ts: u64, pane_id: usize) -> (r: String)
    ensures
        r@ == log_file_path_spec(dir@, ts as nat, pane_id as nat),
{
    let mut out: Vec<char> = Vec::new();
    push_str(&mut out, dir);
    push_str(&mut out, "/mmterm-");
    push_decimal(&mut out, ts);
    push_str(&mut out, "-pane");
    push_decimal(&mut out, pane_id as u64);
    push_str(&mut out, ".log");
    assert(out@ =~= log_file_path_spec(dir@, ts as nat, pane_id as nat));
    chars_to_string(out.as_slice())
}

/// `<home>/.mmterm/debug-<stamp>.log`.
pub open spec fn debug_log_file_spec(home: Seq<char>, stamp: Seq<char>) -> Seq<char> {
    home + "/.mmterm/debug-"@ + stamp + ".log"@
}

/// The debug log of a session started at the local time `stamp`
/// (`%Y%m%dT%H%M%S`), under the home directory `home`.
pub fn debug_log_file(home: &str, stamp: &str) -> (r: String)
    ensures
        r@ == debug_log_file_spec(home@, stamp@),
{
    let mut out: Vec<char> = Vec::new();
    push_str(&mut out, home);
    push_str(&mut out, "/.mmterm/debug-");
    push_str(&mut out, stamp);
    push_str(&mut out, ".log");
    assert(out@ =~= debug_log_file_spec(home@, stamp@));
    chars_to_string(out.as_slice())
}

} // verus!
