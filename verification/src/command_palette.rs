//! The command palette: a searchable list of every action with its label,
//! internal code and keyboard shortcut.
use vstd::prelude::*;

use crate::action::Action;
use crate::text::{contains_chars, contains_seq, lowercase_chars, str_chars, str_lowercase};

verus! {

/// Number of palette entries.
pub const ENTRY_COUNT: usize = 32;

/// Entry `i` of the palette: (human label, internal code, keyboard shortcut, action).
pub open spec fn entry_spec(i: int) -> (Seq<char>, Seq<char>, Seq<char>, Action) {
    if i == 0 {
        ("Split Horizontal"@, "SplitH"@, "Ctrl+W v"@, Action::SplitH)
    }     else if i == 1 {
        ("Split Vertical"@, "SplitV"@, "Ctrl+W s"@, Action::SplitV)
    }     else if i == 2 {
        ("Auto Split"@, "AutoSplit"@, "Ctrl+W a"@, Action::AutoSplit)
    }     else if i == 3 {
        ("Close Pane"@, "ClosePane"@, "Ctrl+W q"@, Action::ClosePane)
    }     else if i == 4 {
        ("Zoom Pane"@, "ZoomPane"@, "Ctrl+W z"@, Action::ZoomPane)
    }     else if i == 5 {
        ("Focus Left"@, "FocusLeft"@, "Ctrl+W h"@, Action::FocusLeft)
    }     else if i == 6 {
        ("Focus Right"@, "FocusRight"@, "Ctrl+W l"@, Action::FocusRight)
    }     else if i == 7 {
        ("Focus Up"@, "FocusUp"@, "Ctrl+W k"@, Action::FocusUp)
    }     else if i == 8 {
        ("Focus Down"@, "FocusDown"@, "Ctrl+W j"@, Action::FocusDown)
    }     else if i == 9 {
        ("Focus Next Pane"@, "FocusNext"@, "Ctrl+W w"@, Action::FocusNext)
    }     else if i == 10 {
        ("Resize Pane Right"@, "ResizePaneRight"@, "Ctrl+Shift+→"@, Action::ResizePaneRight)
    }     else if i == 11 {
        ("Resize Pane Left"@, "ResizePaneLeft"@, "Ctrl+Shift+←"@, Action::ResizePaneLeft)
    }     else if i == 12 {
        ("Resize Pane Down"@, "ResizePaneDown"@, "Ctrl+Shift+↓"@, Action::ResizePaneDown)
    }     else if i == 13 {
        ("Resize Pane Up"@, "ResizePaneUp"@, "Ctrl+Shift+↑"@, Action::ResizePaneUp)
    }     else if i == 14 {
        ("New Tab"@, "NewTab"@, "Ctrl+T"@, Action::NewTab)
    }     else if i == 15 {
        ("Next Tab"@, "NextTab"@, "Ctrl+PgDn"@, Action::NextTab)
    }     else if i == 16 {
        ("Previous Tab"@, "PrevTab"@, "Ctrl+PgUp"@, Action::PrevTab)
    }     else if i == 17 {
        ("Close Tab"@, "CloseTab"@, "Ctrl+Shift+W"@, Action::CloseTab)
    }     else if i == 18 {
        ("Rename Tab"@, "RenameTab"@, "Ctrl+Shift+R"@, Action::RenameTab)
    }     else if i == 19 {
        ("Move Tab Left"@, "MoveTabLeft"@, "Ctrl+Shift+PgUp"@, Action::MoveTabLeft)
    }     else if i == 20 {
        ("Move Tab Right"@, "MoveTabRight"@, "Ctrl+Shift+PgDn"@, Action::MoveTabRight)
    }     else if i == 21 {
        ("Increase Font Size"@, "IncreaseFontSize"@, "Ctrl++"@, Action::IncreaseFontSize)
    }     else if i == 22 {
        ("Decrease Font Size"@, "DecreaseFontSize"@, "Ctrl+-"@, Action::DecreaseFontSize)
    }     else if i == 23 {
        ("Reset Font Size"@, "ResetFontSize"@, "Ctrl+0"@, Action::ResetFontSize)
    }     else if i == 24 {
        ("Search"@, "SearchOpen"@, "/  (Normal mode)"@, Action::SearchOpen)
    }     else if i == 25 {
        ("Scroll to Top"@, "ScrollToTop"@, "Ctrl+Shift+Home"@, Action::ScrollToTop)
    }     else if i == 26 {
        ("Scroll to Bottom"@, "ScrollToBottom"@, "Ctrl+Shift+End"@, Action::ScrollToBottom)
    }     else if i == 27 {
        ("Clear Scrollback"@, "ClearScrollback"@, "Ctrl+Shift+K"@, Action::ClearScrollback)
    }     else if i == 28 {
        ("Toggle Log"@, "ToggleLog"@, "Ctrl+Shift+L"@, Action::ToggleLog)
    }     else if i == 29 {
        ("Toggle Fullscreen"@, "ToggleFullscreen"@, "Ctrl+Enter"@, Action::ToggleFullscreen)
    }     else if i == 30 {
        ("Open Config"@, "OpenConfig"@, "Ctrl+,"@, Action::OpenConfig)
    }     else if i == 31 {
        ("Quit"@, "Quit"@, "Ctrl+Q"@, Action::Quit)
    } else {
        (Seq::empty(), Seq::empty(), Seq::empty(), Action::Nothing)
    }
}

/// Whether entry `i` matches an already lowercased query: by label or code,
/// case-insensitively, as a substring; an empty query matches everything.
pub open spec fn entry_matches(q: Seq<char>, i: int) -> bool {
    q.len() == 0 || contains_seq(str_lowercase(entry_spec(i).0), q) || contains_seq(
        str_lowercase(entry_spec(i).1),
        q,
    )
}

/// Indices below `n` of the entries that match `q`, in increasing order.
pub open spec fn filter_spec(q: Seq<char>, n: int) -> Seq<usize>
    decreases n,
{
    if n <= 0 {
        Seq::empty()
    } else if entry_matches(q, n - 1) {
        filter_spec(q, n - 1).push((n - 1) as usize)
    } else {
        filter_spec(q, n - 1)
    }
}

/// Every index below `n`, in increasing order.
pub open spec fn all_indices(n: int) -> Seq<usize> {
    Seq::new(n as nat, |i: int| i as usize)
}

proof fn lemma_empty_query_keeps_all(n: int)
    requires
        0 <= n <= ENTRY_COUNT,
    ensures
        filter_spec(Seq::empty(), n) == all_indices(n),
    decreases n,
{
    if n > 0 {
        lemma_empty_query_keeps_all(n - 1);
        assert(filter_spec(Seq::empty(), n) =~= all_indices(n));
    } else {
        assert(filter_spec(Seq::empty(), n) =~= all_indices(n));
    }
}

/// Whether lowered label and code `p` match the lowered query `q`.
pub open spec fn matches_lowered(q: Seq<char>, p: (Vec<char>, Vec<char>)) -> bool {
    q.len() == 0 || contains_seq(p.0@, q) || contains_seq(p.1@, q)
}

/// The indices below `n` of the lowered entries matching `q`, in order.
pub open spec fn filter_lowered_spec(q: Seq<char>, lowered: Seq<(Vec<char>, Vec<char>)>, n: int) -> Seq<usize>
    decreases n,
{
    if n <= 0 {
        Seq::empty()
    } else if matches_lowered(q, lowered[n - 1]) {
        filter_lowered_spec(q, lowered, n - 1).push((n - 1) as usize)
    } else {
        filter_lowered_spec(q, lowered, n - 1)
    }
}

/// The indices of the entries whose lowercased label or code (`lowered[i]`)
/// contains the lowercased query `q`, in order; every index for an empty
/// query.
pub fn filter_lowered(q: &[char], lowered: &[(Vec<char>, Vec<char>)]) -> (r: Vec<usize>)
    ensures
        r@ == filter_lowered_spec(q@, lowered@, lowered@.len() as int),
{
    let mut out: Vec<usize> = Vec::new();
    let mut i: usize = 0;
    while i < lowered.len()
        invariant
            i <= lowered@.len(),
            out@ == filter_lowered_spec(q@, lowered@, i as int),
        decreases lowered@.len() - i,
    {
        let (l, c) = &lowered[i];
        if q.len() == 0 || contains_chars(l.as_slice(), q) || contains_chars(c.as_slice(), q) {
            out.push(i);
        }
        i = i + 1;
    }
    out
}

proof fn lemma_filter_lowered_agrees(q: Seq<char>, lowered: Seq<(Vec<char>, Vec<char>)>, n: int)
    requires
        0 <= n <= lowered.len(),
        forall|i: int| 0 <= i < lowered.len() ==> (#[trigger] lowered[i]).0@ == str_lowercase(entry_spec(i).0)
            && lowered[i].1@ == str_lowercase(entry_spec(i).1),
    ensures
        filter_lowered_spec(q, lowered, n) == filter_spec(q, n),
    decreases n,
{
    if n > 0 {
        lemma_filter_lowered_agrees(q, lowered, n - 1);
        assert(matches_lowered(q, lowered[n - 1]) == entry_matches(q, n - 1));
    }
}

/// Returns indices of the entries whose label or code contains the query
/// (case-insensitive substring). An empty query returns all entries.
pub fn filter(query: &str) -> (r: Vec<usize>)
    ensures
        r@ == filter_spec(str_lowercase(query@), ENTRY_COUNT as int),
        query@.len() == 0 ==> r@ == all_indices(ENTRY_COUNT as int),
{
    let qs = str_chars(query);
    let q = lowercase_chars(qs.as_slice());
    let mut lowered: Vec<(Vec<char>, Vec<char>)> = Vec::new();
    let mut i: usize = 0;
    while i < ENTRY_COUNT
        invariant
            i <= ENTRY_COUNT,
            lowered@.len() == i,
            forall|k: int| 0 <= k < i ==> (#[trigger] lowered@[k]).0@ == str_lowercase(entry_spec(k).0)
                && lowered@[k].1@ == str_lowercase(entry_spec(k).1),
        decreases ENTRY_COUNT - i,
    {
        let label = str_chars(entry_label(i));
        let code = str_chars(entry_code(i));
        let ll = lowercase_chars(label.as_slice());
        let lc = lowercase_chars(code.as_slice());
        lowered.push((ll, lc));
        i = i + 1;
    }
    let out = filter_lowered(q.as_slice(), lowered.as_slice());
    proof {
        lemma_filter_lowered_agrees(q@, lowered@, ENTRY_COUNT as int);
        if query@.len() == 0 {
            assert(q@ =~= Seq::<char>::empty());
            lemma_empty_query_keeps_all(ENTRY_COUNT as int);
        }
    }
    out
}

/// Human label of entry `idx`.
pub fn entry_label(idx: usize) -> (r: &'static str)
    requires
        idx < ENTRY_COUNT,
    ensures
        r@ == entry_spec(idx as int).0,
{
    match idx {
        0 => "Split Horizontal",
        1 => "Split Vertical",
        2 => "Auto Split",
        3 => "Close Pane",
        4 => "Zoom Pane",
        5 => "Focus Left",
        6 => "Focus Right",
        7 => "Focus Up",
        8 => "Focus Down",
        9 => "Focus Next Pane",
        10 => "Resize Pane Right",
        11 => "Resize Pane Left",
        12 => "Resize Pane Down",
        13 => "Resize Pane Up",
        14 => "New Tab",
        15 => "Next Tab",
        16 => "Previous Tab",
        17 => "Close Tab",
        18 => "Rename Tab",
        19 => "Move Tab Left",
        20 => "Move Tab Right",
        21 => "Increase Font Size",
        22 => "Decrease Font Size",
        23 => "Reset Font Size",
        24 => "Search",
        25 => "Scroll to Top",
        26 => "Scroll to Bottom",
        27 => "Clear Scrollback",
        28 => "Toggle Log",
        29 => "Toggle Fullscreen",
        30 => "Open Config",
        31 => "Quit",
        _ => "",
    }
}

/// Internal code of entry `idx`.
pub fn entry_code(idx: usize) -> (r: &'static str)
    requires
        idx < ENTRY_COUNT,
    ensures
        r@ == entry_spec(idx as int).1,
{
    match idx {
        0 => "SplitH",
        1 => "SplitV",
        2 => "AutoSplit",
        3 => "ClosePane",
        4 => "ZoomPane",
        5 => "FocusLeft",
        6 => "FocusRight",
        7 => "FocusUp",
        8 => "FocusDown",
        9 => "FocusNext",
        10 => "ResizePaneRight",
        11 => "ResizePaneLeft",
        12 => "ResizePaneDown",
        13 => "ResizePaneUp",
        14 => "NewTab",
        15 => "NextTab",
        16 => "PrevTab",
        17 => "CloseTab",
        18 => "RenameTab",
        19 => "MoveTabLeft",
        20 => "MoveTabRight",
        21 => "IncreaseFontSize",
        22 => "DecreaseFontSize",
        23 => "ResetFontSize",
        24 => "SearchOpen",
        25 => "ScrollToTop",
        26 => "ScrollToBottom",
        27 => "ClearScrollback",
        28 => "ToggleLog",
        29 => "ToggleFullscreen",
        30 => "OpenConfig",
        31 => "Quit",
        _ => "",
    }
}

/// Keyboard shortcut of entry `idx`.
pub fn entry_shortcut(idx: usize) -> (r: &'static str)
    requires
        idx < ENTRY_COUNT,
    ensures
        r@ == entry_spec(idx as int).2,
{
    match idx {
        0 => "Ctrl+W v",
        1 => "Ctrl+W s",
        2 => "Ctrl+W a",
        3 => "Ctrl+W q",
        4 => "Ctrl+W z",
        5 => "Ctrl+W h",
        6 => "Ctrl+W l",
        7 => "Ctrl+W k",
        8 => "Ctrl+W j",
        9 => "Ctrl+W w",
        10 => "Ctrl+Shift+→",
        11 => "Ctrl+Shift+←",
        12 => "Ctrl+Shift+↓",
        13 => "Ctrl+Shift+↑",
        14 => "Ctrl+T",
        15 => "Ctrl+PgDn",
        16 => "Ctrl+PgUp",
        17 => "Ctrl+Shift+W",
        18 => "Ctrl+Shift+R",
        19 => "Ctrl+Shift+PgUp",
        20 => "Ctrl+Shift+PgDn",
        21 => "Ctrl++",
        22 => "Ctrl+-",
        23 => "Ctrl+0",
        24 => "/  (Normal mode)",
        25 => "Ctrl+Shift+Home",
        26 => "Ctrl+Shift+End",
        27 => "Ctrl+Shift+K",
        28 => "Ctrl+Shift+L",
        29 => "Ctrl+Enter",
        30 => "Ctrl+,",
        31 => "Ctrl+Q",
        _ => "",
    }
}

/// The action entry `idx` runs.
pub fn entry_action(idx: usize) -> (r: Action)
    requires
        idx < ENTRY_COUNT,
    ensures
        r == entry_spec(idx as int).3,
{
    match idx {
        0 => Action::SplitH,
        1 => Action::SplitV,
        2 => Action::AutoSplit,
        3 => Action::ClosePane,
        4 => Action::ZoomPane,
        5 => Action::FocusLeft,
        6 => Action::FocusRight,
        7 => Action::FocusUp,
        8 => Action::FocusDown,
        9 => Action::FocusNext,
        10 => Action::ResizePaneRight,
        11 => Action::ResizePaneLeft,
        12 => Action::ResizePaneDown,
        13 => Action::ResizePaneUp,
        14 => Action::NewTab,
        15 => Action::NextTab,
        16 => Action::PrevTab,
        17 => Action::CloseTab,
        18 => Action::RenameTab,
        19 => Action::MoveTabLeft,
        20 => Action::MoveTabRight,
        21 => Action::IncreaseFontSize,
        22 => Action::DecreaseFontSize,
        23 => Action::ResetFontSize,
        24 => Action::SearchOpen,
        25 => Action::ScrollToTop,
        26 => Action::ScrollToBottom,
        27 => Action::ClearScrollback,
        28 => Action::ToggleLog,
        29 => Action::ToggleFullscreen,
        30 => Action::OpenConfig,
        31 => Action::Quit,
        _ => Action::Nothing,
    }
}

/// Number of entries.
pub fn total() -> (r: usize)
    ensures
        r == ENTRY_COUNT,
{
    ENTRY_COUNT
}

} // verus!
