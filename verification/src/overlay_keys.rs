//! Keys typed into the overlays that edit text: the search prompt, the
//! command palette, the tab-rename field and the screenshot-name field.  Each handler maps the
//! current mode and a key to the next mode and what the application must
//! do outside the mode: run a palette entry, rename the tab, save a
//! screenshot.
use vstd::prelude::*;
use crate::command_palette::{filter, filter_spec, ENTRY_COUNT};
use crate::keys::{Key, NamedKey};
use crate::mode::InputMode;
use crate::search_state::next_match_index;
use crate::text::{chars_to_string, push_all, string_chars, str_lowercase, trim, trim_spec};

verus! {

/// Text after one editing key: Backspace removes the last character, a
/// character key appends its text.
pub open spec fn edited(text: Seq<char>, key: Key) -> Seq<char> {
    match key {
        Key::Named(NamedKey::Backspace) => if text.len() > 0 { text.drop_last() } else { text },
        Key::Character(s) => text + s@,
        _ => text,
    }
}

fn edit_text(text: &String, key: &Key) -> (r: String)
    requires
        key matches Key::Named(NamedKey::Backspace) || key is Character,
    ensures
        r@ == edited(text@, *key),
{
    let mut chars = string_chars(text);
    match key {
        Key::Character(s) => {
            let extra = string_chars(s);
            push_all(&mut chars, extra.as_slice());
        },
        _ => {
            if chars.len() > 0 {
                chars.pop();
            }
        },
    }
    chars_to_string(chars.as_slice())
}

/// What a key does at the search prompt.
pub enum SearchKeyOutcome {
    /// Leave search for normal mode and drop the matches.
    Exit,
    /// Scroll to match `i`.
    JumpTo(usize),
    /// The query is now the given text: search again with it.
    Requery(String),
    /// Copy the current match to the clipboard.
    CopyMatch,
    /// Nothing happens.
    Ignore,
}

/// Whether `s` is the text `c` alone.
fn is_single(s: &String, c: char) -> (r: bool)
    ensures
        r == (s@ == seq![c]),
{
    let chars = string_chars(s);
    let r = chars.len() == 1 && chars[0] == c;
    proof {
        if chars@.len() == 1 && chars@[0] == c {
            assert(chars@ =~= seq![c]);
        }
    }
    r
}

/// Handles a key at the search prompt with query `query`, `n_matches`
/// matches and match `current` selected; other modes ignore it.  Escape
/// leaves search; Enter goes to the next match, wrapping, when there is
/// one; Backspace drops the query's last character; Ctrl-C (`\x03`) and
/// `c` copy the current match; any other text is appended to the query.
pub fn search_key(mode: &InputMode, key: &Key, n_matches: usize, current: usize) -> (r: SearchKeyOutcome)
    requires
        n_matches > 0 ==> current < usize::MAX,
    ensures
        !(*mode is Search) ==> r is Ignore,
        *mode matches InputMode::Search { query, .. } ==> match *key {
            Key::Named(NamedKey::Escape) => r is Exit,
            Key::Named(NamedKey::Enter) => if n_matches > 0 {
                r == SearchKeyOutcome::JumpTo(((current + 1) % (n_matches as int)) as usize)
            } else {
                r is Ignore
            },
            Key::Named(NamedKey::Backspace) => r matches SearchKeyOutcome::Requery(q) && q@ == edited(query@, *key),
            Key::Character(s) => if s@ == seq!['\x03'] || s@ == seq!['c'] {
                r is CopyMatch
            } else {
                r matches SearchKeyOutcome::Requery(q) && q@ == edited(query@, *key)
            },
            _ => r is Ignore,
        },
{
    let query = match mode {
        InputMode::Search { query, .. } => query,
        _ => {
            return SearchKeyOutcome::Ignore;
        },
    };
    match key {
        Key::Named(NamedKey::Escape) => SearchKeyOutcome::Exit,
        Key::Named(NamedKey::Enter) => {
            if n_matches > 0 {
                SearchKeyOutcome::JumpTo(next_match_index(current, n_matches))
            } else {
                SearchKeyOutcome::Ignore
            }
        },
        Key::Named(NamedKey::Backspace) => SearchKeyOutcome::Requery(edit_text(query, key)),
        Key::Character(s) => {
            if is_single(s, '\x03') || is_single(s, 'c') {
                SearchKeyOutcome::CopyMatch
            } else {
                SearchKeyOutcome::Requery(edit_text(query, key))
            }
        },
        _ => SearchKeyOutcome::Ignore,
    }
}

/// The selection after Up or Down in a list of `len` entries.
pub open spec fn moved_selection(selected: int, len: int, up: bool) -> int {
    if len == 0 {
        0
    } else if up {
        if selected > 0 { selected - 1 } else { 0 }
    } else if selected + 1 < len - 1 {
        selected + 1
    } else {
        len - 1
    }
}

/// What a key does in the command palette with query `query` and
/// selection `selected`: the next mode and the palette entry to run.
/// Escape closes the palette; Up and Down move the selection within the
/// filtered entries; Enter closes it and runs the selected entry, if the
/// filter has one there; Backspace and text edit the query and reset the
/// selection; other keys change nothing.
pub open spec fn palette_step(query: Seq<char>, selected: int, key: Key) -> (Option<(Seq<char>, int)>, Option<usize>) {
    let f = filter_spec(str_lowercase(query), ENTRY_COUNT as int);
    match key {
        Key::Named(NamedKey::Escape) => (None, None),
        Key::Named(NamedKey::ArrowUp) => (Some((query, moved_selection(selected, f.len() as int, true))), None),
        Key::Named(NamedKey::ArrowDown) => (Some((query, moved_selection(selected, f.len() as int, false))), None),
        Key::Named(NamedKey::Enter) => (None, if 0 <= selected < f.len() { Some(f[selected]) } else { None }),
        Key::Named(NamedKey::Backspace) => (Some((edited(query, key), 0)), None),
        Key::Character(_) => (Some((edited(query, key), 0)), None),
        _ => (Some((query, selected)), None),
    }
}

/// The outcome of a key in the command palette.
pub struct PaletteOutcome {
    pub mode: InputMode,
    /// The palette entry whose action runs now.
    pub run: Option<usize>,
}

/// Handles a key in command-palette mode; other modes are left alone.
pub fn command_palette_key(mode: &InputMode, key: &Key) -> (r: PaletteOutcome)
    requires
        *mode matches InputMode::CommandPalette { selected, .. } ==> selected < usize::MAX,
    ensures
        !(*mode is CommandPalette) ==> r.mode == *mode && r.run is None,
        *mode matches InputMode::CommandPalette { query, selected } ==> ({
            let (m, run) = palette_step(query@, selected as int, *key);
            &&& r.run == run
            &&& match m {
                None => r.mode == InputMode::Insert,
                Some((q, s)) => r.mode matches InputMode::CommandPalette { query: q2, selected: s2 } && q2@ == q && s2 == s,
            }
        }),
{
    let (query, selected) = match mode {
        InputMode::CommandPalette { query, selected } => (query, *selected),
        _ => {
            return PaletteOutcome { mode: mode.clone_mode(), run: None };
        },
    };
    let filtered = filter(query.as_str());
    let n = filtered.len();
    match key {
        Key::Named(NamedKey::Escape) => PaletteOutcome { mode: InputMode::Insert, run: None },
        Key::Named(NamedKey::ArrowUp) => {
            let s = if n == 0 { 0 } else if selected > 0 { selected - 1 } else { 0 };
            PaletteOutcome { mode: InputMode::CommandPalette { query: query.clone(), selected: s }, run: None }
        },
        Key::Named(NamedKey::ArrowDown) => {
            let s = if n == 0 { 0 } else if selected + 1 < n - 1 { selected + 1 } else { n - 1 };
            PaletteOutcome { mode: InputMode::CommandPalette { query: query.clone(), selected: s }, run: None }
        },
        Key::Named(NamedKey::Enter) => {
            let run = if selected < n { Some(filtered[selected]) } else { None };
            PaletteOutcome { mode: InputMode::Insert, run }
        },
        Key::Named(NamedKey::Backspace) | Key::Character(_) => {
            let q = edit_text(query, key);
            PaletteOutcome { mode: InputMode::CommandPalette { query: q, selected: 0 }, run: None }
        },
        _ => PaletteOutcome { mode: InputMode::CommandPalette { query: query.clone(), selected }, run: None },
    }
}

/// The outcome of a key in the tab-rename field.
pub struct RenameOutcome {
    pub mode: InputMode,
    /// When set, the active tab's new name: `None` clears it.
    pub rename: Option<Option<String>>,
}

/// Handles a key in tab-rename mode; other modes are left alone.  Escape
/// cancels; Enter names the tab after the typed text without surrounding
/// whitespace (no name when nothing remains); Backspace and text edit it.
pub fn rename_key(mode: &InputMode, key: &Key) -> (r: RenameOutcome)
    ensures
        !(*mode is RenameTab) ==> r.mode == *mode && r.rename is None,
        *mode matches InputMode::RenameTab { buf } ==> match *key {
            Key::Named(NamedKey::Escape) => r.mode == InputMode::Insert && r.rename is None,
            Key::Named(NamedKey::Enter) => r.mode == InputMode::Insert && (r.rename matches Some(name) && (
                if trim_spec(buf@).len() == 0 { name is None } else { name matches Some(n) && n@ == trim_spec(buf@) })),
            Key::Named(NamedKey::Backspace) | Key::Character(_) => r.rename is None
                && (r.mode matches InputMode::RenameTab { buf: b2 } && b2@ == edited(buf@, *key)),
            _ => r.rename is None && (r.mode matches InputMode::RenameTab { buf: b2 } && b2@ == buf@),
        },
{
    let buf = match mode {
        InputMode::RenameTab { buf } => buf,
        _ => {
            return RenameOutcome { mode: mode.clone_mode(), rename: None };
        },
    };
    match key {
        Key::Named(NamedKey::Escape) => RenameOutcome { mode: InputMode::Insert, rename: None },
        Key::Named(NamedKey::Enter) => {
            let chars = string_chars(buf);
            let t = trim(chars.as_slice());
            let name = if t.len() == 0 { None } else { Some(chars_to_string(t.as_slice())) };
            RenameOutcome { mode: InputMode::Insert, rename: Some(name) }
        },
        Key::Named(NamedKey::Backspace) | Key::Character(_) => {
            let b = edit_text(buf, key);
            RenameOutcome { mode: InputMode::RenameTab { buf: b }, rename: None }
        },
        _ => RenameOutcome { mode: InputMode::RenameTab { buf: buf.clone() }, rename: None },
    }
}

pub open spec fn sat_sub(a: int, b: int) -> int {
    if a > b { a - b } else { 0 }
}

pub open spec fn min_int(a: int, b: int) -> int {
    if a < b { a } else { b }
}

/// The part of a `w` by `h` screen a screenshot region centred at
/// (`cx`, `cy`) covers: its top-left corner, and its size cut at the
/// screen's edges.
pub open spec fn crop_of(cx: int, cy: int, half_w: int, half_h: int, w: int, h: int) -> Seq<int> {
    let x = sat_sub(cx, half_w);
    let y = sat_sub(cy, half_h);
    seq![x, y, min_int(2 * half_w, sat_sub(w, x)), min_int(2 * half_h, sat_sub(h, y))]
}

/// The outcome of a key in the screenshot-name field.
pub struct ScreenshotNameOutcome {
    pub mode: InputMode,
    /// When set, the crop `(x, y, w, h)` to save and the file name.
    pub save: Option<([u32; 4], String)>,
}

/// Handles a key in screenshot-name mode on a `w` by `h` screen; other
/// modes are left alone.  Escape cancels; Enter saves the region under the
/// typed name without surrounding whitespace; Backspace and text edit the
/// name.
pub fn screenshot_name_key(mode: &InputMode, key: &Key, w: u32, h: u32) -> (r: ScreenshotNameOutcome)
    requires
        *mode matches InputMode::ScreenshotName { half_w, half_h, .. } ==> 2 * half_w <= u32::MAX && 2 * half_h <= u32::MAX,
    ensures
        !(*mode is ScreenshotName) ==> r.mode == *mode && r.save is None,
        *mode matches InputMode::ScreenshotName { cx, cy, half_w, half_h, name } ==> match *key {
            Key::Named(NamedKey::Escape) => r.mode == InputMode::Insert && r.save is None,
            Key::Named(NamedKey::Enter) => r.mode == InputMode::Insert && (r.save matches Some((crop, n))
                && crop@.map_values(|v: u32| v as int) == crop_of(cx as int, cy as int, half_w as int, half_h as int, w as int, h as int)
                && n@ == trim_spec(name@)),
            Key::Named(NamedKey::Backspace) | Key::Character(_) => r.save is None
                && (r.mode matches InputMode::ScreenshotName { cx: x2, cy: y2, half_w: w2, half_h: h2, name: n2 }
                && x2 == cx && y2 == cy && w2 == half_w && h2 == half_h && n2@ == edited(name@, *key)),
            _ => r.save is None && (r.mode matches InputMode::ScreenshotName { cx: x2, cy: y2, half_w: w2, half_h: h2, name: n2 }
                && x2 == cx && y2 == cy && w2 == half_w && h2 == half_h && n2@ == name@),
        },
{
    let (cx, cy, half_w, half_h, name) = match mode {
        InputMode::ScreenshotName { cx, cy, half_w, half_h, name } => (*cx, *cy, *half_w, *half_h, name),
        _ => {
            return ScreenshotNameOutcome { mode: mode.clone_mode(), save: None };
        },
    };
    match key {
        Key::Named(NamedKey::Escape) => ScreenshotNameOutcome { mode: InputMode::Insert, save: None },
        Key::Named(NamedKey::Enter) => {
            let x = cx.saturating_sub(half_w);
            let y = cy.saturating_sub(half_h);
            let fw = half_w * 2;
            let fh = half_h * 2;
            let rw = w.saturating_sub(x);
            let rh = h.saturating_sub(y);
            let sw = if fw < rw { fw } else { rw };
            let sh = if fh < rh { fh } else { rh };
            let chars = string_chars(name);
            let t = trim(chars.as_slice());
            let crop = [x, y, sw, sh];
            assert(crop@.map_values(|v: u32| v as int) =~= crop_of(cx as int, cy as int, half_w as int, half_h as int, w as int, h as int));
            ScreenshotNameOutcome { mode: InputMode::Insert, save: Some((crop, chars_to_string(t.as_slice()))) }
        },
        Key::Named(NamedKey::Backspace) | Key::Character(_) => {
            let n = edit_text(name, key);
            ScreenshotNameOutcome { mode: InputMode::ScreenshotName { cx, cy, half_w, half_h, name: n }, save: None }
        },
        _ => ScreenshotNameOutcome {
            mode: InputMode::ScreenshotName { cx, cy, half_w, half_h, name: name.clone() },
            save: None,
        },
    }
}

} // verus!
