//! Key-event dispatch: the keymap is consulted first; a miss falls through to
//! the per-mode handlers and the PTY byte encoders.
use vstd::prelude::*;

use crate::action::{Action, ActionView};
use crate::keymap::{
    action_from_name, mode_kind, registry_action, token_from_key, token_of_key, BindingKey,
    BindingView, DispatchCtx, InputModeKind, KeyMap, KeyToken, ModeClass, Mods, TokenView,
};
use crate::keys::{Key, NamedKey};
use crate::mode::{visual_mode_init, visual_origin, InputMode};
use crate::text::{eq_ignore_ascii_case, eq_ignore_ascii_case_spec, is_lit, owned, string_chars};

verus! {

/// A key press or release as the window reports it.
#[derive(Clone, Debug)]
pub struct KeyEvent {
    pub pressed: bool,
    pub logical_key: Key,
}

pub open spec fn send(b: Seq<u8>) -> ActionView {
    ActionView::Send(b)
}

pub open spec fn other(a: Action) -> ActionView {
    ActionView::Other(a)
}

/// The bytes a `str` encodes to, as a vector.
fn utf8_bytes(s: &String) -> (r: Vec<u8>)
    ensures
        r@ == vstd::utf8::encode_utf8(s@),
{
    let b = s.as_str().as_bytes();
    vstd::slice::slice_to_vec(b)
}

// ── Insert mode encoders ────────────────────────────────────────────────────

/// `u8::to_ascii_lowercase`.
pub open spec fn ascii_lower_byte(b: u8) -> u8 {
    if 65 <= b && b <= 90 { (b + 32) as u8 } else { b }
}

/// What Ctrl+key sends.
pub open spec fn ctrl_key_spec(k: Key) -> Option<ActionView> {
    match k {
        Key::Character(s) => if s@.len() > 0 {
            let raw = s@[0] as u32;
            let lower = ascii_lower_byte((raw % 256) as u8);
            if 1 <= raw && raw <= 26 {
                Some(send(seq![raw as u8]))
            } else if 97 <= lower && lower <= 122 {
                Some(send(seq![(lower - 96) as u8]))
            } else {
                None
            }
        } else {
            None
        },
        Key::Named(NamedKey::Enter) => Some(send(seq![10u8])),
        _ => None,
    }
}

fn encode_ctrl_key(key: &Key) -> (r: Option<Action>)
    ensures
        match ctrl_key_spec(*key) {
            Some(v) => r matches Some(a) && a@ == v,
            None => r is None,
        },
{
    match key {
        Key::Character(s) => {
            let cs = string_chars(s);
            if cs.len() > 0 {
                let c = cs[0];
                let raw: u32 = c as u32;
                if 1 <= raw && raw <= 26 {
                    let b: u8 = raw as u8;
                    let v = vec![b];
                    proof {
                        assert(v@ =~= seq![raw as u8]);
                    }
                    return Some(Action::SendToPty(v));
                }
                let low: u8 = (raw % 256) as u8;
                let lower: u8 = if 65 <= low && low <= 90 { low + 32 } else { low };
                if 97 <= lower && lower <= 122 {
                    let v = vec![lower - 96];
                    proof {
                        assert(v@ =~= seq![(lower - 96) as u8]);
                    }
                    return Some(Action::SendToPty(v));
                }
            }
            None
        },
        Key::Named(NamedKey::Enter) => Some({
            let v = vec![10u8];
            proof {
                assert(v@ =~= seq![10u8]);
            }
            Action::SendToPty(v)
        }),
        _ => None,
    }
}

/// The bytes of a key that Alt prefixes with ESC.
pub open spec fn alt_body(k: Key) -> Option<Seq<u8>> {
    match k {
        Key::Named(NamedKey::Tab) => Some(seq![9u8]),
        Key::Named(NamedKey::Enter) => Some(seq![13u8]),
        Key::Named(NamedKey::Backspace) => Some(seq![127u8]),
        Key::Character(s) => Some(vstd::utf8::encode_utf8(s@)),
        _ => None,
    }
}

/// What Alt+key sends: ESC followed by the key's own bytes.
pub open spec fn alt_key_spec(k: Key) -> Option<ActionView> {
    match alt_body(k) {
        Some(b) => Some(send(seq![27u8] + b)),
        None => None,
    }
}

fn encode_alt_key(key: &Key) -> (r: Option<Action>)
    ensures
        match alt_key_spec(*key) {
            Some(v) => r matches Some(a) && a@ == v,
            None => r is None,
        },
{
    let mut bytes: Vec<u8> = match key {
        Key::Named(NamedKey::Tab) => {
            let v = vec![9u8];
            proof {
                assert(v@ =~= seq![9u8]);
            }
            v
        },
        Key::Named(NamedKey::Enter) => {
            let v = vec![13u8];
            proof {
                assert(v@ =~= seq![13u8]);
            }
            v
        },
        Key::Named(NamedKey::Backspace) => {
            let v = vec![127u8];
            proof {
                assert(v@ =~= seq![127u8]);
            }
            v
        },
        Key::Character(s) => utf8_bytes(s),
        _ => {
            return None;
        },
    };
    let ghost before = bytes@;
    assert(alt_body(*key) == Some(before));
    bytes.insert(0, 27u8);
    proof {
        assert(bytes@ =~= seq![27u8] + before);
    }
    Some(Action::SendToPty(bytes))
}

/// Picks the application-mode or the normal-mode sequence.
pub fn pick_seq(app: bool, app_seq: &'static [u8], vt_seq: &'static [u8]) -> (r: &'static [u8])
    ensures
        r == (if app { app_seq } else { vt_seq }),
{
    if app {
        app_seq
    } else {
        vt_seq
    }
}

/// The sequence a cursor key sends, in application or normal cursor mode.
pub open spec fn cursor_seq_spec(k: Key, app: bool) -> Option<Seq<u8>> {
    match k {
        Key::Named(NamedKey::ArrowUp) => Some(if app { seq![27u8, 79u8, 65u8] } else { seq![27u8, 91u8, 65u8] }),
        Key::Named(NamedKey::ArrowDown) => Some(if app { seq![27u8, 79u8, 66u8] } else { seq![27u8, 91u8, 66u8] }),
        Key::Named(NamedKey::ArrowRight) => Some(if app { seq![27u8, 79u8, 67u8] } else { seq![27u8, 91u8, 67u8] }),
        Key::Named(NamedKey::ArrowLeft) => Some(if app { seq![27u8, 79u8, 68u8] } else { seq![27u8, 91u8, 68u8] }),
        Key::Named(NamedKey::Home) => Some(if app { seq![27u8, 79u8, 72u8] } else { seq![27u8, 91u8, 49u8, 126u8] }),
        Key::Named(NamedKey::End) => Some(if app { seq![27u8, 79u8, 70u8] } else { seq![27u8, 91u8, 52u8, 126u8] }),
        _ => None,
    }
}

/// The bytes a cursor key sends, or `None` for other keys.
pub fn cursor_seq(key: &Key, app: bool) -> (r: Option<Vec<u8>>)
    ensures
        match cursor_seq_spec(*key, app) {
            Some(b) => r matches Some(v) && v@ == b,
            None => r is None,
        },
{
    match key {
        Key::Named(NamedKey::ArrowUp) => Some(if app { {
                let v = vec![27u8, 79u8, 65u8];
                proof {
                    assert(v@ =~= seq![27u8, 79u8, 65u8]);
                }
                v
            } } else { {
                let v = vec![27u8, 91u8, 65u8];
                proof {
                    assert(v@ =~= seq![27u8, 91u8, 65u8]);
                }
                v
            } }),
        Key::Named(NamedKey::ArrowDown) => Some(if app { {
                let v = vec![27u8, 79u8, 66u8];
                proof {
                    assert(v@ =~= seq![27u8, 79u8, 66u8]);
                }
                v
            } } else { {
                let v = vec![27u8, 91u8, 66u8];
                proof {
                    assert(v@ =~= seq![27u8, 91u8, 66u8]);
                }
                v
            } }),
        Key::Named(NamedKey::ArrowRight) => Some(if app { {
                let v = vec![27u8, 79u8, 67u8];
                proof {
                    assert(v@ =~= seq![27u8, 79u8, 67u8]);
                }
                v
            } } else { {
                let v = vec![27u8, 91u8, 67u8];
                proof {
                    assert(v@ =~= seq![27u8, 91u8, 67u8]);
                }
                v
            } }),
        Key::Named(NamedKey::ArrowLeft) => Some(if app { {
                let v = vec![27u8, 79u8, 68u8];
                proof {
                    assert(v@ =~= seq![27u8, 79u8, 68u8]);
                }
                v
            } } else { {
                let v = vec![27u8, 91u8, 68u8];
                proof {
                    assert(v@ =~= seq![27u8, 91u8, 68u8]);
                }
                v
            } }),
        Key::Named(NamedKey::Home) => Some(if app { {
                let v = vec![27u8, 79u8, 72u8];
                proof {
                    assert(v@ =~= seq![27u8, 79u8, 72u8]);
                }
                v
            } } else { {
                let v = vec![27u8, 91u8, 49u8, 126u8];
                proof {
                    assert(v@ =~= seq![27u8, 91u8, 49u8, 126u8]);
                }
                v
            } }),
        Key::Named(NamedKey::End) => Some(if app { {
                let v = vec![27u8, 79u8, 70u8];
                proof {
                    assert(v@ =~= seq![27u8, 79u8, 70u8]);
                }
                v
            } } else { {
                let v = vec![27u8, 91u8, 52u8, 126u8];
                proof {
                    assert(v@ =~= seq![27u8, 91u8, 52u8, 126u8]);
                }
                v
            } }),
        _ => None,
    }
}

/// What a key sends with no modifier handling.
pub open spec fn plain_key_spec(k: Key, shift: bool) -> ActionView {
    match k {
        Key::Named(NamedKey::Escape) => send(seq![27u8]),
        Key::Named(NamedKey::Space) => send(seq![32u8]),
        Key::Named(NamedKey::Enter) => send(seq![13u8]),
        Key::Named(NamedKey::Backspace) => send(seq![127u8]),
        Key::Named(NamedKey::Tab) => if shift { send(seq![27u8, 91u8, 90u8]) } else { send(seq![9u8]) },
        Key::Named(NamedKey::PageUp) => send(seq![27u8, 91u8, 53u8, 126u8]),
        Key::Named(NamedKey::PageDown) => send(seq![27u8, 91u8, 54u8, 126u8]),
        Key::Named(NamedKey::Delete) => send(seq![27u8, 91u8, 51u8, 126u8]),
        Key::Named(NamedKey::F1) => send(seq![27u8, 79u8, 80u8]),
        Key::Named(NamedKey::F2) => send(seq![27u8, 79u8, 81u8]),
        Key::Named(NamedKey::F3) => send(seq![27u8, 79u8, 82u8]),
        Key::Named(NamedKey::F4) => send(seq![27u8, 79u8, 83u8]),
        Key::Named(NamedKey::F5) => send(seq![27u8, 91u8, 49u8, 53u8, 126u8]),
        Key::Named(NamedKey::F6) => send(seq![27u8, 91u8, 49u8, 55u8, 126u8]),
        Key::Named(NamedKey::F7) => send(seq![27u8, 91u8, 49u8, 56u8, 126u8]),
        Key::Named(NamedKey::F8) => send(seq![27u8, 91u8, 49u8, 57u8, 126u8]),
        Key::Named(NamedKey::F9) => send(seq![27u8, 91u8, 50u8, 48u8, 126u8]),
        Key::Named(NamedKey::F10) => send(seq![27u8, 91u8, 50u8, 49u8, 126u8]),
        Key::Named(NamedKey::F11) => send(seq![27u8, 91u8, 50u8, 51u8, 126u8]),
        Key::Named(NamedKey::F12) => send(seq![27u8, 91u8, 50u8, 52u8, 126u8]),
        Key::Character(s) => send(vstd::utf8::encode_utf8(s@)),
        _ => other(Action::Nothing),
    }
}

fn plain_key(key: &Key, shift: bool) -> (r: Action)
    ensures
        r@ == plain_key_spec(*key, shift),
{
    match key {
        Key::Named(NamedKey::Escape) => {
            let v = vec![27u8];
            proof {
                assert(v@ =~= seq![27u8]);
            }
            Action::SendToPty(v)
        },
        Key::Named(NamedKey::Space) => {
            let v = vec![32u8];
            proof {
                assert(v@ =~= seq![32u8]);
            }
            Action::SendToPty(v)
        },
        Key::Named(NamedKey::Enter) => {
            let v = vec![13u8];
            proof {
                assert(v@ =~= seq![13u8]);
            }
            Action::SendToPty(v)
        },
        Key::Named(NamedKey::Backspace) => {
            let v = vec![127u8];
            proof {
                assert(v@ =~= seq![127u8]);
            }
            Action::SendToPty(v)
        },
        Key::Named(NamedKey::Tab) => if shift { {
            let v = vec![27u8, 91u8, 90u8];
            proof {
                assert(v@ =~= seq![27u8, 91u8, 90u8]);
            }
            Action::SendToPty(v)
        } } else { {
            let v = vec![9u8];
            proof {
                assert(v@ =~= seq![9u8]);
            }
            Action::SendToPty(v)
        } },
        Key::Named(NamedKey::PageUp) => {
            let v = vec![27u8, 91u8, 53u8, 126u8];
            proof {
                assert(v@ =~= seq![27u8, 91u8, 53u8, 126u8]);
            }
            Action::SendToPty(v)
        },
        Key::Named(NamedKey::PageDown) => {
            let v = vec![27u8, 91u8, 54u8, 126u8];
            proof {
                assert(v@ =~= seq![27u8, 91u8, 54u8, 126u8]);
            }
            Action::SendToPty(v)
        },
        Key::Named(NamedKey::Delete) => {
            let v = vec![27u8, 91u8, 51u8, 126u8];
            proof {
                assert(v@ =~= seq![27u8, 91u8, 51u8, 126u8]);
            }
            Action::SendToPty(v)
        },
        Key::Named(NamedKey::F1) => {
            let v = vec![27u8, 79u8, 80u8];
            proof {
                assert(v@ =~= seq![27u8, 79u8, 80u8]);
            }
            Action::SendToPty(v)
        },
        Key::Named(NamedKey::F2) => {
            let v = vec![27u8, 79u8, 81u8];
            proof {
                assert(v@ =~= seq![27u8, 79u8, 81u8]);
            }
            Action::SendToPty(v)
        },
        Key::Named(NamedKey::F3) => {
            let v = vec![27u8, 79u8, 82u8];
            proof {
                assert(v@ =~= seq![27u8, 79u8, 82u8]);
            }
            Action::SendToPty(v)
        },
        Key::Named(NamedKey::F4) => {
            let v = vec![27u8, 79u8, 83u8];
            proof {
                assert(v@ =~= seq![27u8, 79u8, 83u8]);
            }
            Action::SendToPty(v)
        },
        Key::Named(NamedKey::F5) => {
            let v = vec![27u8, 91u8, 49u8, 53u8, 126u8];
            proof {
                assert(v@ =~= seq![27u8, 91u8, 49u8, 53u8, 126u8]);
            }
            Action::SendToPty(v)
        },
        Key::Named(NamedKey::F6) => {
            let v = vec![27u8, 91u8, 49u8, 55u8, 126u8];
            proof {
                assert(v@ =~= seq![27u8, 91u8, 49u8, 55u8, 126u8]);
            }
            Action::SendToPty(v)
        },
        Key::Named(NamedKey::F7) => {
            let v = vec![27u8, 91u8, 49u8, 56u8, 126u8];
            proof {
                assert(v@ =~= seq![27u8, 91u8, 49u8, 56u8, 126u8]);
            }
            Action::SendToPty(v)
        },
        Key::Named(NamedKey::F8) => {
            let v = vec![27u8, 91u8, 49u8, 57u8, 126u8];
            proof {
                assert(v@ =~= seq![27u8, 91u8, 49u8, 57u8, 126u8]);
            }
            Action::SendToPty(v)
        },
        Key::Named(NamedKey::F9) => {
            let v = vec![27u8, 91u8, 50u8, 48u8, 126u8];
            proof {
                assert(v@ =~= seq![27u8, 91u8, 50u8, 48u8, 126u8]);
            }
            Action::SendToPty(v)
        },
        Key::Named(NamedKey::F10) => {
            let v = vec![27u8, 91u8, 50u8, 49u8, 126u8];
            proof {
                assert(v@ =~= seq![27u8, 91u8, 50u8, 49u8, 126u8]);
            }
            Action::SendToPty(v)
        },
        Key::Named(NamedKey::F11) => {
            let v = vec![27u8, 91u8, 50u8, 51u8, 126u8];
            proof {
                assert(v@ =~= seq![27u8, 91u8, 50u8, 51u8, 126u8]);
            }
            Action::SendToPty(v)
        },
        Key::Named(NamedKey::F12) => {
            let v = vec![27u8, 91u8, 50u8, 52u8, 126u8];
            proof {
                assert(v@ =~= seq![27u8, 91u8, 50u8, 52u8, 126u8]);
            }
            Action::SendToPty(v)
        },
        Key::Character(s) => Action::SendToPty(utf8_bytes(s)),
        _ => Action::Nothing,
    }
}

/// What a key sends in Insert mode (and in passthrough).
pub open spec fn insert_spec(k: Key, ctrl: bool, shift: bool, alt: bool, app: bool) -> ActionView {
    if ctrl && ctrl_key_spec(k) is Some {
        ctrl_key_spec(k)->0
    } else if alt && !ctrl && alt_key_spec(k) is Some {
        alt_key_spec(k)->0
    } else if cursor_seq_spec(k, app) is Some {
        send(cursor_seq_spec(k, app)->0)
    } else {
        plain_key_spec(k, shift)
    }
}

fn handle_insert(key: &Key, ctrl: bool, shift: bool, alt: bool, application_cursor_keys: bool) -> (r: Action)
    ensures
        r@ == insert_spec(*key, ctrl, shift, alt, application_cursor_keys),
{
    if ctrl {
        if let Some(action) = encode_ctrl_key(key) {
            return action;
        }
    }
    if alt && !ctrl {
        if let Some(action) = encode_alt_key(key) {
            return action;
        }
    }
    if let Some(seq) = cursor_seq(key, application_cursor_keys) {
        return Action::SendToPty(seq);
    }
    plain_key(key, shift)
}

// ── Normal mode ─────────────────────────────────────────────────────────────

/// What a key does in Normal mode.
pub open spec fn normal_spec(k: Key, grid_rows: usize) -> Action {
    match k {
        Key::Named(NamedKey::Escape) => Action::SetMode(InputMode::Insert),
        Key::Named(NamedKey::PageUp) => Action::ScrollUp(grid_rows),
        Key::Named(NamedKey::PageDown) => Action::ScrollDown(grid_rows),
        Key::Character(s) => if s@ == "i"@ {
            Action::SetMode(InputMode::Insert)
        } else if s@ == "v"@ {
            Action::SetMode(visual_origin())
        } else if s@ == "q"@ {
            Action::ClosePane
        } else if s@ == "/"@ {
            Action::SearchOpen
        } else if s@ == "n"@ {
            Action::SearchNext
        } else if s@ == "N"@ {
            Action::SearchPrev
        } else if s@ == "j"@ {
            Action::ScrollDown(3)
        } else if s@ == "k"@ {
            Action::ScrollUp(3)
        } else {
            Action::Nothing
        },
        _ => Action::Nothing,
    }
}

fn handle_normal(key: &Key, grid_rows: usize) -> (r: Action)
    ensures
        r == normal_spec(*key, grid_rows),
{
    match key {
        Key::Named(NamedKey::Escape) => Action::SetMode(InputMode::Insert),
        Key::Named(NamedKey::PageUp) => Action::ScrollUp(grid_rows),
        Key::Named(NamedKey::PageDown) => Action::ScrollDown(grid_rows),
        Key::Character(s) => {
            let c = string_chars(s);
            let c = c.as_slice();
            if is_lit(c, "i") {
                Action::SetMode(InputMode::Insert)
            } else if is_lit(c, "v") {
                Action::SetMode(visual_mode_init())
            } else if is_lit(c, "q") {
                Action::ClosePane
            } else if is_lit(c, "/") {
                Action::SearchOpen
            } else if is_lit(c, "n") {
                Action::SearchNext
            } else if is_lit(c, "N") {
                Action::SearchPrev
            } else if is_lit(c, "j") {
                Action::ScrollDown(3)
            } else if is_lit(c, "k") {
                Action::ScrollUp(3)
            } else {
                Action::Nothing
            }
        },
        _ => Action::Nothing,
    }
}


// ── Visual mode ─────────────────────────────────────────────────────────────

/// The smaller of two indices.
pub open spec fn min_usize(a: usize, b: usize) -> usize {
    if a <= b { a } else { b }
}

/// `usize::saturating_sub`.
pub open spec fn sat_sub(a: usize, b: usize) -> usize {
    if a >= b { (a - b) as usize } else { 0 }
}

fn min_of(a: usize, b: usize) -> (r: usize)
    ensures
        r == min_usize(a, b),
{
    if a <= b {
        a
    } else {
        b
    }
}

fn sub_sat(a: usize, b: usize) -> (r: usize)
    ensures
        r == sat_sub(a, b),
{
    if a >= b {
        a - b
    } else {
        0
    }
}

/// Visual mode with the cursor moved to (nc, nr), clamped to (cols, rows).
pub open spec fn visual_move(
    start_col: usize,
    start_row: usize,
    anchored: bool,
    cols: usize,
    rows: usize,
    nc: usize,
    nr: usize,
) -> Action {
    Action::SetMode(
        InputMode::Visual {
            start_col,
            start_row,
            cur_col: min_usize(nc, cols),
            cur_row: min_usize(nr, rows),
            anchored,
        },
    )
}

/// `k` in Visual mode: one row up, or a boundary scroll at the top row.
pub fn visual_up_action<F: Fn(usize, usize) -> Action>(cur_col: usize, cur_row: usize, move_to: &F) -> (r: Action)
    requires
        cur_row > 0 ==> move_to.requires((cur_col, (cur_row - 1) as usize)),
    ensures
        cur_row == 0 ==> r == Action::VisualBoundaryUp(1),
        cur_row > 0 ==> move_to.ensures((cur_col, (cur_row - 1) as usize), r),
{
    if cur_row == 0 {
        Action::VisualBoundaryUp(1)
    } else {
        move_to(cur_col, cur_row - 1)
    }
}

/// `j` in Visual mode: one row down, or a boundary scroll at the last row.
pub fn visual_down_action<F: Fn(usize, usize) -> Action>(
    cur_col: usize,
    cur_row: usize,
    rows: usize,
    move_to: &F,
) -> (r: Action)
    requires
        cur_row != rows ==> cur_row < usize::MAX && move_to.requires((cur_col, (cur_row + 1) as usize)),
    ensures
        cur_row == rows ==> r == Action::VisualBoundaryDown(1),
        cur_row != rows ==> move_to.ensures((cur_col, (cur_row + 1) as usize), r),
{
    if cur_row == rows {
        Action::VisualBoundaryDown(1)
    } else {
        move_to(cur_col, cur_row + 1)
    }
}

/// The cell a Visual-mode character key moves the cursor to, if it moves it.
pub open spec fn visual_char_target(
    s: Seq<char>,
    cur_col: usize,
    cur_row: usize,
    cols: usize,
    rows: usize,
) -> Option<(usize, usize)> {
    if s == "h"@ {
        Some((sat_sub(cur_col, 1), cur_row))
    } else if s == "l"@ {
        Some((min_usize((cur_col + 1) as usize, cols), cur_row))
    } else if s == "k"@ {
        if cur_row == 0 { None } else { Some((cur_col, (cur_row - 1) as usize)) }
    } else if s == "j"@ {
        if cur_row == rows { None } else { Some((cur_col, (cur_row + 1) as usize)) }
    } else if s == "0"@ {
        Some((0, cur_row))
    } else if s == "$"@ {
        Some((cols, cur_row))
    } else if s == "g"@ {
        Some((cur_col, 0))
    } else if s == "G"@ {
        Some((cur_col, rows))
    } else {
        None
    }
}

/// The action of a Visual-mode character key that does not move the cursor.
pub open spec fn visual_char_fixed(s: Seq<char>) -> Action {
    if s == "k"@ {
        Action::VisualBoundaryUp(1)
    } else if s == "j"@ {
        Action::VisualBoundaryDown(1)
    } else if s == "w"@ {
        Action::VisualWordForward
    } else if s == "b"@ {
        Action::VisualWordBackward
    } else if s == "e"@ {
        Action::VisualWordEnd
    } else if s == "y"@ {
        Action::Copy
    } else if s == "Y"@ {
        Action::VisualYankLine
    } else if s == "o"@ {
        Action::VisualSwapAnchor
    } else if s == "v"@ {
        Action::VisualAnchor
    } else if s == "q"@ {
        Action::SetMode(InputMode::Insert)
    } else {
        Action::Nothing
    }
}

/// A character key in Visual mode.
pub fn visual_char_action<F: Fn(usize, usize) -> Action>(
    s: &str,
    cur_col: usize,
    cur_row: usize,
    cols: usize,
    rows: usize,
    move_to: &F,
) -> (r: Action)
    requires
        cur_col < usize::MAX,
        cur_row < usize::MAX,
        forall|c: usize, w: usize| move_to.requires((c, w)),
    ensures
        match visual_char_target(s@, cur_col, cur_row, cols, rows) {
            Some((c, w)) => move_to.ensures((c, w), r),
            None => r == visual_char_fixed(s@),
        },
{
    let c = crate::text::str_chars(s);
    let c = c.as_slice();
    if is_lit(c, "h") {
        move_to(sub_sat(cur_col, 1), cur_row)
    } else if is_lit(c, "l") {
        move_to(min_of(cur_col + 1, cols), cur_row)
    } else if is_lit(c, "k") {
        visual_up_action(cur_col, cur_row, move_to)
    } else if is_lit(c, "j") {
        visual_down_action(cur_col, cur_row, rows, move_to)
    } else if is_lit(c, "0") {
        move_to(0, cur_row)
    } else if is_lit(c, "$") {
        move_to(cols, cur_row)
    } else if is_lit(c, "g") {
        move_to(cur_col, 0)
    } else if is_lit(c, "G") {
        move_to(cur_col, rows)
    } else if is_lit(c, "w") {
        Action::VisualWordForward
    } else if is_lit(c, "b") {
        Action::VisualWordBackward
    } else if is_lit(c, "e") {
        Action::VisualWordEnd
    } else if is_lit(c, "y") {
        Action::Copy
    } else if is_lit(c, "Y") {
        Action::VisualYankLine
    } else if is_lit(c, "o") {
        Action::VisualSwapAnchor
    } else if is_lit(c, "v") {
        Action::VisualAnchor
    } else if is_lit(c, "q") {
        Action::SetMode(InputMode::Insert)
    } else {
        Action::Nothing
    }
}

/// What a key does in Visual mode; `cols0`/`rows0` are the grid size.
pub open spec fn visual_spec(
    k: Key,
    start_col: usize,
    start_row: usize,
    cur_col: usize,
    cur_row: usize,
    anchored: bool,
    cols0: usize,
    rows0: usize,
) -> Action {
    let rows = sat_sub(rows0, 1);
    let cols = sat_sub(cols0, 1);
    match k {
        Key::Named(NamedKey::Escape) => Action::SetMode(InputMode::Insert),
        Key::Named(NamedKey::ArrowLeft) => visual_move(start_col, start_row, anchored, cols, rows, sat_sub(cur_col, 1), cur_row),
        Key::Named(NamedKey::ArrowRight) => visual_move(start_col, start_row, anchored, cols, rows, min_usize((cur_col + 1) as usize, cols), cur_row),
        Key::Named(NamedKey::ArrowUp) => if cur_row == 0 {
            Action::VisualBoundaryUp(1)
        } else {
            visual_move(start_col, start_row, anchored, cols, rows, cur_col, (cur_row - 1) as usize)
        },
        Key::Named(NamedKey::ArrowDown) => if cur_row == rows {
            Action::VisualBoundaryDown(1)
        } else {
            visual_move(start_col, start_row, anchored, cols, rows, cur_col, (cur_row + 1) as usize)
        },
        Key::Named(NamedKey::Home) => visual_move(start_col, start_row, anchored, cols, rows, 0, cur_row),
        Key::Named(NamedKey::End) => visual_move(start_col, start_row, anchored, cols, rows, cols, cur_row),
        Key::Named(NamedKey::PageUp) => Action::VisualBoundaryUp((rows + 1) as usize),
        Key::Named(NamedKey::PageDown) => Action::VisualBoundaryDown((rows + 1) as usize),
        Key::Character(s) => match visual_char_target(s@, cur_col, cur_row, cols, rows) {
            Some((c, w)) => visual_move(start_col, start_row, anchored, cols, rows, c, w),
            None => visual_char_fixed(s@),
        },
        _ => Action::Nothing,
    }
}

fn handle_visual(
    key: &Key,
    start_col: usize,
    start_row: usize,
    cur_col: usize,
    cur_row: usize,
    anchored: bool,
    cols: usize,
    rows: usize,
) -> (r: Action)
    requires
        cur_col < usize::MAX,
        cur_row < usize::MAX,
    ensures
        r == visual_spec(*key, start_col, start_row, cur_col, cur_row, anchored, cols, rows),
{
    let rows = sub_sat(rows, 1);
    let cols = sub_sat(cols, 1);
    let move_to = |nc: usize, nr: usize| -> (a: Action)
        ensures
            a == visual_move(start_col, start_row, anchored, cols, rows, nc, nr),
        {
            Action::SetMode(
                InputMode::Visual {
                    start_col,
                    start_row,
                    cur_col: min_of(nc, cols),
                    cur_row: min_of(nr, rows),
                    anchored,
                },
            )
        };
    match key {
        Key::Named(NamedKey::Escape) => Action::SetMode(InputMode::Insert),
        Key::Named(NamedKey::ArrowLeft) => move_to(sub_sat(cur_col, 1), cur_row),
        Key::Named(NamedKey::ArrowRight) => move_to(min_of(cur_col + 1, cols), cur_row),
        Key::Named(NamedKey::ArrowUp) => visual_up_action(cur_col, cur_row, &move_to),
        Key::Named(NamedKey::ArrowDown) => visual_down_action(cur_col, cur_row, rows, &move_to),
        Key::Named(NamedKey::Home) => move_to(0, cur_row),
        Key::Named(NamedKey::End) => move_to(cols, cur_row),
        Key::Named(NamedKey::PageUp) => Action::VisualBoundaryUp(rows + 1),
        Key::Named(NamedKey::PageDown) => Action::VisualBoundaryDown(rows + 1),
        Key::Character(s) => visual_char_action(s.as_str(), cur_col, cur_row, cols, rows, &move_to),
        _ => Action::Nothing,
    }
}

// ── Quit confirmation and screenshot selection ──────────────────────────────

/// What a key does while the save-session question is open.
pub open spec fn quit_save_spec(k: Key) -> Action {
    match k {
        Key::Character(s) => if eq_ignore_ascii_case_spec(s@, "s"@) {
            Action::QuitSaveSession
        } else if eq_ignore_ascii_case_spec(s@, "q"@) || eq_ignore_ascii_case_spec(s@, "n"@)
            || eq_ignore_ascii_case_spec(s@, "y"@) {
            Action::QuitNoSave
        } else {
            Action::Nothing
        },
        Key::Named(NamedKey::Enter) => Action::QuitNoSave,
        Key::Named(NamedKey::Escape) => Action::SetMode(InputMode::Insert),
        _ => Action::Nothing,
    }
}

fn handle_quit_save(key: &Key) -> (r: Action)
    ensures
        r == quit_save_spec(*key),
{
    match key {
        Key::Character(s) => {
            let c = string_chars(s);
            if eq_ignore_ascii_case(c.as_slice(), "s") {
                Action::QuitSaveSession
            } else if eq_ignore_ascii_case(c.as_slice(), "q") || eq_ignore_ascii_case(
                c.as_slice(),
                "n",
            ) || eq_ignore_ascii_case(c.as_slice(), "y") {
                Action::QuitNoSave
            } else {
                Action::Nothing
            }
        },
        Key::Named(NamedKey::Enter) => Action::QuitNoSave,
        Key::Named(NamedKey::Escape) => Action::SetMode(InputMode::Insert),
        _ => Action::Nothing,
    }
}

/// Pixels an arrow key moves the screenshot selection.
pub const SCREENSHOT_MOVE_STEP: i32 = 20;

/// What a key does while a screenshot region is being selected.
pub open spec fn screenshot_spec(k: Key, shift: bool) -> Action {
    if shift {
        match k {
            Key::Named(NamedKey::ArrowRight) => Action::ScreenshotEdgeResize(1, 0),
            Key::Named(NamedKey::ArrowLeft) => Action::ScreenshotEdgeResize(-1i32, 0),
            Key::Named(NamedKey::ArrowDown) => Action::ScreenshotEdgeResize(0, 1),
            Key::Named(NamedKey::ArrowUp) => Action::ScreenshotEdgeResize(0, -1i32),
            _ => Action::Nothing,
        }
    } else {
        match k {
            Key::Named(NamedKey::ArrowRight) => Action::ScreenshotMove(SCREENSHOT_MOVE_STEP, 0),
            Key::Named(NamedKey::ArrowLeft) => Action::ScreenshotMove((-SCREENSHOT_MOVE_STEP) as i32, 0),
            Key::Named(NamedKey::ArrowDown) => Action::ScreenshotMove(0, SCREENSHOT_MOVE_STEP),
            Key::Named(NamedKey::ArrowUp) => Action::ScreenshotMove(0, (-SCREENSHOT_MOVE_STEP) as i32),
            Key::Named(NamedKey::Enter) => Action::ScreenshotCapture,
            Key::Named(NamedKey::Space) => Action::ScreenshotCapture,
            Key::Named(NamedKey::Escape) => Action::SetMode(InputMode::Insert),
            _ => Action::Nothing,
        }
    }
}

fn handle_screenshot(key: &Key, shift: bool) -> (r: Action)
    ensures
        r == screenshot_spec(*key, shift),
{
    if shift {
        return match key {
            Key::Named(NamedKey::ArrowRight) => Action::ScreenshotEdgeResize(1, 0),
            Key::Named(NamedKey::ArrowLeft) => Action::ScreenshotEdgeResize(-1, 0),
            Key::Named(NamedKey::ArrowDown) => Action::ScreenshotEdgeResize(0, 1),
            Key::Named(NamedKey::ArrowUp) => Action::ScreenshotEdgeResize(0, -1),
            _ => Action::Nothing,
        };
    }
    match key {
        Key::Named(NamedKey::ArrowRight) => Action::ScreenshotMove(SCREENSHOT_MOVE_STEP, 0),
        Key::Named(NamedKey::ArrowLeft) => Action::ScreenshotMove(-SCREENSHOT_MOVE_STEP, 0),
        Key::Named(NamedKey::ArrowDown) => Action::ScreenshotMove(0, SCREENSHOT_MOVE_STEP),
        Key::Named(NamedKey::ArrowUp) => Action::ScreenshotMove(0, -SCREENSHOT_MOVE_STEP),
        Key::Named(NamedKey::Enter) | Key::Named(NamedKey::Space) => Action::ScreenshotCapture,
        Key::Named(NamedKey::Escape) => Action::SetMode(InputMode::Insert),
        _ => Action::Nothing,
    }
}

// ── Mode dispatch ───────────────────────────────────────────────────────────

/// A Visual-mode cursor can step one cell right and down without overflow.
pub open spec fn visual_cursor_in_range(mode: InputMode) -> bool {
    mode matches InputMode::Visual { cur_col, cur_row, .. } ==> cur_col < usize::MAX && cur_row
        < usize::MAX
}

/// What a key does once the keymap has not claimed it.
pub open spec fn inner_spec(
    k: Key,
    ctrl: bool,
    shift: bool,
    alt: bool,
    mode: InputMode,
    cols: usize,
    rows: usize,
    app: bool,
) -> ActionView {
    if alt && !ctrl && k matches Key::Named(NamedKey::Tab) {
        other(Action::Nothing)
    } else if ctrl && !shift && !alt && mode is Visual && (k matches Key::Character(s)
        && eq_ignore_ascii_case_spec(s@, "c"@)) {
        other(Action::Copy)
    } else {
        match mode {
            InputMode::Insert => insert_spec(k, ctrl, shift, alt, app),
            InputMode::Normal => other(normal_spec(k, rows)),
            InputMode::Visual { start_col, start_row, cur_col, cur_row, anchored } => other(
                visual_spec(k, start_col, start_row, cur_col, cur_row, anchored, cols, rows),
            ),
            InputMode::QuitSave => other(quit_save_spec(k)),
            InputMode::Screenshot { .. } => other(screenshot_spec(k, shift)),
            _ => other(Action::Nothing),
        }
    }
}

pub fn handle_key_inner(
    key: &Key,
    ctrl: bool,
    shift: bool,
    alt: bool,
    mode: &InputMode,
    grid_cols: usize,
    grid_rows: usize,
    application_cursor_keys: bool,
) -> (r: Action)
    requires
        visual_cursor_in_range(*mode),
    ensures
        r@ == inner_spec(*key, ctrl, shift, alt, *mode, grid_cols, grid_rows, application_cursor_keys),
{
    // Alt+Tab is swallowed (never leaks ESC-Tab to the PTY).
    if alt && !ctrl {
        if let Key::Named(NamedKey::Tab) = key {
            return Action::Nothing;
        }
    }
    // Ctrl+C copies the selection while in Visual mode (else falls through to
    // raw 0x03 in Insert).
    if ctrl && !shift && !alt {
        if let InputMode::Visual { .. } = mode {
            if let Key::Character(s) = key {
                let c = string_chars(s);
                if eq_ignore_ascii_case(c.as_slice(), "c") {
                    return Action::Copy;
                }
            }
        }
    }
    match mode {
        InputMode::Insert => handle_insert(key, ctrl, shift, alt, application_cursor_keys),
        InputMode::Normal => handle_normal(key, grid_rows),
        InputMode::Visual { start_col, start_row, cur_col, cur_row, anchored } => handle_visual(
            key,
            *start_col,
            *start_row,
            *cur_col,
            *cur_row,
            *anchored,
            grid_cols,
            grid_rows,
        ),
        InputMode::RenameTab { .. } => Action::Nothing,
        InputMode::Search { .. } => Action::Nothing,
        InputMode::CommandPalette { .. } => Action::Nothing,
        InputMode::ScreenshotName { .. } => Action::Nothing,
        InputMode::QuitSave => handle_quit_save(key),
        InputMode::Screenshot { .. } => handle_screenshot(key, shift),
    }
}

/// The primary (chord-less) binding a key press looks up.
pub open spec fn primary_binding(mods: Mods, t: TokenView) -> (ModeClass, BindingView) {
    (ModeClass::Global, BindingView { mods, token: t, chord_tail: None })
}

/// The action a key with these modifiers resolves to through the keymap, if any.
pub open spec fn keymap_hit(
    km: Map<(ModeClass, BindingView), Seq<char>>,
    k: Key,
    mods: Mods,
    ctx: DispatchCtx,
) -> Option<Action> {
    match token_of_key(k, true) {
        Some(t) => if km.dom().contains(primary_binding(mods, t)) {
            registry_action(km[primary_binding(mods, t)], ctx)
        } else {
            None
        },
        None => None,
    }
}

/// Key routing: the keymap first, then (unless Cmd is held) the mode handlers.
pub open spec fn dispatch_spec(
    km: Map<(ModeClass, BindingView), Seq<char>>,
    k: Key,
    ctrl: bool,
    shift: bool,
    alt: bool,
    cmd: bool,
    mode: InputMode,
    cols: usize,
    rows: usize,
    app: bool,
) -> ActionView {
    let mods = Mods { ctrl, shift, alt, cmd };
    let ctx = DispatchCtx { grid_rows: rows, mode: mode_kind(mode) };
    match keymap_hit(km, k, mods, ctx) {
        Some(a) => a@,
        None => if cmd {
            other(Action::Nothing)
        } else {
            inner_spec(k, ctrl, shift, alt, mode, cols, rows, app)
        },
    }
}

/// Routes a key by its modifier flags. The keymap is consulted FIRST; on a miss
/// the key falls through to the encoding/mode handlers.
pub fn handle_key_modified(
    keymap: &KeyMap,
    key: &Key,
    ctrl: bool,
    shift: bool,
    alt: bool,
    cmd: bool,
    mode: &InputMode,
    grid_cols: usize,
    grid_rows: usize,
    application_cursor_keys: bool,
) -> (r: Action)
    requires
        visual_cursor_in_range(*mode),
    ensures
        r@ == dispatch_spec(keymap@, *key, ctrl, shift, alt, cmd, *mode, grid_cols, grid_rows, application_cursor_keys),
{
    let mods = Mods { ctrl, shift, alt, cmd };
    let ctx = DispatchCtx { grid_rows, mode: InputModeKind::of(mode) };
    if let Some(token) = token_from_key(key, true) {
        let bkey = BindingKey { mods, token, chord_tail: None };
        if let Some(name) = keymap.lookup(ModeClass::Global, &bkey) {
            if let Some(action) = action_from_name(name, ctx) {
                return action;
            }
        }
    }
    // Keymap miss. When Cmd/Super is held, swallow so a bare Cmd+key never leaks
    // to the PTY. Otherwise fall through to encoding.
    if cmd {
        return Action::Nothing;
    }
    handle_key_inner(key, ctrl, shift, alt, mode, grid_cols, grid_rows, application_cursor_keys)
}

/// What a key press does: nothing on release, else [`handle_key_modified`].
pub fn handle_key(
    keymap: &KeyMap,
    event: &KeyEvent,
    modifiers: &Mods,
    mode: &InputMode,
    grid_cols: usize,
    grid_rows: usize,
    application_cursor_keys: bool,
) -> (r: Action)
    requires
        visual_cursor_in_range(*mode),
    ensures
        !event.pressed ==> r == Action::Nothing,
        event.pressed ==> r@ == dispatch_spec(keymap@, event.logical_key, modifiers.ctrl, modifiers.shift, modifiers.alt, modifiers.cmd, *mode, grid_cols, grid_rows, application_cursor_keys),
{
    if !event.pressed {
        return Action::Nothing;
    }
    handle_key_modified(
        keymap,
        &event.logical_key,
        modifiers.ctrl,
        modifiers.shift,
        modifiers.alt,
        modifiers.cmd,
        mode,
        grid_cols,
        grid_rows,
        application_cursor_keys,
    )
}

/// The Ctrl+W chord binding with this tail.
pub open spec fn chord_binding(t: TokenView) -> (ModeClass, BindingView) {
    (
        ModeClass::Global,
        BindingView {
            mods: Mods { ctrl: true, shift: false, alt: false, cmd: false },
            token: TokenView::Char("w"@),
            chord_tail: Some((crate::keymap::no_mods(), t)),
        },
    )
}

/// The action name a Ctrl+W chord tail finds: case-preserved first, then lowercased.
pub open spec fn chord_name(km: Map<(ModeClass, BindingView), Seq<char>>, k: Key) -> Option<Seq<char>> {
    let exact = match token_of_key(k, false) {
        Some(t) => if km.dom().contains(chord_binding(t)) { Some(km[chord_binding(t)]) } else { None },
        None => None,
    };
    match exact {
        Some(n) => Some(n),
        None => match token_of_key(k, true) {
            Some(t) => if km.dom().contains(chord_binding(t)) { Some(km[chord_binding(t)]) } else { None },
            None => None,
        },
    }
}

/// What the key after Ctrl+W does.
pub open spec fn ctrl_w_spec(km: Map<(ModeClass, BindingView), Seq<char>>, k: Key) -> Action {
    match chord_name(km, k) {
        Some(n) => match registry_action(n, DispatchCtx { grid_rows: 0, mode: InputModeKind::Insert }) {
            Some(a) => a,
            None => Action::Nothing,
        },
        None => Action::Nothing,
    }
}

fn chord_key(tail: KeyToken) -> (b: BindingKey)
    ensures
        (ModeClass::Global, b@) == chord_binding(tail@),
{
    BindingKey {
        mods: Mods { ctrl: true, shift: false, alt: false, cmd: false },
        token: KeyToken::Char(owned("w")),
        chord_tail: Some((crate::keymap::mods_none(), tail)),
    }
}

/// Resolve a `Ctrl+W <tail>` chord against the keymap. Chord tails are stored
/// case-preserved, but only `R` differs from `r` (rotate backward vs forward).
/// The case-preserved tail is looked up FIRST, then the lowercased tail, so
/// shifted tails like `Ctrl+W V` still match the lowercase `v` chord.
pub fn handle_ctrl_w_keymap(keymap: &KeyMap, key: &Key) -> (r: Action)
    ensures
        r == ctrl_w_spec(keymap@, *key),
{
    let mut name: Option<&'static str> = None;
    if let Some(tail) = token_from_key(key, false) {
        name = keymap.lookup(ModeClass::Global, &chord_key(tail));
    }
    if name.is_none() {
        if let Some(tail) = token_from_key(key, true) {
            name = keymap.lookup(ModeClass::Global, &chord_key(tail));
        }
    }
    match name {
        Some(n) => match action_from_name(n, DispatchCtx { grid_rows: 0, mode: InputModeKind::Insert }) {
            Some(a) => a,
            None => Action::Nothing,
        },
        None => Action::Nothing,
    }
}

/// The key after Ctrl+W: nothing on release, else the chord it completes.
pub fn handle_ctrl_w(keymap: &KeyMap, event: &KeyEvent) -> (r: Action)
    ensures
        !event.pressed ==> r == Action::Nothing,
        event.pressed ==> r == ctrl_w_spec(keymap@, event.logical_key),
{
    if !event.pressed {
        return Action::Nothing;
    }
    handle_ctrl_w_keymap(keymap, &event.logical_key)
}

/// Bypasses all shortcuts and encodes the key as raw PTY bytes (Insert mode
/// encoding). Used when passthrough mode is active; the caller intercepts
/// Ctrl+B (which leaves passthrough) before calling this.
pub fn handle_key_passthrough(event: &KeyEvent, modifiers: &Mods, application_cursor_keys: bool) -> (r: Action)
    ensures
        !event.pressed ==> r == Action::Nothing,
        event.pressed ==> r@ == insert_spec(event.logical_key, modifiers.ctrl, modifiers.shift, modifiers.alt, application_cursor_keys),
{
    if !event.pressed {
        return Action::Nothing;
    }
    handle_insert(&event.logical_key, modifiers.ctrl, modifiers.shift, modifiers.alt, application_cursor_keys)
}

} // verus!
