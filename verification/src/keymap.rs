//! Single source of truth for shortcut bindings.
//!
//! `default_keymap()` returns all built-in modifier/chord shortcuts as data.
//! `KeyMap::from_config` overlays the user's `[keybindings]` entries onto a copy
//! of the defaults (insert/replace; `"none"` removes; invalid entries skipped and
//! collected as `KeymapError`). Dispatch consults `lookup` first; a miss falls
//! through to the literal/PTY encoding handlers in `keybindings`.
use vstd::prelude::*;

use crate::action::Action;
use crate::keys::{Key, NamedKey};
use crate::mode::{visual_mode_init, visual_origin, InputMode};
use crate::text::{
    char_lowercase, chars_to_string, find_char, find_first, find_last, is_lit, lemma_find_from_range,
    lemma_rfind_range, lowercase_char, lowercase_chars, owned, push_all, push_str, rfind_char,
    slice_chars, split_spec, str_chars, string_chars, str_lowercase, strip_prefix, strip_prefix_spec, trim,
    trim_spec,
};

verus! {

// ── Binding data ────────────────────────────────────────────────────────────

#[derive(Clone, Copy, Debug, PartialEq, Eq, Hash, Default, Structural)]
pub struct Mods {
    pub ctrl: bool,
    pub shift: bool,
    pub alt: bool,
    pub cmd: bool,
}

/// No modifier held.
pub open spec fn no_mods() -> Mods {
    Mods { ctrl: false, shift: false, alt: false, cmd: false }
}

pub fn mods_none() -> (m: Mods)
    ensures
        m == no_mods(),
{
    Mods { ctrl: false, shift: false, alt: false, cmd: false }
}

#[derive(Clone, Debug, PartialEq, Eq)]
pub enum KeyToken {
    /// Single character as the keyboard reports it. Primary tokens are
    /// lowercased; chord-tail tokens keep their original case (so `Ctrl+W R`
    /// stays distinct from `Ctrl+W r`).
    Char(String),
    Named(NamedKey),
}

/// A key token with its text taken as characters.
pub ghost enum TokenView {
    Char(Seq<char>),
    Named(NamedKey),
}

impl View for KeyToken {
    type V = TokenView;

    open spec fn view(&self) -> TokenView {
        match self {
            KeyToken::Char(s) => TokenView::Char(s@),
            KeyToken::Named(n) => TokenView::Named(*n),
        }
    }
}

#[derive(Clone, Copy, Debug, PartialEq, Eq, Hash, Structural)]
pub enum ModeClass {
    Global,
    Normal,
    Visual,
}

#[derive(Clone, Debug, PartialEq, Eq)]
pub struct BindingKey {
    pub mods: Mods,
    pub token: KeyToken,
    pub chord_tail: Option<(Mods, KeyToken)>,
}

/// A binding key with its tokens taken by their views.
pub ghost struct BindingView {
    pub mods: Mods,
    pub token: TokenView,
    pub chord_tail: Option<(Mods, TokenView)>,
}

impl View for BindingKey {
    type V = BindingView;

    open spec fn view(&self) -> BindingView {
        BindingView {
            mods: self.mods,
            token: self.token@,
            chord_tail: match self.chord_tail {
                Some((m, t)) => Some((m, t@)),
                None => None,
            },
        }
    }
}

#[derive(Clone, Debug)]
pub enum KeymapError {
    Parse { raw: String, reason: String },
    UnknownAction { raw: String, name: String },
    ShadowsInput { raw: String },
}

/// A keymap error with its strings taken as characters.
pub ghost enum ErrorView {
    Parse { raw: Seq<char>, reason: Seq<char> },
    UnknownAction { raw: Seq<char>, name: Seq<char> },
    ShadowsInput { raw: Seq<char> },
}

impl View for KeymapError {
    type V = ErrorView;

    open spec fn view(&self) -> ErrorView {
        match self {
            KeymapError::Parse { raw, reason } => ErrorView::Parse { raw: raw@, reason: reason@ },
            KeymapError::UnknownAction { raw, name } => ErrorView::UnknownAction {
                raw: raw@,
                name: name@,
            },
            KeymapError::ShadowsInput { raw } => ErrorView::ShadowsInput { raw: raw@ },
        }
    }
}

// ── Parsing: specification ──────────────────────────────────────────────────

/// The named key spelled by an already lowercased name.
pub open spec fn named_key_of_lower(n: Seq<char>) -> Option<NamedKey> {
    if n == "enter"@ || n == "return"@ {
        Some(NamedKey::Enter)
    } else if n == "escape"@ || n == "esc"@ {
        Some(NamedKey::Escape)
    } else if n == "tab"@ {
        Some(NamedKey::Tab)
    } else if n == "space"@ {
        Some(NamedKey::Space)
    } else if n == "backspace"@ {
        Some(NamedKey::Backspace)
    } else if n == "delete"@ || n == "del"@ {
        Some(NamedKey::Delete)
    } else if n == "pageup"@ {
        Some(NamedKey::PageUp)
    } else if n == "pagedown"@ {
        Some(NamedKey::PageDown)
    } else if n == "home"@ {
        Some(NamedKey::Home)
    } else if n == "end"@ {
        Some(NamedKey::End)
    } else if n == "arrowup"@ || n == "up"@ {
        Some(NamedKey::ArrowUp)
    } else if n == "arrowdown"@ || n == "down"@ {
        Some(NamedKey::ArrowDown)
    } else if n == "arrowleft"@ || n == "left"@ {
        Some(NamedKey::ArrowLeft)
    } else if n == "arrowright"@ || n == "right"@ {
        Some(NamedKey::ArrowRight)
    } else if n == "f1"@ {
        Some(NamedKey::F1)
    } else if n == "f2"@ {
        Some(NamedKey::F2)
    } else if n == "f3"@ {
        Some(NamedKey::F3)
    } else if n == "f4"@ {
        Some(NamedKey::F4)
    } else if n == "f5"@ {
        Some(NamedKey::F5)
    } else if n == "f6"@ {
        Some(NamedKey::F6)
    } else if n == "f7"@ {
        Some(NamedKey::F7)
    } else if n == "f8"@ {
        Some(NamedKey::F8)
    } else if n == "f9"@ {
        Some(NamedKey::F9)
    } else if n == "f10"@ {
        Some(NamedKey::F10)
    } else if n == "f11"@ {
        Some(NamedKey::F11)
    } else if n == "f12"@ {
        Some(NamedKey::F12)
    } else {
        None
    }
}

/// The lowercase name of a named key: its own name, as the key is called.
pub open spec fn key_name(k: NamedKey) -> Seq<char> {
    match k {
        NamedKey::Enter => "enter"@,
        NamedKey::Escape => "escape"@,
        NamedKey::Tab => "tab"@,
        NamedKey::Space => "space"@,
        NamedKey::Backspace => "backspace"@,
        NamedKey::Delete => "delete"@,
        NamedKey::PageUp => "pageup"@,
        NamedKey::PageDown => "pagedown"@,
        NamedKey::Home => "home"@,
        NamedKey::End => "end"@,
        NamedKey::ArrowUp => "arrowup"@,
        NamedKey::ArrowDown => "arrowdown"@,
        NamedKey::ArrowLeft => "arrowleft"@,
        NamedKey::ArrowRight => "arrowright"@,
        NamedKey::F1 => "f1"@,
        NamedKey::F2 => "f2"@,
        NamedKey::F3 => "f3"@,
        NamedKey::F4 => "f4"@,
        NamedKey::F5 => "f5"@,
        NamedKey::F6 => "f6"@,
        NamedKey::F7 => "f7"@,
        NamedKey::F8 => "f8"@,
        NamedKey::F9 => "f9"@,
        NamedKey::F10 => "f10"@,
        NamedKey::F11 => "f11"@,
        NamedKey::F12 => "f12"@,
        NamedKey::Other => Seq::empty(),
    }
}

/// The one other name a key also goes by, if any.
pub open spec fn key_alias(k: NamedKey) -> Option<Seq<char>> {
    match k {
        NamedKey::Enter => Some("return"@),
        NamedKey::Escape => Some("esc"@),
        NamedKey::Delete => Some("del"@),
        NamedKey::ArrowUp => Some("up"@),
        NamedKey::ArrowDown => Some("down"@),
        NamedKey::ArrowLeft => Some("left"@),
        NamedKey::ArrowRight => Some("right"@),
        _ => None,
    }
}

/// Each key name parses to the key it names, and a name parses to a key
/// only when it is that key's name or its alias; so no two keys share a
/// name.
pub proof fn lemma_key_names(k: NamedKey, n: Seq<char>)
    ensures
        k != NamedKey::Other ==> named_key_of_lower(key_name(k)) == Some(k),
        named_key_of_lower(n) == Some(k) ==> n == key_name(k) || key_alias(k) == Some(n),
        named_key_of_lower(n) != Some(NamedKey::Other),
{
    match k {
        NamedKey::Enter => {

            assert(named_key_of_lower(key_name(k)) == Some(NamedKey::Enter));
        },
        NamedKey::Escape => {
            assert("escape"@ != "enter"@) by {
                reveal_strlit("escape");
                reveal_strlit("enter");
                assert("escape"@.len() != "enter"@.len());
            }
            assert("escape"@ != "return"@) by {
                reveal_strlit("escape");
                reveal_strlit("return");
                assert("escape"@[0] != "return"@[0]);
            }
            assert(named_key_of_lower(key_name(k)) == Some(NamedKey::Escape));
        },
        NamedKey::Tab => {
            assert("tab"@ != "enter"@) by {
                reveal_strlit("tab");
                reveal_strlit("enter");
                assert("tab"@.len() != "enter"@.len());
            }
            assert("tab"@ != "return"@) by {
                reveal_strlit("tab");
                reveal_strlit("return");
                assert("tab"@.len() != "return"@.len());
            }
            assert("tab"@ != "escape"@) by {
                reveal_strlit("tab");
                reveal_strlit("escape");
                assert("tab"@.len() != "escape"@.len());
            }
            assert("tab"@ != "esc"@) by {
                reveal_strlit("tab");
                reveal_strlit("esc");
                assert("tab"@[0] != "esc"@[0]);
            }
            assert(named_key_of_lower(key_name(k)) == Some(NamedKey::Tab));
        },
        NamedKey::Space => {
            assert("space"@ != "enter"@) by {
                reveal_strlit("space");
                reveal_strlit("enter");
                assert("space"@[0] != "enter"@[0]);
            }
            assert("space"@ != "return"@) by {
                reveal_strlit("space");
                reveal_strlit("return");
                assert("space"@.len() != "return"@.len());
            }
            assert("space"@ != "escape"@) by {
                reveal_strlit("space");
                reveal_strlit("escape");
                assert("space"@.len() != "escape"@.len());
            }
            assert("space"@ != "esc"@) by {
                reveal_strlit("space");
                reveal_strlit("esc");
                assert("space"@.len() != "esc"@.len());
            }
            assert("space"@ != "tab"@) by {
                reveal_strlit("space");
                reveal_strlit("tab");
                assert("space"@.len() != "tab"@.len());
            }
            assert(named_key_of_lower(key_name(k)) == Some(NamedKey::Space));
        },
        NamedKey::Backspace => {
            assert("backspace"@ != "enter"@) by {
                reveal_strlit("backspace");
                reveal_strlit("enter");
                assert("backspace"@.len() != "enter"@.len());
            }
            assert("backspace"@ != "return"@) by {
                reveal_strlit("backspace");
                reveal_strlit("return");
                assert("backspace"@.len() != "return"@.len());
            }
            assert("backspace"@ != "escape"@) by {
                reveal_strlit("backspace");
                reveal_strlit("escape");
                assert("backspace"@.len() != "escape"@.len());
            }
            assert("backspace"@ != "esc"@) by {
                reveal_strlit("backspace");
                reveal_strlit("esc");
                assert("backspace"@.len() != "esc"@.len());
            }
            assert("backspace"@ != "tab"@) by {
                reveal_strlit("backspace");
                reveal_strlit("tab");
                assert("backspace"@.len() != "tab"@.len());
            }
            assert("backspace"@ != "space"@) by {
                reveal_strlit("backspace");
                reveal_strlit("space");
                assert("backspace"@.len() != "space"@.len());
            }
            assert(named_key_of_lower(key_name(k)) == Some(NamedKey::Backspace));
        },
        NamedKey::Delete => {
            assert("delete"@ != "enter"@) by {
                reveal_strlit("delete");
                reveal_strlit("enter");
                assert("delete"@.len() != "enter"@.len());
            }
            assert("delete"@ != "return"@) by {
                reveal_strlit("delete");
                reveal_strlit("return");
                assert("delete"@[0] != "return"@[0]);
            }
            assert("delete"@ != "escape"@) by {
                reveal_strlit("delete");
                reveal_strlit("escape");
                assert("delete"@[0] != "escape"@[0]);
            }
            assert("delete"@ != "esc"@) by {
                reveal_strlit("delete");
                reveal_strlit("esc");
                assert("delete"@.len() != "esc"@.len());
            }
            assert("delete"@ != "tab"@) by {
                reveal_strlit("delete");
                reveal_strlit("tab");
                assert("delete"@.len() != "tab"@.len());
            }
            assert("delete"@ != "space"@) by {
                reveal_strlit("delete");
                reveal_strlit("space");
                assert("delete"@.len() != "space"@.len());
            }
            assert("delete"@ != "backspace"@) by {
                reveal_strlit("delete");
                reveal_strlit("backspace");
                assert("delete"@.len() != "backspace"@.len());
            }
            assert(named_key_of_lower(key_name(k)) == Some(NamedKey::Delete));
        },
        NamedKey::PageUp => {
            assert("pageup"@ != "enter"@) by {
                reveal_strlit("pageup");
                reveal_strlit("enter");
                assert("pageup"@.len() != "enter"@.len());
            }
            assert("pageup"@ != "return"@) by {
                reveal_strlit("pageup");
                reveal_strlit("return");
                assert("pageup"@[0] != "return"@[0]);
            }
            assert("pageup"@ != "escape"@) by {
                reveal_strlit("pageup");
                reveal_strlit("escape");
                assert("pageup"@[0] != "escape"@[0]);
            }
            assert("pageup"@ != "esc"@) by {
                reveal_strlit("pageup");
                reveal_strlit("esc");
                assert("pageup"@.len() != "esc"@.len());
            }
            assert("pageup"@ != "tab"@) by {
                reveal_strlit("pageup");
                reveal_strlit("tab");
                assert("pageup"@.len() != "tab"@.len());
            }
            assert("pageup"@ != "space"@) by {
                reveal_strlit("pageup");
                reveal_strlit("space");
                assert("pageup"@.len() != "space"@.len());
            }
            assert("pageup"@ != "backspace"@) by {
                reveal_strlit("pageup");
                reveal_strlit("backspace");
                assert("pageup"@.len() != "backspace"@.len());
            }
            assert("pageup"@ != "delete"@) by {
                reveal_strlit("pageup");
                reveal_strlit("delete");
                assert("pageup"@[0] != "delete"@[0]);
            }
            assert("pageup"@ != "del"@) by {
                reveal_strlit("pageup");
                reveal_strlit("del");
                assert("pageup"@.len() != "del"@.len());
            }
            assert(named_key_of_lower(key_name(k)) == Some(NamedKey::PageUp));
        },
        NamedKey::PageDown => {
            assert("pagedown"@ != "enter"@) by {
                reveal_strlit("pagedown");
                reveal_strlit("enter");
                assert("pagedown"@.len() != "enter"@.len());
            }
            assert("pagedown"@ != "return"@) by {
                reveal_strlit("pagedown");
                reveal_strlit("return");
                assert("pagedown"@.len() != "return"@.len());
            }
            assert("pagedown"@ != "escape"@) by {
                reveal_strlit("pagedown");
                reveal_strlit("escape");
                assert("pagedown"@.len() != "escape"@.len());
            }
            assert("pagedown"@ != "esc"@) by {
                reveal_strlit("pagedown");
                reveal_strlit("esc");
                assert("pagedown"@.len() != "esc"@.len());
            }
            assert("pagedown"@ != "tab"@) by {
                reveal_strlit("pagedown");
                reveal_strlit("tab");
                assert("pagedown"@.len() != "tab"@.len());
            }
            assert("pagedown"@ != "space"@) by {
                reveal_strlit("pagedown");
                reveal_strlit("space");
                assert("pagedown"@.len() != "space"@.len());
            }
            assert("pagedown"@ != "backspace"@) by {
                reveal_strlit("pagedown");
                reveal_strlit("backspace");
                assert("pagedown"@.len() != "backspace"@.len());
            }
            assert("pagedown"@ != "delete"@) by {
                reveal_strlit("pagedown");
                reveal_strlit("delete");
                assert("pagedown"@.len() != "delete"@.len());
            }
            assert("pagedown"@ != "del"@) by {
                reveal_strlit("pagedown");
                reveal_strlit("del");
                assert("pagedown"@.len() != "del"@.len());
            }
            assert("pagedown"@ != "pageup"@) by {
                reveal_strlit("pagedown");
                reveal_strlit("pageup");
                assert("pagedown"@.len() != "pageup"@.len());
            }
            assert(named_key_of_lower(key_name(k)) == Some(NamedKey::PageDown));
        },
        NamedKey::Home => {
            assert("home"@ != "enter"@) by {
                reveal_strlit("home");
                reveal_strlit("enter");
                assert("home"@.len() != "enter"@.len());
            }
            assert("home"@ != "return"@) by {
                reveal_strlit("home");
                reveal_strlit("return");
                assert("home"@.len() != "return"@.len());
            }
            assert("home"@ != "escape"@) by {
                reveal_strlit("home");
                reveal_strlit("escape");
                assert("home"@.len() != "escape"@.len());
            }
            assert("home"@ != "esc"@) by {
                reveal_strlit("home");
                reveal_strlit("esc");
                assert("home"@.len() != "esc"@.len());
            }
            assert("home"@ != "tab"@) by {
                reveal_strlit("home");
                reveal_strlit("tab");
                assert("home"@.len() != "tab"@.len());
            }
            assert("home"@ != "space"@) by {
                reveal_strlit("home");
                reveal_strlit("space");
                assert("home"@.len() != "space"@.len());
            }
            assert("home"@ != "backspace"@) by {
                reveal_strlit("home");
                reveal_strlit("backspace");
                assert("home"@.len() != "backspace"@.len());
            }
            assert("home"@ != "delete"@) by {
                reveal_strlit("home");
                reveal_strlit("delete");
                assert("home"@.len() != "delete"@.len());
            }
            assert("home"@ != "del"@) by {
                reveal_strlit("home");
                reveal_strlit("del");
                assert("home"@.len() != "del"@.len());
            }
            assert("home"@ != "pageup"@) by {
                reveal_strlit("home");
                reveal_strlit("pageup");
                assert("home"@.len() != "pageup"@.len());
            }
            assert("home"@ != "pagedown"@) by {
                reveal_strlit("home");
                reveal_strlit("pagedown");
                assert("home"@.len() != "pagedown"@.len());
            }
            assert(named_key_of_lower(key_name(k)) == Some(NamedKey::Home));
        },
        NamedKey::End => {
            assert("end"@ != "enter"@) by {
                reveal_strlit("end");
                reveal_strlit("enter");
                assert("end"@.len() != "enter"@.len());
            }
            assert("end"@ != "return"@) by {
                reveal_strlit("end");
                reveal_strlit("return");
                assert("end"@.len() != "return"@.len());
            }
            assert("end"@ != "escape"@) by {
                reveal_strlit("end");
                reveal_strlit("escape");
                assert("end"@.len() != "escape"@.len());
            }
            assert("end"@ != "esc"@) by {
                reveal_strlit("end");
                reveal_strlit("esc");
                assert("end"@[1] != "esc"@[1]);
            }
            assert("end"@ != "tab"@) by {
                reveal_strlit("end");
                reveal_strlit("tab");
                assert("end"@[0] != "tab"@[0]);
            }
            assert("end"@ != "space"@) by {
                reveal_strlit("end");
                reveal_strlit("space");
                assert("end"@.len() != "space"@.len());
            }
            assert("end"@ != "backspace"@) by {
                reveal_strlit("end");
                reveal_strlit("backspace");
                assert("end"@.len() != "backspace"@.len());
            }
            assert("end"@ != "delete"@) by {
                reveal_strlit("end");
                reveal_strlit("delete");
                assert("end"@.len() != "delete"@.len());
            }
            assert("end"@ != "del"@) by {
                reveal_strlit("end");
                reveal_strlit("del");
                assert("end"@[0] != "del"@[0]);
            }
            assert("end"@ != "pageup"@) by {
                reveal_strlit("end");
                reveal_strlit("pageup");
                assert("end"@.len() != "pageup"@.len());
            }
            assert("end"@ != "pagedown"@) by {
                reveal_strlit("end");
                reveal_strlit("pagedown");
                assert("end"@.len() != "pagedown"@.len());
            }
            assert("end"@ != "home"@) by {
                reveal_strlit("end");
                reveal_strlit("home");
                assert("end"@.len() != "home"@.len());
            }
            assert(named_key_of_lower(key_name(k)) == Some(NamedKey::End));
        },
        NamedKey::ArrowUp => {
            assert("arrowup"@ != "enter"@) by {
                reveal_strlit("arrowup");
                reveal_strlit("enter");
                assert("arrowup"@.len() != "enter"@.len());
            }
            assert("arrowup"@ != "return"@) by {
                reveal_strlit("arrowup");
                reveal_strlit("return");
                assert("arrowup"@.len() != "return"@.len());
            }
            assert("arrowup"@ != "escape"@) by {
                reveal_strlit("arrowup");
                reveal_strlit("escape");
                assert("arrowup"@.len() != "escape"@.len());
            }
            assert("arrowup"@ != "esc"@) by {
                reveal_strlit("arrowup");
                reveal_strlit("esc");
                assert("arrowup"@.len() != "esc"@.len());
            }
            assert("arrowup"@ != "tab"@) by {
                reveal_strlit("arrowup");
                reveal_strlit("tab");
                assert("arrowup"@.len() != "tab"@.len());
            }
            assert("arrowup"@ != "space"@) by {
                reveal_strlit("arrowup");
                reveal_strlit("space");
                assert("arrowup"@.len() != "space"@.len());
            }
            assert("arrowup"@ != "backspace"@) by {
                reveal_strlit("arrowup");
                reveal_strlit("backspace");
                assert("arrowup"@.len() != "backspace"@.len());
            }
            assert("arrowup"@ != "delete"@) by {
                reveal_strlit("arrowup");
                reveal_strlit("delete");
                assert("arrowup"@.len() != "delete"@.len());
            }
            assert("arrowup"@ != "del"@) by {
                reveal_strlit("arrowup");
                reveal_strlit("del");
                assert("arrowup"@.len() != "del"@.len());
            }
            assert("arrowup"@ != "pageup"@) by {
                reveal_strlit("arrowup");
                reveal_strlit("pageup");
                assert("arrowup"@.len() != "pageup"@.len());
            }
            assert("arrowup"@ != "pagedown"@) by {
                reveal_strlit("arrowup");
                reveal_strlit("pagedown");
                assert("arrowup"@.len() != "pagedown"@.len());
            }
            assert("arrowup"@ != "home"@) by {
                reveal_strlit("arrowup");
                reveal_strlit("home");
                assert("arrowup"@.len() != "home"@.len());
            }
            assert("arrowup"@ != "end"@) by {
                reveal_strlit("arrowup");
                reveal_strlit("end");
                assert("arrowup"@.len() != "end"@.len());
            }
            assert(named_key_of_lower(key_name(k)) == Some(NamedKey::ArrowUp));
        },
        NamedKey::ArrowDown => {
            assert("arrowdown"@ != "enter"@) by {
                reveal_strlit("arrowdown");
                reveal_strlit("enter");
                assert("arrowdown"@.len() != "enter"@.len());
            }
            assert("arrowdown"@ != "return"@) by {
                reveal_strlit("arrowdown");
                reveal_strlit("return");
                assert("arrowdown"@.len() != "return"@.len());
            }
            assert("arrowdown"@ != "escape"@) by {
                reveal_strlit("arrowdown");
                reveal_strlit("escape");
                assert("arrowdown"@.len() != "escape"@.len());
            }
            assert("arrowdown"@ != "esc"@) by {
                reveal_strlit("arrowdown");
                reveal_strlit("esc");
                assert("arrowdown"@.len() != "esc"@.len());
            }
            assert("arrowdown"@ != "tab"@) by {
                reveal_strlit("arrowdown");
                reveal_strlit("tab");
                assert("arrowdown"@.len() != "tab"@.len());
            }
            assert("arrowdown"@ != "space"@) by {
                reveal_strlit("arrowdown");
                reveal_strlit("space");
                assert("arrowdown"@.len() != "space"@.len());
            }
            assert("arrowdown"@ != "backspace"@) by {
                reveal_strlit("arrowdown");
                reveal_strlit("backspace");
                assert("arrowdown"@[0] != "backspace"@[0]);
            }
            assert("arrowdown"@ != "delete"@) by {
                reveal_strlit("arrowdown");
                reveal_strlit("delete");
                assert("arrowdown"@.len() != "delete"@.len());
            }
            assert("arrowdown"@ != "del"@) by {
                reveal_strlit("arrowdown");
                reveal_strlit("del");
                assert("arrowdown"@.len() != "del"@.len());
            }
            assert("arrowdown"@ != "pageup"@) by {
                reveal_strlit("arrowdown");
                reveal_strlit("pageup");
                assert("arrowdown"@.len() != "pageup"@.len());
            }
            assert("arrowdown"@ != "pagedown"@) by {
                reveal_strlit("arrowdown");
                reveal_strlit("pagedown");
                assert("arrowdown"@.len() != "pagedown"@.len());
            }
            assert("arrowdown"@ != "home"@) by {
                reveal_strlit("arrowdown");
                reveal_strlit("home");
                assert("arrowdown"@.len() != "home"@.len());
            }
            assert("arrowdown"@ != "end"@) by {
                reveal_strlit("arrowdown");
                reveal_strlit("end");
                assert("arrowdown"@.len() != "end"@.len());
            }
            assert("arrowdown"@ != "arrowup"@) by {
                reveal_strlit("arrowdown");
                reveal_strlit("arrowup");
                assert("arrowdown"@.len() != "arrowup"@.len());
            }
            assert("arrowdown"@ != "up"@) by {
                reveal_strlit("arrowdown");
                reveal_strlit("up");
                assert("arrowdown"@.len() != "up"@.len());
            }
            assert(named_key_of_lower(key_name(k)) == Some(NamedKey::ArrowDown));
        },
        NamedKey::ArrowLeft => {
            assert("arrowleft"@ != "enter"@) by {
                reveal_strlit("arrowleft");
                reveal_strlit("enter");
                assert("arrowleft"@.len() != "enter"@.len());
            }
            assert("arrowleft"@ != "return"@) by {
                reveal_strlit("arrowleft");
                reveal_strlit("return");
                assert("arrowleft"@.len() != "return"@.len());
            }
            assert("arrowleft"@ != "escape"@) by {
                reveal_strlit("arrowleft");
                reveal_strlit("escape");
                assert("arrowleft"@.len() != "escape"@.len());
            }
            assert("arrowleft"@ != "esc"@) by {
                reveal_strlit("arrowleft");
                reveal_strlit("esc");
                assert("arrowleft"@.len() != "esc"@.len());
            }
            assert("arrowleft"@ != "tab"@) by {
                reveal_strlit("arrowleft");
                reveal_strlit("tab");
                assert("arrowleft"@.len() != "tab"@.len());
            }
            assert("arrowleft"@ != "space"@) by {
                reveal_strlit("arrowleft");
                reveal_strlit("space");
                assert("arrowleft"@.len() != "space"@.len());
            }
            assert("arrowleft"@ != "backspace"@) by {
                reveal_strlit("arrowleft");
                reveal_strlit("backspace");
                assert("arrowleft"@[0] != "backspace"@[0]);
            }
            assert("arrowleft"@ != "delete"@) by {
                reveal_strlit("arrowleft");
                reveal_strlit("delete");
                assert("arrowleft"@.len() != "delete"@.len());
            }
            assert("arrowleft"@ != "del"@) by {
                reveal_strlit("arrowleft");
                reveal_strlit("del");
                assert("arrowleft"@.len() != "del"@.len());
            }
            assert("arrowleft"@ != "pageup"@) by {
                reveal_strlit("arrowleft");
                reveal_strlit("pageup");
                assert("arrowleft"@.len() != "pageup"@.len());
            }
            assert("arrowleft"@ != "pagedown"@) by {
                reveal_strlit("arrowleft");
                reveal_strlit("pagedown");
                assert("arrowleft"@.len() != "pagedown"@.len());
            }
            assert("arrowleft"@ != "home"@) by {
                reveal_strlit("arrowleft");
                reveal_strlit("home");
                assert("arrowleft"@.len() != "home"@.len());
            }
            assert("arrowleft"@ != "end"@) by {
                reveal_strlit("arrowleft");
                reveal_strlit("end");
                assert("arrowleft"@.len() != "end"@.len());
            }
            assert("arrowleft"@ != "arrowup"@) by {
                reveal_strlit("arrowleft");
                reveal_strlit("arrowup");
                assert("arrowleft"@.len() != "arrowup"@.len());
            }
            assert("arrowleft"@ != "up"@) by {
                reveal_strlit("arrowleft");
                reveal_strlit("up");
                assert("arrowleft"@.len() != "up"@.len());
            }
            assert("arrowleft"@ != "arrowdown"@) by {
                reveal_strlit("arrowleft");
                reveal_strlit("arrowdown");
                assert("arrowleft"@[5] != "arrowdown"@[5]);
            }
            assert("arrowleft"@ != "down"@) by {
                reveal_strlit("arrowleft");
                reveal_strlit("down");
                assert("arrowleft"@.len() != "down"@.len());
            }
            assert(named_key_of_lower(key_name(k)) == Some(NamedKey::ArrowLeft));
        },
        NamedKey::ArrowRight => {
            assert("arrowright"@ != "enter"@) by {
                reveal_strlit("arrowright");
                reveal_strlit("enter");
                assert("arrowright"@.len() != "enter"@.len());
            }
            assert("arrowright"@ != "return"@) by {
                reveal_strlit("arrowright");
                reveal_strlit("return");
                assert("arrowright"@.len() != "return"@.len());
            }
            assert("arrowright"@ != "escape"@) by {
                reveal_strlit("arrowright");
                reveal_strlit("escape");
                assert("arrowright"@.len() != "escape"@.len());
            }
            assert("arrowright"@ != "esc"@) by {
                reveal_strlit("arrowright");
                reveal_strlit("esc");
                assert("arrowright"@.len() != "esc"@.len());
            }
            assert("arrowright"@ != "tab"@) by {
                reveal_strlit("arrowright");
                reveal_strlit("tab");
                assert("arrowright"@.len() != "tab"@.len());
            }
            assert("arrowright"@ != "space"@) by {
                reveal_strlit("arrowright");
                reveal_strlit("space");
                assert("arrowright"@.len() != "space"@.len());
            }
            assert("arrowright"@ != "backspace"@) by {
                reveal_strlit("arrowright");
                reveal_strlit("backspace");
                assert("arrowright"@.len() != "backspace"@.len());
            }
            assert("arrowright"@ != "delete"@) by {
                reveal_strlit("arrowright");
                reveal_strlit("delete");
                assert("arrowright"@.len() != "delete"@.len());
            }
            assert("arrowright"@ != "del"@) by {
                reveal_strlit("arrowright");
                reveal_strlit("del");
                assert("arrowright"@.len() != "del"@.len());
            }
            assert("arrowright"@ != "pageup"@) by {
                reveal_strlit("arrowright");
                reveal_strlit("pageup");
                assert("arrowright"@.len() != "pageup"@.len());
            }
            assert("arrowright"@ != "pagedown"@) by {
                reveal_strlit("arrowright");
                reveal_strlit("pagedown");
                assert("arrowright"@.len() != "pagedown"@.len());
            }
            assert("arrowright"@ != "home"@) by {
                reveal_strlit("arrowright");
                reveal_strlit("home");
                assert("arrowright"@.len() != "home"@.len());
            }
            assert("arrowright"@ != "end"@) by {
                reveal_strlit("arrowright");
                reveal_strlit("end");
                assert("arrowright"@.len() != "end"@.len());
            }
            assert("arrowright"@ != "arrowup"@) by {
                reveal_strlit("arrowright");
                reveal_strlit("arrowup");
                assert("arrowright"@.len() != "arrowup"@.len());
            }
            assert("arrowright"@ != "up"@) by {
                reveal_strlit("arrowright");
                reveal_strlit("up");
                assert("arrowright"@.len() != "up"@.len());
            }
            assert("arrowright"@ != "arrowdown"@) by {
                reveal_strlit("arrowright");
                reveal_strlit("arrowdown");
                assert("arrowright"@.len() != "arrowdown"@.len());
            }
            assert("arrowright"@ != "down"@) by {
                reveal_strlit("arrowright");
                reveal_strlit("down");
                assert("arrowright"@.len() != "down"@.len());
            }
            assert("arrowright"@ != "arrowleft"@) by {
                reveal_strlit("arrowright");
                reveal_strlit("arrowleft");
                assert("arrowright"@.len() != "arrowleft"@.len());
            }
            assert("arrowright"@ != "left"@) by {
                reveal_strlit("arrowright");
                reveal_strlit("left");
                assert("arrowright"@.len() != "left"@.len());
            }
            assert(named_key_of_lower(key_name(k)) == Some(NamedKey::ArrowRight));
        },
        NamedKey::F1 => {
            assert("f1"@ != "enter"@) by {
                reveal_strlit("f1");
                reveal_strlit("enter");
                assert("f1"@.len() != "enter"@.len());
            }
            assert("f1"@ != "return"@) by {
                reveal_strlit("f1");
                reveal_strlit("return");
                assert("f1"@.len() != "return"@.len());
            }
            assert("f1"@ != "escape"@) by {
                reveal_strlit("f1");
                reveal_strlit("escape");
                assert("f1"@.len() != "escape"@.len());
            }
            assert("f1"@ != "esc"@) by {
                reveal_strlit("f1");
                reveal_strlit("esc");
                assert("f1"@.len() != "esc"@.len());
            }
            assert("f1"@ != "tab"@) by {
                reveal_strlit("f1");
                reveal_strlit("tab");
                assert("f1"@.len() != "tab"@.len());
            }
            assert("f1"@ != "space"@) by {
                reveal_strlit("f1");
                reveal_strlit("space");
                assert("f1"@.len() != "space"@.len());
            }
            assert("f1"@ != "backspace"@) by {
                reveal_strlit("f1");
                reveal_strlit("backspace");
                assert("f1"@.len() != "backspace"@.len());
            }
            assert("f1"@ != "delete"@) by {
                reveal_strlit("f1");
                reveal_strlit("delete");
                assert("f1"@.len() != "delete"@.len());
            }
            assert("f1"@ != "del"@) by {
                reveal_strlit("f1");
                reveal_strlit("del");
                assert("f1"@.len() != "del"@.len());
            }
            assert("f1"@ != "pageup"@) by {
                reveal_strlit("f1");
                reveal_strlit("pageup");
                assert("f1"@.len() != "pageup"@.len());
            }
            assert("f1"@ != "pagedown"@) by {
                reveal_strlit("f1");
                reveal_strlit("pagedown");
                assert("f1"@.len() != "pagedown"@.len());
            }
            assert("f1"@ != "home"@) by {
                reveal_strlit("f1");
                reveal_strlit("home");
                assert("f1"@.len() != "home"@.len());
            }
            assert("f1"@ != "end"@) by {
                reveal_strlit("f1");
                reveal_strlit("end");
                assert("f1"@.len() != "end"@.len());
            }
            assert("f1"@ != "arrowup"@) by {
                reveal_strlit("f1");
                reveal_strlit("arrowup");
                assert("f1"@.len() != "arrowup"@.len());
            }
            assert("f1"@ != "up"@) by {
                reveal_strlit("f1");
                reveal_strlit("up");
                assert("f1"@[0] != "up"@[0]);
            }
            assert("f1"@ != "arrowdown"@) by {
                reveal_strlit("f1");
                reveal_strlit("arrowdown");
                assert("f1"@.len() != "arrowdown"@.len());
            }
            assert("f1"@ != "down"@) by {
                reveal_strlit("f1");
                reveal_strlit("down");
                assert("f1"@.len() != "down"@.len());
            }
            assert("f1"@ != "arrowleft"@) by {
                reveal_strlit("f1");
                reveal_strlit("arrowleft");
                assert("f1"@.len() != "arrowleft"@.len());
            }
            assert("f1"@ != "left"@) by {
                reveal_strlit("f1");
                reveal_strlit("left");
                assert("f1"@.len() != "left"@.len());
            }
            assert("f1"@ != "arrowright"@) by {
                reveal_strlit("f1");
                reveal_strlit("arrowright");
                assert("f1"@.len() != "arrowright"@.len());
            }
            assert("f1"@ != "right"@) by {
                reveal_strlit("f1");
                reveal_strlit("right");
                assert("f1"@.len() != "right"@.len());
            }
            assert(named_key_of_lower(key_name(k)) == Some(NamedKey::F1));
        },
        NamedKey::F2 => {
            assert("f2"@ != "enter"@) by {
                reveal_strlit("f2");
                reveal_strlit("enter");
                assert("f2"@.len() != "enter"@.len());
            }
            assert("f2"@ != "return"@) by {
                reveal_strlit("f2");
                reveal_strlit("return");
                assert("f2"@.len() != "return"@.len());
            }
            assert("f2"@ != "escape"@) by {
                reveal_strlit("f2");
                reveal_strlit("escape");
                assert("f2"@.len() != "escape"@.len());
            }
            assert("f2"@ != "esc"@) by {
                reveal_strlit("f2");
                reveal_strlit("esc");
                assert("f2"@.len() != "esc"@.len());
            }
            assert("f2"@ != "tab"@) by {
                reveal_strlit("f2");
                reveal_strlit("tab");
                assert("f2"@.len() != "tab"@.len());
            }
            assert("f2"@ != "space"@) by {
                reveal_strlit("f2");
                reveal_strlit("space");
                assert("f2"@.len() != "space"@.len());
            }
            assert("f2"@ != "backspace"@) by {
                reveal_strlit("f2");
                reveal_strlit("backspace");
                assert("f2"@.len() != "backspace"@.len());
            }
            assert("f2"@ != "delete"@) by {
                reveal_strlit("f2");
                reveal_strlit("delete");
                assert("f2"@.len() != "delete"@.len());
            }
            assert("f2"@ != "del"@) by {
                reveal_strlit("f2");
                reveal_strlit("del");
                assert("f2"@.len() != "del"@.len());
            }
            assert("f2"@ != "pageup"@) by {
                reveal_strlit("f2");
                reveal_strlit("pageup");
                assert("f2"@.len() != "pageup"@.len());
            }
            assert("f2"@ != "pagedown"@) by {
                reveal_strlit("f2");
                reveal_strlit("pagedown");
                assert("f2"@.len() != "pagedown"@.len());
            }
            assert("f2"@ != "home"@) by {
                reveal_strlit("f2");
                reveal_strlit("home");
                assert("f2"@.len() != "home"@.len());
            }
            assert("f2"@ != "end"@) by {
                reveal_strlit("f2");
                reveal_strlit("end");
                assert("f2"@.len() != "end"@.len());
            }
            assert("f2"@ != "arrowup"@) by {
                reveal_strlit("f2");
                reveal_strlit("arrowup");
                assert("f2"@.len() != "arrowup"@.len());
            }
            assert("f2"@ != "up"@) by {
                reveal_strlit("f2");
                reveal_strlit("up");
                assert("f2"@[0] != "up"@[0]);
            }
            assert("f2"@ != "arrowdown"@) by {
                reveal_strlit("f2");
                reveal_strlit("arrowdown");
                assert("f2"@.len() != "arrowdown"@.len());
            }
            assert("f2"@ != "down"@) by {
                reveal_strlit("f2");
                reveal_strlit("down");
                assert("f2"@.len() != "down"@.len());
            }
            assert("f2"@ != "arrowleft"@) by {
                reveal_strlit("f2");
                reveal_strlit("arrowleft");
                assert("f2"@.len() != "arrowleft"@.len());
            }
            assert("f2"@ != "left"@) by {
                reveal_strlit("f2");
                reveal_strlit("left");
                assert("f2"@.len() != "left"@.len());
            }
            assert("f2"@ != "arrowright"@) by {
                reveal_strlit("f2");
                reveal_strlit("arrowright");
                assert("f2"@.len() != "arrowright"@.len());
            }
            assert("f2"@ != "right"@) by {
                reveal_strlit("f2");
                reveal_strlit("right");
                assert("f2"@.len() != "right"@.len());
            }
            assert("f2"@ != "f1"@) by {
                reveal_strlit("f2");
                reveal_strlit("f1");
                assert("f2"@[1] != "f1"@[1]);
            }
            assert(named_key_of_lower(key_name(k)) == Some(NamedKey::F2));
        },
        NamedKey::F3 => {
            assert("f3"@ != "enter"@) by {
                reveal_strlit("f3");
                reveal_strlit("enter");
                assert("f3"@.len() != "enter"@.len());
            }
            assert("f3"@ != "return"@) by {
                reveal_strlit("f3");
                reveal_strlit("return");
                assert("f3"@.len() != "return"@.len());
            }
            assert("f3"@ != "escape"@) by {
                reveal_strlit("f3");
                reveal_strlit("escape");
                assert("f3"@.len() != "escape"@.len());
            }
            assert("f3"@ != "esc"@) by {
                reveal_strlit("f3");
                reveal_strlit("esc");
                assert("f3"@.len() != "esc"@.len());
            }
            assert("f3"@ != "tab"@) by {
                reveal_strlit("f3");
                reveal_strlit("tab");
                assert("f3"@.len() != "tab"@.len());
            }
            assert("f3"@ != "space"@) by {
                reveal_strlit("f3");
                reveal_strlit("space");
                assert("f3"@.len() != "space"@.len());
            }
            assert("f3"@ != "backspace"@) by {
                reveal_strlit("f3");
                reveal_strlit("backspace");
                assert("f3"@.len() != "backspace"@.len());
            }
            assert("f3"@ != "delete"@) by {
                reveal_strlit("f3");
                reveal_strlit("delete");
                assert("f3"@.len() != "delete"@.len());
            }
            assert("f3"@ != "del"@) by {
                reveal_strlit("f3");
                reveal_strlit("del");
                assert("f3"@.len() != "del"@.len());
            }
            assert("f3"@ != "pageup"@) by {
                reveal_strlit("f3");
                reveal_strlit("pageup");
                assert("f3"@.len() != "pageup"@.len());
            }
            assert("f3"@ != "pagedown"@) by {
                reveal_strlit("f3");
                reveal_strlit("pagedown");
                assert("f3"@.len() != "pagedown"@.len());
            }
            assert("f3"@ != "home"@) by {
                reveal_strlit("f3");
                reveal_strlit("home");
                assert("f3"@.len() != "home"@.len());
            }
            assert("f3"@ != "end"@) by {
                reveal_strlit("f3");
                reveal_strlit("end");
                assert("f3"@.len() != "end"@.len());
            }
            assert("f3"@ != "arrowup"@) by {
                reveal_strlit("f3");
                reveal_strlit("arrowup");
                assert("f3"@.len() != "arrowup"@.len());
            }
            assert("f3"@ != "up"@) by {
                reveal_strlit("f3");
                reveal_strlit("up");
                assert("f3"@[0] != "up"@[0]);
            }
            assert("f3"@ != "arrowdown"@) by {
                reveal_strlit("f3");
                reveal_strlit("arrowdown");
                assert("f3"@.len() != "arrowdown"@.len());
            }
            assert("f3"@ != "down"@) by {
                reveal_strlit("f3");
                reveal_strlit("down");
                assert("f3"@.len() != "down"@.len());
            }
            assert("f3"@ != "arrowleft"@) by {
                reveal_strlit("f3");
                reveal_strlit("arrowleft");
                assert("f3"@.len() != "arrowleft"@.len());
            }
            assert("f3"@ != "left"@) by {
                reveal_strlit("f3");
                reveal_strlit("left");
                assert("f3"@.len() != "left"@.len());
            }
            assert("f3"@ != "arrowright"@) by {
                reveal_strlit("f3");
                reveal_strlit("arrowright");
                assert("f3"@.len() != "arrowright"@.len());
            }
            assert("f3"@ != "right"@) by {
                reveal_strlit("f3");
                reveal_strlit("right");
                assert("f3"@.len() != "right"@.len());
            }
            assert("f3"@ != "f1"@) by {
                reveal_strlit("f3");
                reveal_strlit("f1");
                assert("f3"@[1] != "f1"@[1]);
            }
            assert("f3"@ != "f2"@) by {
                reveal_strlit("f3");
                reveal_strlit("f2");
                assert("f3"@[1] != "f2"@[1]);
            }
            assert(named_key_of_lower(key_name(k)) == Some(NamedKey::F3));
        },
        NamedKey::F4 => {
            assert("f4"@ != "enter"@) by {
                reveal_strlit("f4");
                reveal_strlit("enter");
                assert("f4"@.len() != "enter"@.len());
            }
            assert("f4"@ != "return"@) by {
                reveal_strlit("f4");
                reveal_strlit("return");
                assert("f4"@.len() != "return"@.len());
            }
            assert("f4"@ != "escape"@) by {
                reveal_strlit("f4");
                reveal_strlit("escape");
                assert("f4"@.len() != "escape"@.len());
            }
            assert("f4"@ != "esc"@) by {
                reveal_strlit("f4");
                reveal_strlit("esc");
                assert("f4"@.len() != "esc"@.len());
            }
            assert("f4"@ != "tab"@) by {
                reveal_strlit("f4");
                reveal_strlit("tab");
                assert("f4"@.len() != "tab"@.len());
            }
            assert("f4"@ != "space"@) by {
                reveal_strlit("f4");
                reveal_strlit("space");
                assert("f4"@.len() != "space"@.len());
            }
            assert("f4"@ != "backspace"@) by {
                reveal_strlit("f4");
                reveal_strlit("backspace");
                assert("f4"@.len() != "backspace"@.len());
            }
            assert("f4"@ != "delete"@) by {
                reveal_strlit("f4");
                reveal_strlit("delete");
                assert("f4"@.len() != "delete"@.len());
            }
            assert("f4"@ != "del"@) by {
                reveal_strlit("f4");
                reveal_strlit("del");
                assert("f4"@.len() != "del"@.len());
            }
            assert("f4"@ != "pageup"@) by {
                reveal_strlit("f4");
                reveal_strlit("pageup");
                assert("f4"@.len() != "pageup"@.len());
            }
            assert("f4"@ != "pagedown"@) by {
                reveal_strlit("f4");
                reveal_strlit("pagedown");
                assert("f4"@.len() != "pagedown"@.len());
            }
            assert("f4"@ != "home"@) by {
                reveal_strlit("f4");
                reveal_strlit("home");
                assert("f4"@.len() != "home"@.len());
            }
            assert("f4"@ != "end"@) by {
                reveal_strlit("f4");
                reveal_strlit("end");
                assert("f4"@.len() != "end"@.len());
            }
            assert("f4"@ != "arrowup"@) by {
                reveal_strlit("f4");
                reveal_strlit("arrowup");
                assert("f4"@.len() != "arrowup"@.len());
            }
            assert("f4"@ != "up"@) by {
                reveal_strlit("f4");
                reveal_strlit("up");
                assert("f4"@[0] != "up"@[0]);
            }
            assert("f4"@ != "arrowdown"@) by {
                reveal_strlit("f4");
                reveal_strlit("arrowdown");
                assert("f4"@.len() != "arrowdown"@.len());
            }
            assert("f4"@ != "down"@) by {
                reveal_strlit("f4");
                reveal_strlit("down");
                assert("f4"@.len() != "down"@.len());
            }
            assert("f4"@ != "arrowleft"@) by {
                reveal_strlit("f4");
                reveal_strlit("arrowleft");
                assert("f4"@.len() != "arrowleft"@.len());
            }
            assert("f4"@ != "left"@) by {
                reveal_strlit("f4");
                reveal_strlit("left");
                assert("f4"@.len() != "left"@.len());
            }
            assert("f4"@ != "arrowright"@) by {
                reveal_strlit("f4");
                reveal_strlit("arrowright");
                assert("f4"@.len() != "arrowright"@.len());
            }
            assert("f4"@ != "right"@) by {
                reveal_strlit("f4");
                reveal_strlit("right");
                assert("f4"@.len() != "right"@.len());
            }
            assert("f4"@ != "f1"@) by {
                reveal_strlit("f4");
                reveal_strlit("f1");
                assert("f4"@[1] != "f1"@[1]);
            }
            assert("f4"@ != "f2"@) by {
                reveal_strlit("f4");
                reveal_strlit("f2");
                assert("f4"@[1] != "f2"@[1]);
            }
            assert("f4"@ != "f3"@) by {
                reveal_strlit("f4");
                reveal_strlit("f3");
                assert("f4"@[1] != "f3"@[1]);
            }
            assert(named_key_of_lower(key_name(k)) == Some(NamedKey::F4));
        },
        NamedKey::F5 => {
            assert("f5"@ != "enter"@) by {
                reveal_strlit("f5");
                reveal_strlit("enter");
                assert("f5"@.len() != "enter"@.len());
            }
            assert("f5"@ != "return"@) by {
                reveal_strlit("f5");
                reveal_strlit("return");
                assert("f5"@.len() != "return"@.len());
            }
            assert("f5"@ != "escape"@) by {
                reveal_strlit("f5");
                reveal_strlit("escape");
                assert("f5"@.len() != "escape"@.len());
            }
            assert("f5"@ != "esc"@) by {
                reveal_strlit("f5");
                reveal_strlit("esc");
                assert("f5"@.len() != "esc"@.len());
            }
            assert("f5"@ != "tab"@) by {
                reveal_strlit("f5");
                reveal_strlit("tab");
                assert("f5"@.len() != "tab"@.len());
            }
            assert("f5"@ != "space"@) by {
                reveal_strlit("f5");
                reveal_strlit("space");
                assert("f5"@.len() != "space"@.len());
            }
            assert("f5"@ != "backspace"@) by {
                reveal_strlit("f5");
                reveal_strlit("backspace");
                assert("f5"@.len() != "backspace"@.len());
            }
            assert("f5"@ != "delete"@) by {
                reveal_strlit("f5");
                reveal_strlit("delete");
                assert("f5"@.len() != "delete"@.len());
            }
            assert("f5"@ != "del"@) by {
                reveal_strlit("f5");
                reveal_strlit("del");
                assert("f5"@.len() != "del"@.len());
            }
            assert("f5"@ != "pageup"@) by {
                reveal_strlit("f5");
                reveal_strlit("pageup");
                assert("f5"@.len() != "pageup"@.len());
            }
            assert("f5"@ != "pagedown"@) by {
                reveal_strlit("f5");
                reveal_strlit("pagedown");
                assert("f5"@.len() != "pagedown"@.len());
            }
            assert("f5"@ != "home"@) by {
                reveal_strlit("f5");
                reveal_strlit("home");
                assert("f5"@.len() != "home"@.len());
            }
            assert("f5"@ != "end"@) by {
                reveal_strlit("f5");
                reveal_strlit("end");
                assert("f5"@.len() != "end"@.len());
            }
            assert("f5"@ != "arrowup"@) by {
                reveal_strlit("f5");
                reveal_strlit("arrowup");
                assert("f5"@.len() != "arrowup"@.len());
            }
            assert("f5"@ != "up"@) by {
                reveal_strlit("f5");
                reveal_strlit("up");
                assert("f5"@[0] != "up"@[0]);
            }
            assert("f5"@ != "arrowdown"@) by {
                reveal_strlit("f5");
                reveal_strlit("arrowdown");
                assert("f5"@.len() != "arrowdown"@.len());
            }
            assert("f5"@ != "down"@) by {
                reveal_strlit("f5");
                reveal_strlit("down");
                assert("f5"@.len() != "down"@.len());
            }
            assert("f5"@ != "arrowleft"@) by {
                reveal_strlit("f5");
                reveal_strlit("arrowleft");
                assert("f5"@.len() != "arrowleft"@.len());
            }
            assert("f5"@ != "left"@) by {
                reveal_strlit("f5");
                reveal_strlit("left");
                assert("f5"@.len() != "left"@.len());
            }
            assert("f5"@ != "arrowright"@) by {
                reveal_strlit("f5");
                reveal_strlit("arrowright");
                assert("f5"@.len() != "arrowright"@.len());
            }
            assert("f5"@ != "right"@) by {
                reveal_strlit("f5");
                reveal_strlit("right");
                assert("f5"@.len() != "right"@.len());
            }
            assert("f5"@ != "f1"@) by {
                reveal_strlit("f5");
                reveal_strlit("f1");
                assert("f5"@[1] != "f1"@[1]);
            }
            assert("f5"@ != "f2"@) by {
                reveal_strlit("f5");
                reveal_strlit("f2");
                assert("f5"@[1] != "f2"@[1]);
            }
            assert("f5"@ != "f3"@) by {
                reveal_strlit("f5");
                reveal_strlit("f3");
                assert("f5"@[1] != "f3"@[1]);
            }
            assert("f5"@ != "f4"@) by {
                reveal_strlit("f5");
                reveal_strlit("f4");
                assert("f5"@[1] != "f4"@[1]);
            }
            assert(named_key_of_lower(key_name(k)) == Some(NamedKey::F5));
        },
        NamedKey::F6 => {
            assert("f6"@ != "enter"@) by {
                reveal_strlit("f6");
                reveal_strlit("enter");
                assert("f6"@.len() != "enter"@.len());
            }
            assert("f6"@ != "return"@) by {
                reveal_strlit("f6");
                reveal_strlit("return");
                assert("f6"@.len() != "return"@.len());
            }
            assert("f6"@ != "escape"@) by {
                reveal_strlit("f6");
                reveal_strlit("escape");
                assert("f6"@.len() != "escape"@.len());
            }
            assert("f6"@ != "esc"@) by {
                reveal_strlit("f6");
                reveal_strlit("esc");
                assert("f6"@.len() != "esc"@.len());
            }
            assert("f6"@ != "tab"@) by {
                reveal_strlit("f6");
                reveal_strlit("tab");
                assert("f6"@.len() != "tab"@.len());
            }
            assert("f6"@ != "space"@) by {
                reveal_strlit("f6");
                reveal_strlit("space");
                assert("f6"@.len() != "space"@.len());
            }
            assert("f6"@ != "backspace"@) by {
                reveal_strlit("f6");
                reveal_strlit("backspace");
                assert("f6"@.len() != "backspace"@.len());
            }
            assert("f6"@ != "delete"@) by {
                reveal_strlit("f6");
                reveal_strlit("delete");
                assert("f6"@.len() != "delete"@.len());
            }
            assert("f6"@ != "del"@) by {
                reveal_strlit("f6");
                reveal_strlit("del");
                assert("f6"@.len() != "del"@.len());
            }
            assert("f6"@ != "pageup"@) by {
                reveal_strlit("f6");
                reveal_strlit("pageup");
                assert("f6"@.len() != "pageup"@.len());
            }
            assert("f6"@ != "pagedown"@) by {
                reveal_strlit("f6");
                reveal_strlit("pagedown");
                assert("f6"@.len() != "pagedown"@.len());
            }
            assert("f6"@ != "home"@) by {
                reveal_strlit("f6");
                reveal_strlit("home");
                assert("f6"@.len() != "home"@.len());
            }
            assert("f6"@ != "end"@) by {
                reveal_strlit("f6");
                reveal_strlit("end");
                assert("f6"@.len() != "end"@.len());
            }
            assert("f6"@ != "arrowup"@) by {
                reveal_strlit("f6");
                reveal_strlit("arrowup");
                assert("f6"@.len() != "arrowup"@.len());
            }
            assert("f6"@ != "up"@) by {
                reveal_strlit("f6");
                reveal_strlit("up");
                assert("f6"@[0] != "up"@[0]);
            }
            assert("f6"@ != "arrowdown"@) by {
                reveal_strlit("f6");
                reveal_strlit("arrowdown");
                assert("f6"@.len() != "arrowdown"@.len());
            }
            assert("f6"@ != "down"@) by {
                reveal_strlit("f6");
                reveal_strlit("down");
                assert("f6"@.len() != "down"@.len());
            }
            assert("f6"@ != "arrowleft"@) by {
                reveal_strlit("f6");
                reveal_strlit("arrowleft");
                assert("f6"@.len() != "arrowleft"@.len());
            }
            assert("f6"@ != "left"@) by {
                reveal_strlit("f6");
                reveal_strlit("left");
                assert("f6"@.len() != "left"@.len());
            }
            assert("f6"@ != "arrowright"@) by {
                reveal_strlit("f6");
                reveal_strlit("arrowright");
                assert("f6"@.len() != "arrowright"@.len());
            }
            assert("f6"@ != "right"@) by {
                reveal_strlit("f6");
                reveal_strlit("right");
                assert("f6"@.len() != "right"@.len());
            }
            assert("f6"@ != "f1"@) by {
                reveal_strlit("f6");
                reveal_strlit("f1");
                assert("f6"@[1] != "f1"@[1]);
            }
            assert("f6"@ != "f2"@) by {
                reveal_strlit("f6");
                reveal_strlit("f2");
                assert("f6"@[1] != "f2"@[1]);
            }
            assert("f6"@ != "f3"@) by {
                reveal_strlit("f6");
                reveal_strlit("f3");
                assert("f6"@[1] != "f3"@[1]);
            }
            assert("f6"@ != "f4"@) by {
                reveal_strlit("f6");
                reveal_strlit("f4");
                assert("f6"@[1] != "f4"@[1]);
            }
            assert("f6"@ != "f5"@) by {
                reveal_strlit("f6");
                reveal_strlit("f5");
                assert("f6"@[1] != "f5"@[1]);
            }
            assert(named_key_of_lower(key_name(k)) == Some(NamedKey::F6));
        },
        NamedKey::F7 => {
            assert("f7"@ != "enter"@) by {
                reveal_strlit("f7");
                reveal_strlit("enter");
                assert("f7"@.len() != "enter"@.len());
            }
            assert("f7"@ != "return"@) by {
                reveal_strlit("f7");
                reveal_strlit("return");
                assert("f7"@.len() != "return"@.len());
            }
            assert("f7"@ != "escape"@) by {
                reveal_strlit("f7");
                reveal_strlit("escape");
                assert("f7"@.len() != "escape"@.len());
            }
            assert("f7"@ != "esc"@) by {
                reveal_strlit("f7");
                reveal_strlit("esc");
                assert("f7"@.len() != "esc"@.len());
            }
            assert("f7"@ != "tab"@) by {
                reveal_strlit("f7");
                reveal_strlit("tab");
                assert("f7"@.len() != "tab"@.len());
            }
            assert("f7"@ != "space"@) by {
                reveal_strlit("f7");
                reveal_strlit("space");
                assert("f7"@.len() != "space"@.len());
            }
            assert("f7"@ != "backspace"@) by {
                reveal_strlit("f7");
                reveal_strlit("backspace");
                assert("f7"@.len() != "backspace"@.len());
            }
            assert("f7"@ != "delete"@) by {
                reveal_strlit("f7");
                reveal_strlit("delete");
                assert("f7"@.len() != "delete"@.len());
            }
            assert("f7"@ != "del"@) by {
                reveal_strlit("f7");
                reveal_strlit("del");
                assert("f7"@.len() != "del"@.len());
            }
            assert("f7"@ != "pageup"@) by {
                reveal_strlit("f7");
                reveal_strlit("pageup");
                assert("f7"@.len() != "pageup"@.len());
            }
            assert("f7"@ != "pagedown"@) by {
                reveal_strlit("f7");
                reveal_strlit("pagedown");
                assert("f7"@.len() != "pagedown"@.len());
            }
            assert("f7"@ != "home"@) by {
                reveal_strlit("f7");
                reveal_strlit("home");
                assert("f7"@.len() != "home"@.len());
            }
            assert("f7"@ != "end"@) by {
                reveal_strlit("f7");
                reveal_strlit("end");
                assert("f7"@.len() != "end"@.len());
            }
            assert("f7"@ != "arrowup"@) by {
                reveal_strlit("f7");
                reveal_strlit("arrowup");
                assert("f7"@.len() != "arrowup"@.len());
            }
            assert("f7"@ != "up"@) by {
                reveal_strlit("f7");
                reveal_strlit("up");
                assert("f7"@[0] != "up"@[0]);
            }
            assert("f7"@ != "arrowdown"@) by {
                reveal_strlit("f7");
                reveal_strlit("arrowdown");
                assert("f7"@.len() != "arrowdown"@.len());
            }
            assert("f7"@ != "down"@) by {
                reveal_strlit("f7");
                reveal_strlit("down");
                assert("f7"@.len() != "down"@.len());
            }
            assert("f7"@ != "arrowleft"@) by {
                reveal_strlit("f7");
                reveal_strlit("arrowleft");
                assert("f7"@.len() != "arrowleft"@.len());
            }
            assert("f7"@ != "left"@) by {
                reveal_strlit("f7");
                reveal_strlit("left");
                assert("f7"@.len() != "left"@.len());
            }
            assert("f7"@ != "arrowright"@) by {
                reveal_strlit("f7");
                reveal_strlit("arrowright");
                assert("f7"@.len() != "arrowright"@.len());
            }
            assert("f7"@ != "right"@) by {
                reveal_strlit("f7");
                reveal_strlit("right");
                assert("f7"@.len() != "right"@.len());
            }
            assert("f7"@ != "f1"@) by {
                reveal_strlit("f7");
                reveal_strlit("f1");
                assert("f7"@[1] != "f1"@[1]);
            }
            assert("f7"@ != "f2"@) by {
                reveal_strlit("f7");
                reveal_strlit("f2");
                assert("f7"@[1] != "f2"@[1]);
            }
            assert("f7"@ != "f3"@) by {
                reveal_strlit("f7");
                reveal_strlit("f3");
                assert("f7"@[1] != "f3"@[1]);
            }
            assert("f7"@ != "f4"@) by {
                reveal_strlit("f7");
                reveal_strlit("f4");
                assert("f7"@[1] != "f4"@[1]);
            }
            assert("f7"@ != "f5"@) by {
                reveal_strlit("f7");
                reveal_strlit("f5");
                assert("f7"@[1] != "f5"@[1]);
            }
            assert("f7"@ != "f6"@) by {
                reveal_strlit("f7");
                reveal_strlit("f6");
                assert("f7"@[1] != "f6"@[1]);
            }
            assert(named_key_of_lower(key_name(k)) == Some(NamedKey::F7));
        },
        NamedKey::F8 => {
            assert("f8"@ != "enter"@) by {
                reveal_strlit("f8");
                reveal_strlit("enter");
                assert("f8"@.len() != "enter"@.len());
            }
            assert("f8"@ != "return"@) by {
                reveal_strlit("f8");
                reveal_strlit("return");
                assert("f8"@.len() != "return"@.len());
            }
            assert("f8"@ != "escape"@) by {
                reveal_strlit("f8");
                reveal_strlit("escape");
                assert("f8"@.len() != "escape"@.len());
            }
            assert("f8"@ != "esc"@) by {
                reveal_strlit("f8");
                reveal_strlit("esc");
                assert("f8"@.len() != "esc"@.len());
            }
            assert("f8"@ != "tab"@) by {
                reveal_strlit("f8");
                reveal_strlit("tab");
                assert("f8"@.len() != "tab"@.len());
            }
            assert("f8"@ != "space"@) by {
                reveal_strlit("f8");
                reveal_strlit("space");
                assert("f8"@.len() != "space"@.len());
            }
            assert("f8"@ != "backspace"@) by {
                reveal_strlit("f8");
                reveal_strlit("backspace");
                assert("f8"@.len() != "backspace"@.len());
            }
            assert("f8"@ != "delete"@) by {
                reveal_strlit("f8");
                reveal_strlit("delete");
                assert("f8"@.len() != "delete"@.len());
            }
            assert("f8"@ != "del"@) by {
                reveal_strlit("f8");
                reveal_strlit("del");
                assert("f8"@.len() != "del"@.len());
            }
            assert("f8"@ != "pageup"@) by {
                reveal_strlit("f8");
                reveal_strlit("pageup");
                assert("f8"@.len() != "pageup"@.len());
            }
            assert("f8"@ != "pagedown"@) by {
                reveal_strlit("f8");
                reveal_strlit("pagedown");
                assert("f8"@.len() != "pagedown"@.len());
            }
            assert("f8"@ != "home"@) by {
                reveal_strlit("f8");
                reveal_strlit("home");
                assert("f8"@.len() != "home"@.len());
            }
            assert("f8"@ != "end"@) by {
                reveal_strlit("f8");
                reveal_strlit("end");
                assert("f8"@.len() != "end"@.len());
            }
            assert("f8"@ != "arrowup"@) by {
                reveal_strlit("f8");
                reveal_strlit("arrowup");
                assert("f8"@.len() != "arrowup"@.len());
            }
            assert("f8"@ != "up"@) by {
                reveal_strlit("f8");
                reveal_strlit("up");
                assert("f8"@[0] != "up"@[0]);
            }
            assert("f8"@ != "arrowdown"@) by {
                reveal_strlit("f8");
                reveal_strlit("arrowdown");
                assert("f8"@.len() != "arrowdown"@.len());
            }
            assert("f8"@ != "down"@) by {
                reveal_strlit("f8");
                reveal_strlit("down");
                assert("f8"@.len() != "down"@.len());
            }
            assert("f8"@ != "arrowleft"@) by {
                reveal_strlit("f8");
                reveal_strlit("arrowleft");
                assert("f8"@.len() != "arrowleft"@.len());
            }
            assert("f8"@ != "left"@) by {
                reveal_strlit("f8");
                reveal_strlit("left");
                assert("f8"@.len() != "left"@.len());
            }
            assert("f8"@ != "arrowright"@) by {
                reveal_strlit("f8");
                reveal_strlit("arrowright");
                assert("f8"@.len() != "arrowright"@.len());
            }
            assert("f8"@ != "right"@) by {
                reveal_strlit("f8");
                reveal_strlit("right");
                assert("f8"@.len() != "right"@.len());
            }
            assert("f8"@ != "f1"@) by {
                reveal_strlit("f8");
                reveal_strlit("f1");
                assert("f8"@[1] != "f1"@[1]);
            }
            assert("f8"@ != "f2"@) by {
                reveal_strlit("f8");
                reveal_strlit("f2");
                assert("f8"@[1] != "f2"@[1]);
            }
            assert("f8"@ != "f3"@) by {
                reveal_strlit("f8");
                reveal_strlit("f3");
                assert("f8"@[1] != "f3"@[1]);
            }
            assert("f8"@ != "f4"@) by {
                reveal_strlit("f8");
                reveal_strlit("f4");
                assert("f8"@[1] != "f4"@[1]);
            }
            assert("f8"@ != "f5"@) by {
                reveal_strlit("f8");
                reveal_strlit("f5");
                assert("f8"@[1] != "f5"@[1]);
            }
            assert("f8"@ != "f6"@) by {
                reveal_strlit("f8");
                reveal_strlit("f6");
                assert("f8"@[1] != "f6"@[1]);
            }
            assert("f8"@ != "f7"@) by {
                reveal_strlit("f8");
                reveal_strlit("f7");
                assert("f8"@[1] != "f7"@[1]);
            }
            assert(named_key_of_lower(key_name(k)) == Some(NamedKey::F8));
        },
        NamedKey::F9 => {
            assert("f9"@ != "enter"@) by {
                reveal_strlit("f9");
                reveal_strlit("enter");
                assert("f9"@.len() != "enter"@.len());
            }
            assert("f9"@ != "return"@) by {
                reveal_strlit("f9");
                reveal_strlit("return");
                assert("f9"@.len() != "return"@.len());
            }
            assert("f9"@ != "escape"@) by {
                reveal_strlit("f9");
                reveal_strlit("escape");
                assert("f9"@.len() != "escape"@.len());
            }
            assert("f9"@ != "esc"@) by {
                reveal_strlit("f9");
                reveal_strlit("esc");
                assert("f9"@.len() != "esc"@.len());
            }
            assert("f9"@ != "tab"@) by {
                reveal_strlit("f9");
                reveal_strlit("tab");
                assert("f9"@.len() != "tab"@.len());
            }
            assert("f9"@ != "space"@) by {
                reveal_strlit("f9");
                reveal_strlit("space");
                assert("f9"@.len() != "space"@.len());
            }
            assert("f9"@ != "backspace"@) by {
                reveal_strlit("f9");
                reveal_strlit("backspace");
                assert("f9"@.len() != "backspace"@.len());
            }
            assert("f9"@ != "delete"@) by {
                reveal_strlit("f9");
                reveal_strlit("delete");
                assert("f9"@.len() != "delete"@.len());
            }
            assert("f9"@ != "del"@) by {
                reveal_strlit("f9");
                reveal_strlit("del");
                assert("f9"@.len() != "del"@.len());
            }
            assert("f9"@ != "pageup"@) by {
                reveal_strlit("f9");
                reveal_strlit("pageup");
                assert("f9"@.len() != "pageup"@.len());
            }
            assert("f9"@ != "pagedown"@) by {
                reveal_strlit("f9");
                reveal_strlit("pagedown");
                assert("f9"@.len() != "pagedown"@.len());
            }
            assert("f9"@ != "home"@) by {
                reveal_strlit("f9");
                reveal_strlit("home");
                assert("f9"@.len() != "home"@.len());
            }
            assert("f9"@ != "end"@) by {
                reveal_strlit("f9");
                reveal_strlit("end");
                assert("f9"@.len() != "end"@.len());
            }
            assert("f9"@ != "arrowup"@) by {
                reveal_strlit("f9");
                reveal_strlit("arrowup");
                assert("f9"@.len() != "arrowup"@.len());
            }
            assert("f9"@ != "up"@) by {
                reveal_strlit("f9");
                reveal_strlit("up");
                assert("f9"@[0] != "up"@[0]);
            }
            assert("f9"@ != "arrowdown"@) by {
                reveal_strlit("f9");
                reveal_strlit("arrowdown");
                assert("f9"@.len() != "arrowdown"@.len());
            }
            assert("f9"@ != "down"@) by {
                reveal_strlit("f9");
                reveal_strlit("down");
                assert("f9"@.len() != "down"@.len());
            }
            assert("f9"@ != "arrowleft"@) by {
                reveal_strlit("f9");
                reveal_strlit("arrowleft");
                assert("f9"@.len() != "arrowleft"@.len());
            }
            assert("f9"@ != "left"@) by {
                reveal_strlit("f9");
                reveal_strlit("left");
                assert("f9"@.len() != "left"@.len());
            }
            assert("f9"@ != "arrowright"@) by {
                reveal_strlit("f9");
                reveal_strlit("arrowright");
                assert("f9"@.len() != "arrowright"@.len());
            }
            assert("f9"@ != "right"@) by {
                reveal_strlit("f9");
                reveal_strlit("right");
                assert("f9"@.len() != "right"@.len());
            }
            assert("f9"@ != "f1"@) by {
                reveal_strlit("f9");
                reveal_strlit("f1");
                assert("f9"@[1] != "f1"@[1]);
            }
            assert("f9"@ != "f2"@) by {
                reveal_strlit("f9");
                reveal_strlit("f2");
                assert("f9"@[1] != "f2"@[1]);
            }
            assert("f9"@ != "f3"@) by {
                reveal_strlit("f9");
                reveal_strlit("f3");
                assert("f9"@[1] != "f3"@[1]);
            }
            assert("f9"@ != "f4"@) by {
                reveal_strlit("f9");
                reveal_strlit("f4");
                assert("f9"@[1] != "f4"@[1]);
            }
            assert("f9"@ != "f5"@) by {
                reveal_strlit("f9");
                reveal_strlit("f5");
                assert("f9"@[1] != "f5"@[1]);
            }
            assert("f9"@ != "f6"@) by {
                reveal_strlit("f9");
                reveal_strlit("f6");
                assert("f9"@[1] != "f6"@[1]);
            }
            assert("f9"@ != "f7"@) by {
                reveal_strlit("f9");
                reveal_strlit("f7");
                assert("f9"@[1] != "f7"@[1]);
            }
            assert("f9"@ != "f8"@) by {
                reveal_strlit("f9");
                reveal_strlit("f8");
                assert("f9"@[1] != "f8"@[1]);
            }
            assert(named_key_of_lower(key_name(k)) == Some(NamedKey::F9));
        },
        NamedKey::F10 => {
            assert("f10"@ != "enter"@) by {
                reveal_strlit("f10");
                reveal_strlit("enter");
                assert("f10"@.len() != "enter"@.len());
            }
            assert("f10"@ != "return"@) by {
                reveal_strlit("f10");
                reveal_strlit("return");
                assert("f10"@.len() != "return"@.len());
            }
            assert("f10"@ != "escape"@) by {
                reveal_strlit("f10");
                reveal_strlit("escape");
                assert("f10"@.len() != "escape"@.len());
            }
            assert("f10"@ != "esc"@) by {
                reveal_strlit("f10");
                reveal_strlit("esc");
                assert("f10"@[0] != "esc"@[0]);
            }
            assert("f10"@ != "tab"@) by {
                reveal_strlit("f10");
                reveal_strlit("tab");
                assert("f10"@[0] != "tab"@[0]);
            }
            assert("f10"@ != "space"@) by {
                reveal_strlit("f10");
                reveal_strlit("space");
                assert("f10"@.len() != "space"@.len());
            }
            assert("f10"@ != "backspace"@) by {
                reveal_strlit("f10");
                reveal_strlit("backspace");
                assert("f10"@.len() != "backspace"@.len());
            }
            assert("f10"@ != "delete"@) by {
                reveal_strlit("f10");
                reveal_strlit("delete");
                assert("f10"@.len() != "delete"@.len());
            }
            assert("f10"@ != "del"@) by {
                reveal_strlit("f10");
                reveal_strlit("del");
                assert("f10"@[0] != "del"@[0]);
            }
            assert("f10"@ != "pageup"@) by {
                reveal_strlit("f10");
                reveal_strlit("pageup");
                assert("f10"@.len() != "pageup"@.len());
            }
            assert("f10"@ != "pagedown"@) by {
                reveal_strlit("f10");
                reveal_strlit("pagedown");
                assert("f10"@.len() != "pagedown"@.len());
            }
            assert("f10"@ != "home"@) by {
                reveal_strlit("f10");
                reveal_strlit("home");
                assert("f10"@.len() != "home"@.len());
            }
            assert("f10"@ != "end"@) by {
                reveal_strlit("f10");
                reveal_strlit("end");
                assert("f10"@[0] != "end"@[0]);
            }
            assert("f10"@ != "arrowup"@) by {
                reveal_strlit("f10");
                reveal_strlit("arrowup");
                assert("f10"@.len() != "arrowup"@.len());
            }
            assert("f10"@ != "up"@) by {
                reveal_strlit("f10");
                reveal_strlit("up");
                assert("f10"@.len() != "up"@.len());
            }
            assert("f10"@ != "arrowdown"@) by {
                reveal_strlit("f10");
                reveal_strlit("arrowdown");
                assert("f10"@.len() != "arrowdown"@.len());
            }
            assert("f10"@ != "down"@) by {
                reveal_strlit("f10");
                reveal_strlit("down");
                assert("f10"@.len() != "down"@.len());
            }
            assert("f10"@ != "arrowleft"@) by {
                reveal_strlit("f10");
                reveal_strlit("arrowleft");
                assert("f10"@.len() != "arrowleft"@.len());
            }
            assert("f10"@ != "left"@) by {
                reveal_strlit("f10");
                reveal_strlit("left");
                assert("f10"@.len() != "left"@.len());
            }
            assert("f10"@ != "arrowright"@) by {
                reveal_strlit("f10");
                reveal_strlit("arrowright");
                assert("f10"@.len() != "arrowright"@.len());
            }
            assert("f10"@ != "right"@) by {
                reveal_strlit("f10");
                reveal_strlit("right");
                assert("f10"@.len() != "right"@.len());
            }
            assert("f10"@ != "f1"@) by {
                reveal_strlit("f10");
                reveal_strlit("f1");
                assert("f10"@.len() != "f1"@.len());
            }
            assert("f10"@ != "f2"@) by {
                reveal_strlit("f10");
                reveal_strlit("f2");
                assert("f10"@.len() != "f2"@.len());
            }
            assert("f10"@ != "f3"@) by {
                reveal_strlit("f10");
                reveal_strlit("f3");
                assert("f10"@.len() != "f3"@.len());
            }
            assert("f10"@ != "f4"@) by {
                reveal_strlit("f10");
                reveal_strlit("f4");
                assert("f10"@.len() != "f4"@.len());
            }
            assert("f10"@ != "f5"@) by {
                reveal_strlit("f10");
                reveal_strlit("f5");
                assert("f10"@.len() != "f5"@.len());
            }
            assert("f10"@ != "f6"@) by {
                reveal_strlit("f10");
                reveal_strlit("f6");
                assert("f10"@.len() != "f6"@.len());
            }
            assert("f10"@ != "f7"@) by {
                reveal_strlit("f10");
                reveal_strlit("f7");
                assert("f10"@.len() != "f7"@.len());
            }
            assert("f10"@ != "f8"@) by {
                reveal_strlit("f10");
                reveal_strlit("f8");
                assert("f10"@.len() != "f8"@.len());
            }
            assert("f10"@ != "f9"@) by {
                reveal_strlit("f10");
                reveal_strlit("f9");
                assert("f10"@.len() != "f9"@.len());
            }
            assert(named_key_of_lower(key_name(k)) == Some(NamedKey::F10));
        },
        NamedKey::F11 => {
            assert("f11"@ != "enter"@) by {
                reveal_strlit("f11");
                reveal_strlit("enter");
                assert("f11"@.len() != "enter"@.len());
            }
            assert("f11"@ != "return"@) by {
                reveal_strlit("f11");
                reveal_strlit("return");
                assert("f11"@.len() != "return"@.len());
            }
            assert("f11"@ != "escape"@) by {
                reveal_strlit("f11");
                reveal_strlit("escape");
                assert("f11"@.len() != "escape"@.len());
            }
            assert("f11"@ != "esc"@) by {
                reveal_strlit("f11");
                reveal_strlit("esc");
                assert("f11"@[0] != "esc"@[0]);
            }
            assert("f11"@ != "tab"@) by {
                reveal_strlit("f11");
                reveal_strlit("tab");
                assert("f11"@[0] != "tab"@[0]);
            }
            assert("f11"@ != "space"@) by {
                reveal_strlit("f11");
                reveal_strlit("space");
                assert("f11"@.len() != "space"@.len());
            }
            assert("f11"@ != "backspace"@) by {
                reveal_strlit("f11");
                reveal_strlit("backspace");
                assert("f11"@.len() != "backspace"@.len());
            }
            assert("f11"@ != "delete"@) by {
                reveal_strlit("f11");
                reveal_strlit("delete");
                assert("f11"@.len() != "delete"@.len());
            }
            assert("f11"@ != "del"@) by {
                reveal_strlit("f11");
                reveal_strlit("del");
                assert("f11"@[0] != "del"@[0]);
            }
            assert("f11"@ != "pageup"@) by {
                reveal_strlit("f11");
                reveal_strlit("pageup");
                assert("f11"@.len() != "pageup"@.len());
            }
            assert("f11"@ != "pagedown"@) by {
                reveal_strlit("f11");
                reveal_strlit("pagedown");
                assert("f11"@.len() != "pagedown"@.len());
            }
            assert("f11"@ != "home"@) by {
                reveal_strlit("f11");
                reveal_strlit("home");
                assert("f11"@.len() != "home"@.len());
            }
            assert("f11"@ != "end"@) by {
                reveal_strlit("f11");
                reveal_strlit("end");
                assert("f11"@[0] != "end"@[0]);
            }
            assert("f11"@ != "arrowup"@) by {
                reveal_strlit("f11");
                reveal_strlit("arrowup");
                assert("f11"@.len() != "arrowup"@.len());
            }
            assert("f11"@ != "up"@) by {
                reveal_strlit("f11");
                reveal_strlit("up");
                assert("f11"@.len() != "up"@.len());
            }
            assert("f11"@ != "arrowdown"@) by {
                reveal_strlit("f11");
                reveal_strlit("arrowdown");
                assert("f11"@.len() != "arrowdown"@.len());
            }
            assert("f11"@ != "down"@) by {
                reveal_strlit("f11");
                reveal_strlit("down");
                assert("f11"@.len() != "down"@.len());
            }
            assert("f11"@ != "arrowleft"@) by {
                reveal_strlit("f11");
                reveal_strlit("arrowleft");
                assert("f11"@.len() != "arrowleft"@.len());
            }
            assert("f11"@ != "left"@) by {
                reveal_strlit("f11");
                reveal_strlit("left");
                assert("f11"@.len() != "left"@.len());
            }
            assert("f11"@ != "arrowright"@) by {
                reveal_strlit("f11");
                reveal_strlit("arrowright");
                assert("f11"@.len() != "arrowright"@.len());
            }
            assert("f11"@ != "right"@) by {
                reveal_strlit("f11");
                reveal_strlit("right");
                assert("f11"@.len() != "right"@.len());
            }
            assert("f11"@ != "f1"@) by {
                reveal_strlit("f11");
                reveal_strlit("f1");
                assert("f11"@.len() != "f1"@.len());
            }
            assert("f11"@ != "f2"@) by {
                reveal_strlit("f11");
                reveal_strlit("f2");
                assert("f11"@.len() != "f2"@.len());
            }
            assert("f11"@ != "f3"@) by {
                reveal_strlit("f11");
                reveal_strlit("f3");
                assert("f11"@.len() != "f3"@.len());
            }
            assert("f11"@ != "f4"@) by {
                reveal_strlit("f11");
                reveal_strlit("f4");
                assert("f11"@.len() != "f4"@.len());
            }
            assert("f11"@ != "f5"@) by {
                reveal_strlit("f11");
                reveal_strlit("f5");
                assert("f11"@.len() != "f5"@.len());
            }
            assert("f11"@ != "f6"@) by {
                reveal_strlit("f11");
                reveal_strlit("f6");
                assert("f11"@.len() != "f6"@.len());
            }
            assert("f11"@ != "f7"@) by {
                reveal_strlit("f11");
                reveal_strlit("f7");
                assert("f11"@.len() != "f7"@.len());
            }
            assert("f11"@ != "f8"@) by {
                reveal_strlit("f11");
                reveal_strlit("f8");
                assert("f11"@.len() != "f8"@.len());
            }
            assert("f11"@ != "f9"@) by {
                reveal_strlit("f11");
                reveal_strlit("f9");
                assert("f11"@.len() != "f9"@.len());
            }
            assert("f11"@ != "f10"@) by {
                reveal_strlit("f11");
                reveal_strlit("f10");
                assert("f11"@[2] != "f10"@[2]);
            }
            assert(named_key_of_lower(key_name(k)) == Some(NamedKey::F11));
        },
        NamedKey::F12 => {
            assert("f12"@ != "enter"@) by {
                reveal_strlit("f12");
                reveal_strlit("enter");
                assert("f12"@.len() != "enter"@.len());
            }
            assert("f12"@ != "return"@) by {
                reveal_strlit("f12");
                reveal_strlit("return");
                assert("f12"@.len() != "return"@.len());
            }
            assert("f12"@ != "escape"@) by {
                reveal_strlit("f12");
                reveal_strlit("escape");
                assert("f12"@.len() != "escape"@.len());
            }
            assert("f12"@ != "esc"@) by {
                reveal_strlit("f12");
                reveal_strlit("esc");
                assert("f12"@[0] != "esc"@[0]);
            }
            assert("f12"@ != "tab"@) by {
                reveal_strlit("f12");
                reveal_strlit("tab");
                assert("f12"@[0] != "tab"@[0]);
            }
            assert("f12"@ != "space"@) by {
                reveal_strlit("f12");
                reveal_strlit("space");
                assert("f12"@.len() != "space"@.len());
            }
            assert("f12"@ != "backspace"@) by {
                reveal_strlit("f12");
                reveal_strlit("backspace");
                assert("f12"@.len() != "backspace"@.len());
            }
            assert("f12"@ != "delete"@) by {
                reveal_strlit("f12");
                reveal_strlit("delete");
                assert("f12"@.len() != "delete"@.len());
            }
            assert("f12"@ != "del"@) by {
                reveal_strlit("f12");
                reveal_strlit("del");
                assert("f12"@[0] != "del"@[0]);
            }
            assert("f12"@ != "pageup"@) by {
                reveal_strlit("f12");
                reveal_strlit("pageup");
                assert("f12"@.len() != "pageup"@.len());
            }
            assert("f12"@ != "pagedown"@) by {
                reveal_strlit("f12");
                reveal_strlit("pagedown");
                assert("f12"@.len() != "pagedown"@.len());
            }
            assert("f12"@ != "home"@) by {
                reveal_strlit("f12");
                reveal_strlit("home");
                assert("f12"@.len() != "home"@.len());
            }
            assert("f12"@ != "end"@) by {
                reveal_strlit("f12");
                reveal_strlit("end");
                assert("f12"@[0] != "end"@[0]);
            }
            assert("f12"@ != "arrowup"@) by {
                reveal_strlit("f12");
                reveal_strlit("arrowup");
                assert("f12"@.len() != "arrowup"@.len());
            }
            assert("f12"@ != "up"@) by {
                reveal_strlit("f12");
                reveal_strlit("up");
                assert("f12"@.len() != "up"@.len());
            }
            assert("f12"@ != "arrowdown"@) by {
                reveal_strlit("f12");
                reveal_strlit("arrowdown");
                assert("f12"@.len() != "arrowdown"@.len());
            }
            assert("f12"@ != "down"@) by {
                reveal_strlit("f12");
                reveal_strlit("down");
                assert("f12"@.len() != "down"@.len());
            }
            assert("f12"@ != "arrowleft"@) by {
                reveal_strlit("f12");
                reveal_strlit("arrowleft");
                assert("f12"@.len() != "arrowleft"@.len());
            }
            assert("f12"@ != "left"@) by {
                reveal_strlit("f12");
                reveal_strlit("left");
                assert("f12"@.len() != "left"@.len());
            }
            assert("f12"@ != "arrowright"@) by {
                reveal_strlit("f12");
                reveal_strlit("arrowright");
                assert("f12"@.len() != "arrowright"@.len());
            }
            assert("f12"@ != "right"@) by {
                reveal_strlit("f12");
                reveal_strlit("right");
                assert("f12"@.len() != "right"@.len());
            }
            assert("f12"@ != "f1"@) by {
                reveal_strlit("f12");
                reveal_strlit("f1");
                assert("f12"@.len() != "f1"@.len());
            }
            assert("f12"@ != "f2"@) by {
                reveal_strlit("f12");
                reveal_strlit("f2");
                assert("f12"@.len() != "f2"@.len());
            }
            assert("f12"@ != "f3"@) by {
                reveal_strlit("f12");
                reveal_strlit("f3");
                assert("f12"@.len() != "f3"@.len());
            }
            assert("f12"@ != "f4"@) by {
                reveal_strlit("f12");
                reveal_strlit("f4");
                assert("f12"@.len() != "f4"@.len());
            }
            assert("f12"@ != "f5"@) by {
                reveal_strlit("f12");
                reveal_strlit("f5");
                assert("f12"@.len() != "f5"@.len());
            }
            assert("f12"@ != "f6"@) by {
                reveal_strlit("f12");
                reveal_strlit("f6");
                assert("f12"@.len() != "f6"@.len());
            }
            assert("f12"@ != "f7"@) by {
                reveal_strlit("f12");
                reveal_strlit("f7");
                assert("f12"@.len() != "f7"@.len());
            }
            assert("f12"@ != "f8"@) by {
                reveal_strlit("f12");
                reveal_strlit("f8");
                assert("f12"@.len() != "f8"@.len());
            }
            assert("f12"@ != "f9"@) by {
                reveal_strlit("f12");
                reveal_strlit("f9");
                assert("f12"@.len() != "f9"@.len());
            }
            assert("f12"@ != "f10"@) by {
                reveal_strlit("f12");
                reveal_strlit("f10");
                assert("f12"@[2] != "f10"@[2]);
            }
            assert("f12"@ != "f11"@) by {
                reveal_strlit("f12");
                reveal_strlit("f11");
                assert("f12"@[2] != "f11"@[2]);
            }
            assert(named_key_of_lower(key_name(k)) == Some(NamedKey::F12));
        },
        NamedKey::Other => {},
    }
}

/// The named key a binding name spells, case-insensitively.
pub open spec fn named_key_spec(s: Seq<char>) -> Option<NamedKey> {
    named_key_of_lower(str_lowercase(s))
}

/// Parsing of the key segment of a combo.
pub open spec fn parse_key_token_spec(s: Seq<char>, lowercase: bool) -> Result<TokenView, Seq<char>> {
    match named_key_spec(s) {
        Some(n) => Ok(TokenView::Named(n)),
        None => if s.len() != 1 {
            Err("unknown key `"@ + s + "`"@)
        } else if lowercase {
            Ok(TokenView::Char(char_lowercase(s[0])))
        } else {
            Ok(TokenView::Char(seq![s[0]]))
        },
    }
}

/// One modifier name applied to `m`.
pub open spec fn apply_modifier_spec(m: Mods, seg: Seq<char>) -> Result<Mods, Seq<char>> {
    apply_lowered_modifier_spec(m, str_lowercase(seg))
}

/// One already lowercased modifier name `l` applied to `m`.
pub open spec fn apply_lowered_modifier_spec(m: Mods, l: Seq<char>) -> Result<Mods, Seq<char>> {
    if l == "ctrl"@ || l == "control"@ {
        Ok(Mods { ctrl: true, ..m })
    } else if l == "shift"@ {
        Ok(Mods { shift: true, ..m })
    } else if l == "alt"@ || l == "option"@ {
        Ok(Mods { alt: true, ..m })
    } else if l == "cmd"@ || l == "super"@ || l == "win"@ || l == "meta"@ {
        Ok(Mods { cmd: true, ..m })
    } else {
        Err("unknown modifier `"@ + l + "`"@)
    }
}

/// Modifier names applied in order; the first unknown one is the error.
pub open spec fn apply_modifiers_spec(m: Mods, segs: Seq<Seq<char>>) -> Result<Mods, Seq<char>>
    decreases segs.len(),
{
    if segs.len() == 0 {
        Ok(m)
    } else {
        match apply_modifier_spec(m, segs[0]) {
            Err(e) => Err(e),
            Ok(m2) => apply_modifiers_spec(m2, segs.drop_first()),
        }
    }
}

/// Splits a combo into its modifier part and its key segment.
pub open spec fn combo_parts(s: Seq<char>) -> Result<(Seq<char>, Seq<char>), Seq<char>> {
    let n = s.len() as int;
    if n >= 2 && s[n - 1] == '+' && s[n - 2] == '+' {
        Ok((s.subrange(0, n - 2), seq!['+']))
    } else if s[n - 1] == '+' {
        Err("binding ends with a trailing `+` separator"@)
    } else {
        let i = find_last(s, '+');
        if i >= 0 {
            Ok((s.subrange(0, i), s.subrange(i + 1, n)))
        } else {
            Ok((Seq::<char>::empty(), s))
        }
    }
}

/// Parsing of a `ctrl+shift+v` style combo. The final segment is the key;
/// the rest are modifiers.
pub open spec fn parse_combo_spec(s: Seq<char>, lowercase: bool) -> Result<(Mods, TokenView), Seq<char>> {
    if s.len() == 0 {
        Err("empty key combo"@)
    } else if s == seq!['+'] {
        Ok((no_mods(), TokenView::Char(seq!['+'])))
    } else {
        match combo_parts(s) {
            Err(e) => Err(e),
            Ok((ms, k)) => {
                let mm = if ms.len() == 0 {
                    Ok(no_mods())
                } else {
                    apply_modifiers_spec(no_mods(), split_spec(ms, '+'))
                };
                match mm {
                    Err(e) => Err(e),
                    Ok(mods) => match parse_key_token_spec(k, lowercase) {
                        Err(e) => Err(e),
                        Ok(t) => Ok((mods, t)),
                    },
                }
            },
        }
    }
}

/// The mode scope a binding string names and the rest of it.
pub open spec fn scope_split(t: Seq<char>) -> (ModeClass, Seq<char>) {
    match strip_prefix_spec(t, "normal:"@) {
        Some(r) => (ModeClass::Normal, r),
        None => match strip_prefix_spec(t, "visual:"@) {
            Some(r) => (ModeClass::Visual, r),
            None => (ModeClass::Global, t),
        },
    }
}

/// The head of a binding: the text before its first space, trimmed.
pub open spec fn chord_head(rest: Seq<char>) -> Seq<char> {
    let sp = find_first(rest, ' ');
    if sp >= 0 {
        trim_spec(rest.subrange(0, sp))
    } else {
        trim_spec(rest)
    }
}

/// The chord tail of a binding: the trimmed text after its first space, if not empty.
pub open spec fn chord_tail_text(rest: Seq<char>) -> Option<Seq<char>> {
    let sp = find_first(rest, ' ');
    if sp >= 0 && trim_spec(rest.subrange(sp + 1, rest.len() as int)).len() > 0 {
        Some(trim_spec(rest.subrange(sp + 1, rest.len() as int)))
    } else {
        None
    }
}

/// Parsing of a binding string into its mode scope and key.
/// Grammar: `[normal:|visual:] mods*('+') key [SPACE tail-mods*('+') tail-key]`.
pub open spec fn parse_binding_spec(raw: Seq<char>) -> Result<(ModeClass, BindingView), Seq<char>> {
    let trimmed = trim_spec(raw);
    if trimmed.len() == 0 {
        Err("empty binding"@)
    } else {
        let (scope, rest) = scope_split(trimmed);
        match parse_combo_spec(chord_head(rest), true) {
            Err(e) => Err(e),
            Ok((mods, token)) => match chord_tail_text(rest) {
                None => Ok((scope, BindingView { mods, token, chord_tail: None })),
                Some(t) => match parse_combo_spec(t, false) {
                    Err(e) => Err(e),
                    Ok((tm, tt)) => Ok(
                        (scope, BindingView { mods, token, chord_tail: Some((tm, tt)) }),
                    ),
                },
            },
        }
    }
}

// ── Parsing: implementation ─────────────────────────────────────────────────

fn named_key_from_name(s: &[char]) -> (r: Option<NamedKey>)
    ensures
        r == named_key_spec(s@),
{
    let n = lowercase_chars(s);
    named_key_of_lowered(n.as_slice())
}

/// The named key an already lowercased binding name spells.
pub fn named_key_of_lowered(n: &[char]) -> (r: Option<NamedKey>)
    ensures
        r == named_key_of_lower(n@),
{
    if is_lit(n, "enter") || is_lit(n, "return") {
        Some(NamedKey::Enter)
    } else if is_lit(n, "escape") || is_lit(n, "esc") {
        Some(NamedKey::Escape)
    } else if is_lit(n, "tab") {
        Some(NamedKey::Tab)
    } else if is_lit(n, "space") {
        Some(NamedKey::Space)
    } else if is_lit(n, "backspace") {
        Some(NamedKey::Backspace)
    } else if is_lit(n, "delete") || is_lit(n, "del") {
        Some(NamedKey::Delete)
    } else if is_lit(n, "pageup") {
        Some(NamedKey::PageUp)
    } else if is_lit(n, "pagedown") {
        Some(NamedKey::PageDown)
    } else if is_lit(n, "home") {
        Some(NamedKey::Home)
    } else if is_lit(n, "end") {
        Some(NamedKey::End)
    } else if is_lit(n, "arrowup") || is_lit(n, "up") {
        Some(NamedKey::ArrowUp)
    } else if is_lit(n, "arrowdown") || is_lit(n, "down") {
        Some(NamedKey::ArrowDown)
    } else if is_lit(n, "arrowleft") || is_lit(n, "left") {
        Some(NamedKey::ArrowLeft)
    } else if is_lit(n, "arrowright") || is_lit(n, "right") {
        Some(NamedKey::ArrowRight)
    } else if is_lit(n, "f1") {
        Some(NamedKey::F1)
    } else if is_lit(n, "f2") {
        Some(NamedKey::F2)
    } else if is_lit(n, "f3") {
        Some(NamedKey::F3)
    } else if is_lit(n, "f4") {
        Some(NamedKey::F4)
    } else if is_lit(n, "f5") {
        Some(NamedKey::F5)
    } else if is_lit(n, "f6") {
        Some(NamedKey::F6)
    } else if is_lit(n, "f7") {
        Some(NamedKey::F7)
    } else if is_lit(n, "f8") {
        Some(NamedKey::F8)
    } else if is_lit(n, "f9") {
        Some(NamedKey::F9)
    } else if is_lit(n, "f10") {
        Some(NamedKey::F10)
    } else if is_lit(n, "f11") {
        Some(NamedKey::F11)
    } else if is_lit(n, "f12") {
        Some(NamedKey::F12)
    } else {
        None
    }
}

/// `prefix` + `mid` + `suffix` as a `String`.
fn wrap_text(prefix: &str, mid: &[char], suffix: &str) -> (r: String)
    ensures
        r@ == prefix@ + mid@ + suffix@,
{
    let mut v = str_chars(prefix);
    push_all(&mut v, mid);
    push_str(&mut v, suffix);
    chars_to_string(v.as_slice())
}

fn parse_key_token(s: &[char], lowercase: bool) -> (r: Result<KeyToken, String>)
    ensures
        match r {
            Ok(t) => parse_key_token_spec(s@, lowercase) == Ok::<TokenView, Seq<char>>(t@),
            Err(e) => parse_key_token_spec(s@, lowercase) == Err::<TokenView, Seq<char>>(e@),
        },
{
    if let Some(named) = named_key_from_name(s) {
        return Ok(KeyToken::Named(named));
    }
    if s.len() != 1 {
        return Err(wrap_text("unknown key `", s, "`"));
    }
    let c = s[0];
    let stored = if lowercase {
        let l = lowercase_char(c);
        chars_to_string(l.as_slice())
    } else {
        let v = vec![c];
        proof {
            assert(v@ =~= seq![c]);
        }
        chars_to_string(v.as_slice())
    };
    Ok(KeyToken::Char(stored))
}

fn apply_modifier(mods: &mut Mods, m: &[char]) -> (r: Result<(), String>)
    ensures
        match apply_modifier_spec(*old(mods), m@) {
            Ok(m2) => r is Ok && *final(mods) == m2,
            Err(e) => r matches Err(x) && x@ == e && *final(mods) == *old(mods),
        },
{
    let l = lowercase_chars(m);
    apply_lowered_modifier(mods, l.as_slice())
}

/// Applies the already lowercased modifier name `l` to `mods`; an unknown
/// name is an error and leaves `mods` as it was.
pub fn apply_lowered_modifier(mods: &mut Mods, l: &[char]) -> (r: Result<(), String>)
    ensures
        match apply_lowered_modifier_spec(*old(mods), l@) {
            Ok(m2) => r is Ok && *final(mods) == m2,
            Err(e) => r matches Err(x) && x@ == e && *final(mods) == *old(mods),
        },
{
    if is_lit(l, "ctrl") || is_lit(l, "control") {
        mods.ctrl = true;
    } else if is_lit(l, "shift") {
        mods.shift = true;
    } else if is_lit(l, "alt") || is_lit(l, "option") {
        mods.alt = true;
    } else if is_lit(l, "cmd") || is_lit(l, "super") || is_lit(l, "win") || is_lit(l, "meta") {
        mods.cmd = true;
    } else {
        return Err(wrap_text("unknown modifier `", l, "`"));
    }
    Ok(())
}

proof fn lemma_split_step(s: Seq<char>, i: int)
    requires
        find_first(s, '+') == i,
        0 <= i < s.len(),
    ensures
        split_spec(s, '+') == seq![s.subrange(0, i)] + split_spec(s.subrange(i + 1, s.len() as int), '+'),
{
}

proof fn lemma_split_last(s: Seq<char>)
    requires
        find_first(s, '+') == -1,
    ensures
        split_spec(s, '+') == seq![s],
{
}

/// Applies every `+`-separated modifier name of `ms` in order.
fn apply_modifiers(ms: &[char]) -> (r: Result<Mods, String>)
    ensures
        match r {
            Ok(m) => apply_modifiers_spec(no_mods(), split_spec(ms@, '+')) == Ok::<Mods, Seq<char>>(m),
            Err(e) => apply_modifiers_spec(no_mods(), split_spec(ms@, '+')) == Err::<Mods, Seq<char>>(e@),
        },
{
    let mut mods = mods_none();
    let mut rest: Vec<char> = slice_chars(ms, 0, ms.len());
    proof {
        assert(rest@ =~= ms@);
    }
    loop
        invariant
            apply_modifiers_spec(no_mods(), split_spec(ms@, '+')) == apply_modifiers_spec(
                mods,
                split_spec(rest@, '+'),
            ),
        decreases rest@.len(),
    {
        let found = find_char(rest.as_slice(), '+');
        match found {
            Some(i) => {
                proof {
                    lemma_find_from_range(rest@, '+', 0);
                    assert(i < rest@.len());
                    lemma_split_step(rest@, i as int);
                    let segs = split_spec(rest@, '+');
                    assert(segs[0] == rest@.subrange(0, i as int));
                    assert(segs.drop_first() =~= split_spec(
                        rest@.subrange(i + 1, rest@.len() as int),
                        '+',
                    ));
                }
                let seg = slice_chars(rest.as_slice(), 0, i);
                match apply_modifier(&mut mods, seg.as_slice()) {
                    Ok(()) => {},
                    Err(e) => {
                        return Err(e);
                    },
                }
                let rl = rest.len();
                rest = slice_chars(rest.as_slice(), i + 1, rl);
            },
            None => {
                proof {
                    lemma_split_last(rest@);
                    let segs = split_spec(rest@, '+');
                    assert(segs[0] == rest@);
                    assert(segs.drop_first() =~= Seq::<Seq<char>>::empty());
                }
                let seg = slice_chars(rest.as_slice(), 0, rest.len());
                proof {
                    assert(seg@ =~= rest@);
                }
                match apply_modifier(&mut mods, seg.as_slice()) {
                    Ok(()) => {},
                    Err(e) => {
                        return Err(e);
                    },
                }
                proof {
                    assert(apply_modifiers_spec(mods, Seq::<Seq<char>>::empty()) == Ok::<
                        Mods,
                        Seq<char>,
                    >(mods));
                }
                return Ok(mods);
            },
        }
    }
}

fn parse_combo(s: &[char], lowercase: bool) -> (r: Result<(Mods, KeyToken), String>)
    ensures
        match r {
            Ok((m, t)) => parse_combo_spec(s@, lowercase) == Ok::<(Mods, TokenView), Seq<char>>(
                (m, t@),
            ),
            Err(e) => parse_combo_spec(s@, lowercase) == Err::<(Mods, TokenView), Seq<char>>(e@),
        },
{
    if s.len() == 0 {
        return Err(owned("empty key combo"));
    }
    if s.len() == 1 && s[0] == '+' {
        proof {
            assert(s@ =~= seq!['+']);
        }
        let v = vec!['+'];
        proof {
            assert(v@ =~= seq!['+']);
        }
        return Ok((mods_none(), KeyToken::Char(chars_to_string(v.as_slice()))));
    }
    proof {
        assert(s@ != seq!['+']);
    }
    let n = s.len();
    let (modifier_str, key_seg): (Vec<char>, Vec<char>) = if n >= 2 && s[n - 1] == '+' && s[n
        - 2] == '+' {
        let v = vec!['+'];
        proof {
            assert(v@ =~= seq!['+']);
        }
        (slice_chars(s, 0, n - 2), v)
    } else if s[n - 1] == '+' {
        return Err(owned("binding ends with a trailing `+` separator"));
    } else {
        match rfind_char(s, '+') {
            Some(i) => {
                proof {
                    lemma_rfind_range(s@, '+', s@.len() as int);
                }
                (slice_chars(s, 0, i), slice_chars(s, i + 1, n))
            },
            None => (Vec::new(), slice_chars(s, 0, n)),
        }
    };
    proof {
        assert(combo_parts(s@) == Ok::<(Seq<char>, Seq<char>), Seq<char>>(
            (modifier_str@, key_seg@),
        )) by {
            if !(n >= 2 && s@[n - 1] == '+' && s@[n - 2] == '+') && find_last(s@, '+') < 0 {
                assert(key_seg@ =~= s@);
                assert(modifier_str@ =~= Seq::<char>::empty());
            }
        }
    }
    let mods = if modifier_str.len() == 0 {
        mods_none()
    } else {
        match apply_modifiers(modifier_str.as_slice()) {
            Ok(m) => m,
            Err(e) => {
                return Err(e);
            },
        }
    };
    match parse_key_token(key_seg.as_slice(), lowercase) {
        Ok(token) => Ok((mods, token)),
        Err(e) => Err(e),
    }
}

/// Parse a single binding string into its mode scope + `BindingKey`.
/// Grammar: `[normal:|visual:] mods*('+') key [SPACE tail-mods*('+') tail-key]`.
pub fn parse_binding(raw: &str) -> (r: Result<(ModeClass, BindingKey), String>)
    ensures
        match r {
            Ok((scope, key)) => parse_binding_spec(raw@) == Ok::<(ModeClass, BindingView), Seq<char>>(
                (scope, key@),
            ),
            Err(e) => parse_binding_spec(raw@) == Err::<(ModeClass, BindingView), Seq<char>>(
                e@,
            ),
        },
{
    let raw_chars = str_chars(raw);
    parse_binding_chars(raw_chars.as_slice())
}

fn parse_binding_chars(raw: &[char]) -> (r: Result<(ModeClass, BindingKey), String>)
    ensures
        match r {
            Ok((scope, key)) => parse_binding_spec(raw@) == Ok::<(ModeClass, BindingView), Seq<char>>(
                (scope, key@),
            ),
            Err(e) => parse_binding_spec(raw@) == Err::<(ModeClass, BindingView), Seq<char>>(
                e@,
            ),
        },
{
    let trimmed = trim(raw);
    if trimmed.len() == 0 {
        return Err(owned("empty binding"));
    }
    let (scope, rest): (ModeClass, Vec<char>) = match strip_prefix(trimmed.as_slice(), "normal:") {
        Some(r) => (ModeClass::Normal, r),
        None => match strip_prefix(trimmed.as_slice(), "visual:") {
            Some(r) => (ModeClass::Visual, r),
            None => (ModeClass::Global, trimmed),
        },
    };
    proof {
        assert(scope_split(trim_spec(raw@)) == (scope, rest@));
    }
    let sp = find_char(rest.as_slice(), ' ');
    let (head, tail): (Vec<char>, Option<Vec<char>>) = match sp {
        Some(i) => {
            proof {
                lemma_find_from_range(rest@, ' ', 0);
            }
            let h = slice_chars(rest.as_slice(), 0, i);
            let t = slice_chars(rest.as_slice(), i + 1, rest.len());
            let ht = trim(h.as_slice());
            let tt = trim(t.as_slice());
            if tt.len() > 0 {
                (ht, Some(tt))
            } else {
                (ht, None)
            }
        },
        None => (trim(rest.as_slice()), None),
    };
    proof {
        assert(chord_head(rest@) == head@);
        assert(match tail {
            Some(t) => chord_tail_text(rest@) == Some(t@),
            None => chord_tail_text(rest@) is None,
        });
    }
    let (mods, token) = match parse_combo(head.as_slice(), true) {
        Ok(v) => v,
        Err(e) => {
            return Err(e);
        },
    };
    let chord_tail = match tail {
        Some(t) => match parse_combo(t.as_slice(), false) {
            Ok((tm, tt)) => Some((tm, tt)),
            Err(e) => {
                return Err(e);
            },
        },
        None => None,
    };
    Ok((scope, BindingKey { mods, token, chord_tail }))
}


// ── Action registry ─────────────────────────────────────────────────────────

/// Runtime context a few actions need at build time.
#[derive(Clone, Copy, Debug)]
pub struct DispatchCtx {
    pub grid_rows: usize,
    /// Used by `cycle_mode` (Ctrl+.) to pick the next mode.
    pub mode: InputModeKind,
}

/// A `Copy` projection of `InputMode` carrying only what the registry needs.
#[derive(Clone, Copy, Debug, PartialEq, Eq, Structural)]
pub enum InputModeKind {
    Insert,
    Normal,
    Visual,
    Other,
}

/// The kind of an input mode.
pub open spec fn mode_kind(mode: InputMode) -> InputModeKind {
    match mode {
        InputMode::Insert => InputModeKind::Insert,
        InputMode::Normal => InputModeKind::Normal,
        InputMode::Visual { .. } => InputModeKind::Visual,
        _ => InputModeKind::Other,
    }
}

impl InputModeKind {
    pub fn of(mode: &InputMode) -> (r: Self)
        ensures
            r == mode_kind(*mode),
    {
        match mode {
            InputMode::Insert => InputModeKind::Insert,
            InputMode::Normal => InputModeKind::Normal,
            InputMode::Visual { .. } => InputModeKind::Visual,
            _ => InputModeKind::Other,
        }
    }
}

/// The mode Ctrl+. switches to: Insert → Normal → Visual → Insert.
pub open spec fn cycle_mode_spec(kind: InputModeKind) -> InputMode {
    match kind {
        InputModeKind::Insert => InputMode::Normal,
        InputModeKind::Normal => visual_origin(),
        _ => InputMode::Insert,
    }
}

fn cycle_mode_next(kind: InputModeKind) -> (m: InputMode)
    ensures
        m == cycle_mode_spec(kind),
{
    match kind {
        InputModeKind::Insert => InputMode::Normal,
        InputModeKind::Normal => visual_mode_init(),
        _ => InputMode::Insert,
    }
}

/// The action a user-bindable name stands for. `"none"` is not here: it is the
/// reserved keyword that disables a binding.
pub open spec fn registry_action(n: Seq<char>, ctx: DispatchCtx) -> Option<Action> {
    if n == "paste"@ {
        Some(Action::Paste)
    }     else if n == "copy"@ {
        Some(Action::Copy)
    }     else if n == "new_tab"@ {
        Some(Action::NewTab)
    }     else if n == "close_tab"@ {
        Some(Action::CloseTab)
    }     else if n == "next_tab"@ {
        Some(Action::NextTab)
    }     else if n == "prev_tab"@ {
        Some(Action::PrevTab)
    }     else if n == "move_tab_left"@ {
        Some(Action::MoveTabLeft)
    }     else if n == "move_tab_right"@ {
        Some(Action::MoveTabRight)
    }     else if n == "rename_tab"@ {
        Some(Action::RenameTab)
    }     else if n == "go_to_tab_1"@ {
        Some(Action::GoToTab(0))
    }     else if n == "go_to_tab_2"@ {
        Some(Action::GoToTab(1))
    }     else if n == "go_to_tab_3"@ {
        Some(Action::GoToTab(2))
    }     else if n == "go_to_tab_4"@ {
        Some(Action::GoToTab(3))
    }     else if n == "go_to_tab_5"@ {
        Some(Action::GoToTab(4))
    }     else if n == "go_to_tab_6"@ {
        Some(Action::GoToTab(5))
    }     else if n == "go_to_tab_7"@ {
        Some(Action::GoToTab(6))
    }     else if n == "go_to_tab_8"@ {
        Some(Action::GoToTab(7))
    }     else if n == "go_to_tab_9"@ {
        Some(Action::GoToTab(8))
    }     else if n == "split_horizontal"@ {
        Some(Action::SplitH)
    }     else if n == "split_vertical"@ {
        Some(Action::SplitV)
    }     else if n == "auto_split"@ {
        Some(Action::AutoSplit)
    }     else if n == "close_pane"@ {
        Some(Action::ClosePane)
    }     else if n == "focus_left"@ {
        Some(Action::FocusLeft)
    }     else if n == "focus_right"@ {
        Some(Action::FocusRight)
    }     else if n == "focus_up"@ {
        Some(Action::FocusUp)
    }     else if n == "focus_down"@ {
        Some(Action::FocusDown)
    }     else if n == "focus_next"@ {
        Some(Action::FocusNext)
    }     else if n == "zoom_pane"@ {
        Some(Action::ZoomPane)
    }     else if n == "rotate_panes_forward"@ {
        Some(Action::RotatePanesForward)
    }     else if n == "rotate_panes_backward"@ {
        Some(Action::RotatePanesBackward)
    }     else if n == "resize_pane_right"@ {
        Some(Action::ResizePaneRight)
    }     else if n == "resize_pane_left"@ {
        Some(Action::ResizePaneLeft)
    }     else if n == "resize_pane_down"@ {
        Some(Action::ResizePaneDown)
    }     else if n == "resize_pane_up"@ {
        Some(Action::ResizePaneUp)
    }     else if n == "scroll_page_up"@ {
        Some(Action::ScrollUp(ctx.grid_rows))
    }     else if n == "scroll_page_down"@ {
        Some(Action::ScrollDown(ctx.grid_rows))
    }     else if n == "scroll_to_top"@ {
        Some(Action::ScrollToTop)
    }     else if n == "scroll_to_bottom"@ {
        Some(Action::ScrollToBottom)
    }     else if n == "clear_scrollback"@ {
        Some(Action::ClearScrollback)
    }     else if n == "search_open"@ {
        Some(Action::SearchOpen)
    }     else if n == "search_next"@ {
        Some(Action::SearchNext)
    }     else if n == "search_prev"@ {
        Some(Action::SearchPrev)
    }     else if n == "increase_font_size"@ {
        Some(Action::IncreaseFontSize)
    }     else if n == "decrease_font_size"@ {
        Some(Action::DecreaseFontSize)
    }     else if n == "reset_font_size"@ {
        Some(Action::ResetFontSize)
    }     else if n == "open_config"@ {
        Some(Action::OpenConfig)
    }     else if n == "open_command_palette"@ {
        Some(Action::OpenCommandPalette)
    }     else if n == "toggle_fullscreen"@ {
        Some(Action::ToggleFullscreen)
    }     else if n == "toggle_log"@ {
        Some(Action::ToggleLog)
    }     else if n == "toggle_passthrough"@ {
        Some(Action::TogglePassthrough)
    }     else if n == "screenshot_open"@ {
        Some(Action::ScreenshotOpen)
    }     else if n == "quit"@ {
        Some(Action::Quit)
    }     else if n == "cycle_mode"@ {
        Some(Action::SetMode(cycle_mode_spec(ctx.mode)))
    }     else if n == "enter_normal_mode"@ {
        Some(Action::SetMode(InputMode::Normal))
    }     else if n == "ctrl_w_prefix"@ {
        Some(Action::CtrlWPrefix)
    } else {
        None
    }
}

/// Whether `n` is one of the user-bindable action names.
pub open spec fn is_registry_name(n: Seq<char>) -> bool {
    ||| n == "paste"@
    ||| n == "copy"@
    ||| n == "new_tab"@
    ||| n == "close_tab"@
    ||| n == "next_tab"@
    ||| n == "prev_tab"@
    ||| n == "move_tab_left"@
    ||| n == "move_tab_right"@
    ||| n == "rename_tab"@
    ||| n == "go_to_tab_1"@
    ||| n == "go_to_tab_2"@
    ||| n == "go_to_tab_3"@
    ||| n == "go_to_tab_4"@
    ||| n == "go_to_tab_5"@
    ||| n == "go_to_tab_6"@
    ||| n == "go_to_tab_7"@
    ||| n == "go_to_tab_8"@
    ||| n == "go_to_tab_9"@
    ||| n == "split_horizontal"@
    ||| n == "split_vertical"@
    ||| n == "auto_split"@
    ||| n == "close_pane"@
    ||| n == "focus_left"@
    ||| n == "focus_right"@
    ||| n == "focus_up"@
    ||| n == "focus_down"@
    ||| n == "focus_next"@
    ||| n == "zoom_pane"@
    ||| n == "rotate_panes_forward"@
    ||| n == "rotate_panes_backward"@
    ||| n == "resize_pane_right"@
    ||| n == "resize_pane_left"@
    ||| n == "resize_pane_down"@
    ||| n == "resize_pane_up"@
    ||| n == "scroll_page_up"@
    ||| n == "scroll_page_down"@
    ||| n == "scroll_to_top"@
    ||| n == "scroll_to_bottom"@
    ||| n == "clear_scrollback"@
    ||| n == "search_open"@
    ||| n == "search_next"@
    ||| n == "search_prev"@
    ||| n == "increase_font_size"@
    ||| n == "decrease_font_size"@
    ||| n == "reset_font_size"@
    ||| n == "open_config"@
    ||| n == "open_command_palette"@
    ||| n == "toggle_fullscreen"@
    ||| n == "toggle_log"@
    ||| n == "toggle_passthrough"@
    ||| n == "screenshot_open"@
    ||| n == "quit"@
    ||| n == "cycle_mode"@
    ||| n == "enter_normal_mode"@
    ||| n == "ctrl_w_prefix"@
}

/// Map a user-bindable action name to a concrete `Action`. Returns `None` for
/// unknown names (the validator turns that into `KeymapError::UnknownAction`).
/// `"none"` is intentionally NOT here — it is the reserved disable keyword.
pub fn action_from_name(name: &str, ctx: DispatchCtx) -> (r: Option<Action>)
    ensures
        r == registry_action(name@, ctx),
{
    let n = str_chars(name);
    action_from_chars(n.as_slice(), ctx)
}

fn action_from_chars(n: &[char], ctx: DispatchCtx) -> (r: Option<Action>)
    ensures
        r == registry_action(n@, ctx),
{
    let a = if is_lit(n, "paste") {
        Action::Paste
    } else if is_lit(n, "copy") {
        Action::Copy
    } else if is_lit(n, "new_tab") {
        Action::NewTab
    } else if is_lit(n, "close_tab") {
        Action::CloseTab
    } else if is_lit(n, "next_tab") {
        Action::NextTab
    } else if is_lit(n, "prev_tab") {
        Action::PrevTab
    } else if is_lit(n, "move_tab_left") {
        Action::MoveTabLeft
    } else if is_lit(n, "move_tab_right") {
        Action::MoveTabRight
    } else if is_lit(n, "rename_tab") {
        Action::RenameTab
    } else if is_lit(n, "go_to_tab_1") {
        Action::GoToTab(0)
    } else if is_lit(n, "go_to_tab_2") {
        Action::GoToTab(1)
    } else if is_lit(n, "go_to_tab_3") {
        Action::GoToTab(2)
    } else if is_lit(n, "go_to_tab_4") {
        Action::GoToTab(3)
    } else if is_lit(n, "go_to_tab_5") {
        Action::GoToTab(4)
    } else if is_lit(n, "go_to_tab_6") {
        Action::GoToTab(5)
    } else if is_lit(n, "go_to_tab_7") {
        Action::GoToTab(6)
    } else if is_lit(n, "go_to_tab_8") {
        Action::GoToTab(7)
    } else if is_lit(n, "go_to_tab_9") {
        Action::GoToTab(8)
    } else if is_lit(n, "split_horizontal") {
        Action::SplitH
    } else if is_lit(n, "split_vertical") {
        Action::SplitV
    } else if is_lit(n, "auto_split") {
        Action::AutoSplit
    } else if is_lit(n, "close_pane") {
        Action::ClosePane
    } else if is_lit(n, "focus_left") {
        Action::FocusLeft
    } else if is_lit(n, "focus_right") {
        Action::FocusRight
    } else if is_lit(n, "focus_up") {
        Action::FocusUp
    } else if is_lit(n, "focus_down") {
        Action::FocusDown
    } else if is_lit(n, "focus_next") {
        Action::FocusNext
    } else if is_lit(n, "zoom_pane") {
        Action::ZoomPane
    } else if is_lit(n, "rotate_panes_forward") {
        Action::RotatePanesForward
    } else if is_lit(n, "rotate_panes_backward") {
        Action::RotatePanesBackward
    } else if is_lit(n, "resize_pane_right") {
        Action::ResizePaneRight
    } else if is_lit(n, "resize_pane_left") {
        Action::ResizePaneLeft
    } else if is_lit(n, "resize_pane_down") {
        Action::ResizePaneDown
    } else if is_lit(n, "resize_pane_up") {
        Action::ResizePaneUp
    } else if is_lit(n, "scroll_page_up") {
        Action::ScrollUp(ctx.grid_rows)
    } else if is_lit(n, "scroll_page_down") {
        Action::ScrollDown(ctx.grid_rows)
    } else if is_lit(n, "scroll_to_top") {
        Action::ScrollToTop
    } else if is_lit(n, "scroll_to_bottom") {
        Action::ScrollToBottom
    } else if is_lit(n, "clear_scrollback") {
        Action::ClearScrollback
    } else if is_lit(n, "search_open") {
        Action::SearchOpen
    } else if is_lit(n, "search_next") {
        Action::SearchNext
    } else if is_lit(n, "search_prev") {
        Action::SearchPrev
    } else if is_lit(n, "increase_font_size") {
        Action::IncreaseFontSize
    } else if is_lit(n, "decrease_font_size") {
        Action::DecreaseFontSize
    } else if is_lit(n, "reset_font_size") {
        Action::ResetFontSize
    } else if is_lit(n, "open_config") {
        Action::OpenConfig
    } else if is_lit(n, "open_command_palette") {
        Action::OpenCommandPalette
    } else if is_lit(n, "toggle_fullscreen") {
        Action::ToggleFullscreen
    } else if is_lit(n, "toggle_log") {
        Action::ToggleLog
    } else if is_lit(n, "toggle_passthrough") {
        Action::TogglePassthrough
    } else if is_lit(n, "screenshot_open") {
        Action::ScreenshotOpen
    } else if is_lit(n, "quit") {
        Action::Quit
    } else if is_lit(n, "cycle_mode") {
        Action::SetMode(cycle_mode_next(ctx.mode))
    } else if is_lit(n, "enter_normal_mode") {
        Action::SetMode(InputMode::Normal)
    } else if is_lit(n, "ctrl_w_prefix") {
        Action::CtrlWPrefix
    } else {
        return None;
    };
    Some(a)
}

/// Intern a validated action name to `&'static str`. Covers every name accepted
/// by `action_from_name`, including the parameterized ones that `name_of_action`
/// cannot reverse.
pub fn intern_known_name(n: &[char]) -> (r: Option<&'static str>)
    ensures
        r is Some <==> is_registry_name(n@),
        r matches Some(s) ==> s@ == n@,
        forall|ctx: DispatchCtx| (#[trigger] registry_action(n@, ctx)) is Some <==> r is Some,
{
    let r = intern_name(n);
    proof {
        assert forall|ctx: DispatchCtx| (#[trigger] registry_action(n@, ctx)) is Some <==> r is Some by {
            lemma_registry_names_in_sync(n@, ctx);
        }
    }
    r
}

fn intern_name(n: &[char]) -> (r: Option<&'static str>)
    ensures
        r is Some <==> is_registry_name(n@),
        r matches Some(s) ==> s@ == n@,
{
    if is_lit(n, "paste") {
        Some("paste")
    } else if is_lit(n, "copy") {
        Some("copy")
    } else if is_lit(n, "new_tab") {
        Some("new_tab")
    } else if is_lit(n, "close_tab") {
        Some("close_tab")
    } else if is_lit(n, "next_tab") {
        Some("next_tab")
    } else if is_lit(n, "prev_tab") {
        Some("prev_tab")
    } else if is_lit(n, "move_tab_left") {
        Some("move_tab_left")
    } else if is_lit(n, "move_tab_right") {
        Some("move_tab_right")
    } else if is_lit(n, "rename_tab") {
        Some("rename_tab")
    } else if is_lit(n, "go_to_tab_1") {
        Some("go_to_tab_1")
    } else if is_lit(n, "go_to_tab_2") {
        Some("go_to_tab_2")
    } else if is_lit(n, "go_to_tab_3") {
        Some("go_to_tab_3")
    } else if is_lit(n, "go_to_tab_4") {
        Some("go_to_tab_4")
    } else if is_lit(n, "go_to_tab_5") {
        Some("go_to_tab_5")
    } else if is_lit(n, "go_to_tab_6") {
        Some("go_to_tab_6")
    } else if is_lit(n, "go_to_tab_7") {
        Some("go_to_tab_7")
    } else if is_lit(n, "go_to_tab_8") {
        Some("go_to_tab_8")
    } else if is_lit(n, "go_to_tab_9") {
        Some("go_to_tab_9")
    } else if is_lit(n, "split_horizontal") {
        Some("split_horizontal")
    } else if is_lit(n, "split_vertical") {
        Some("split_vertical")
    } else if is_lit(n, "auto_split") {
        Some("auto_split")
    } else if is_lit(n, "close_pane") {
        Some("close_pane")
    } else if is_lit(n, "focus_left") {
        Some("focus_left")
    } else if is_lit(n, "focus_right") {
        Some("focus_right")
    } else if is_lit(n, "focus_up") {
        Some("focus_up")
    } else if is_lit(n, "focus_down") {
        Some("focus_down")
    } else if is_lit(n, "focus_next") {
        Some("focus_next")
    } else if is_lit(n, "zoom_pane") {
        Some("zoom_pane")
    } else if is_lit(n, "rotate_panes_forward") {
        Some("rotate_panes_forward")
    } else if is_lit(n, "rotate_panes_backward") {
        Some("rotate_panes_backward")
    } else if is_lit(n, "resize_pane_right") {
        Some("resize_pane_right")
    } else if is_lit(n, "resize_pane_left") {
        Some("resize_pane_left")
    } else if is_lit(n, "resize_pane_down") {
        Some("resize_pane_down")
    } else if is_lit(n, "resize_pane_up") {
        Some("resize_pane_up")
    } else if is_lit(n, "scroll_page_up") {
        Some("scroll_page_up")
    } else if is_lit(n, "scroll_page_down") {
        Some("scroll_page_down")
    } else if is_lit(n, "scroll_to_top") {
        Some("scroll_to_top")
    } else if is_lit(n, "scroll_to_bottom") {
        Some("scroll_to_bottom")
    } else if is_lit(n, "clear_scrollback") {
        Some("clear_scrollback")
    } else if is_lit(n, "search_open") {
        Some("search_open")
    } else if is_lit(n, "search_next") {
        Some("search_next")
    } else if is_lit(n, "search_prev") {
        Some("search_prev")
    } else if is_lit(n, "increase_font_size") {
        Some("increase_font_size")
    } else if is_lit(n, "decrease_font_size") {
        Some("decrease_font_size")
    } else if is_lit(n, "reset_font_size") {
        Some("reset_font_size")
    } else if is_lit(n, "open_config") {
        Some("open_config")
    } else if is_lit(n, "open_command_palette") {
        Some("open_command_palette")
    } else if is_lit(n, "toggle_fullscreen") {
        Some("toggle_fullscreen")
    } else if is_lit(n, "toggle_log") {
        Some("toggle_log")
    } else if is_lit(n, "toggle_passthrough") {
        Some("toggle_passthrough")
    } else if is_lit(n, "screenshot_open") {
        Some("screenshot_open")
    } else if is_lit(n, "quit") {
        Some("quit")
    } else if is_lit(n, "cycle_mode") {
        Some("cycle_mode")
    } else if is_lit(n, "enter_normal_mode") {
        Some("enter_normal_mode")
    } else if is_lit(n, "ctrl_w_prefix") {
        Some("ctrl_w_prefix")
    } else {
        None
    }
}

/// Every registry name resolves to an action and no other name does; the
/// interning table and the registry accept the same names.
pub proof fn lemma_registry_names_in_sync(n: Seq<char>, ctx: DispatchCtx)
    ensures
        registry_action(n, ctx) is Some <==> is_registry_name(n),
{
}


// ── The merged binding table ────────────────────────────────────────────────

/// One row of the binding table.
#[derive(Debug)]
struct Binding {
    scope: ModeClass,
    key: BindingKey,
    name: &'static str,
}

/// What a binding row is looked up by.
spec fn row_key(b: Binding) -> (ModeClass, BindingView) {
    (b.scope, b.key@)
}

/// No two rows share a lookup key.
spec fn rows_unique(s: Seq<Binding>) -> bool {
    forall|i: int, j: int| 0 <= i < s.len() && 0 <= j < s.len() && i != j ==> row_key(s[i]) != row_key(s[j])
}

/// The table as a map from (scope, key) to action name.
spec fn rows_map(s: Seq<Binding>) -> Map<(ModeClass, BindingView), Seq<char>>
    decreases s.len(),
{
    if s.len() == 0 {
        Map::empty()
    } else {
        rows_map(s.drop_last()).insert(row_key(s.last()), s.last().name@)
    }
}

proof fn lemma_rows_map_dom(s: Seq<Binding>, k: (ModeClass, BindingView))
    ensures
        rows_map(s).dom().contains(k) <==> exists|i: int| 0 <= i < s.len() && row_key(s[i]) == k,
    decreases s.len(),
{
    if s.len() > 0 {
        lemma_rows_map_dom(s.drop_last(), k);
        if rows_map(s).dom().contains(k) && row_key(s.last()) != k {
            let i = choose|i: int| 0 <= i < s.drop_last().len() && row_key(s.drop_last()[i]) == k;
            assert(row_key(s[i]) == k);
        }
        if exists|i: int| 0 <= i < s.len() && row_key(s[i]) == k {
            let i = choose|i: int| 0 <= i < s.len() && row_key(s[i]) == k;
            if i < s.len() - 1 {
                assert(row_key(s.drop_last()[i]) == k);
            }
        }
    }
}

proof fn lemma_rows_map_len(s: Seq<Binding>)
    requires
        rows_unique(s),
    ensures
        rows_map(s).dom().finite(),
        rows_map(s).dom().len() == s.len(),
    decreases s.len(),
{
    if s.len() > 0 {
        let d = s.drop_last();
        assert(rows_unique(d)) by {
            assert forall|i: int, j: int| 0 <= i < d.len() && 0 <= j < d.len() && i != j implies row_key(d[i]) != row_key(d[j]) by {
                assert(d[i] == s[i] && d[j] == s[j]);
            }
        }
        lemma_rows_map_len(d);
        lemma_rows_map_dom(d, row_key(s.last()));
        if rows_map(d).dom().contains(row_key(s.last())) {
            let i = choose|i: int| 0 <= i < d.len() && row_key(d[i]) == row_key(s.last());
            assert(d[i] == s[i]);
            assert(false);
        }
    }
}

proof fn lemma_rows_map_value(s: Seq<Binding>, i: int)
    requires
        rows_unique(s),
        0 <= i < s.len(),
    ensures
        rows_map(s).dom().contains(row_key(s[i])),
        rows_map(s)[row_key(s[i])] == s[i].name@,
    decreases s.len(),
{
    if i < s.len() - 1 {
        assert(rows_unique(s.drop_last()));
        lemma_rows_map_value(s.drop_last(), i);
        assert(row_key(s.last()) != row_key(s[i]));
    }
}

proof fn lemma_rows_map_update(s: Seq<Binding>, i: int, b: Binding)
    requires
        rows_unique(s),
        0 <= i < s.len(),
        row_key(b) == row_key(s[i]),
    ensures
        rows_map(s.update(i, b)) =~= rows_map(s).insert(row_key(b), b.name@),
        rows_unique(s.update(i, b)),
    decreases s.len(),
{
    let t = s.update(i, b);
    if i == s.len() - 1 {
        assert(t.drop_last() =~= s.drop_last());
        assert(rows_unique(s.drop_last()));
        lemma_rows_map_dom(s.drop_last(), row_key(b));
        assert(!rows_map(s.drop_last()).dom().contains(row_key(b))) by {
            if rows_map(s.drop_last()).dom().contains(row_key(b)) {
                let j = choose|j: int| 0 <= j < s.drop_last().len() && row_key(s.drop_last()[j]) == row_key(b);
                assert(row_key(s[j]) == row_key(s[i]));
            }
        }
    } else {
        assert(t.drop_last() =~= s.drop_last().update(i, b));
        assert(rows_unique(s.drop_last()));
        lemma_rows_map_update(s.drop_last(), i, b);
        assert(row_key(s.last()) != row_key(b));
    }
    assert forall|x: int, y: int| 0 <= x < t.len() && 0 <= y < t.len() && x != y implies row_key(t[x]) != row_key(t[y]) by {
        if x != i && y != i {
            assert(row_key(s[x]) != row_key(s[y]));
        } else if x == i {
            assert(row_key(s[i]) != row_key(s[y]));
        } else {
            assert(row_key(s[x]) != row_key(s[i]));
        }
    }
}

proof fn lemma_rows_map_remove(s: Seq<Binding>, i: int)
    requires
        rows_unique(s),
        0 <= i < s.len(),
    ensures
        rows_map(s.remove(i)) =~= rows_map(s).remove(row_key(s[i])),
        rows_unique(s.remove(i)),
    decreases s.len(),
{
    let t = s.remove(i);
    assert(rows_unique(s.drop_last()));
    if i == s.len() - 1 {
        assert(t =~= s.drop_last());
        lemma_rows_map_dom(s.drop_last(), row_key(s[i]));
        assert(!rows_map(s.drop_last()).dom().contains(row_key(s[i]))) by {
            if rows_map(s.drop_last()).dom().contains(row_key(s[i])) {
                let j = choose|j: int| 0 <= j < s.drop_last().len() && row_key(s.drop_last()[j]) == row_key(s[i]);
                assert(row_key(s[j]) == row_key(s[i]));
            }
        }
    } else {
        assert(t.drop_last() =~= s.drop_last().remove(i));
        assert(t.last() == s.last());
        lemma_rows_map_remove(s.drop_last(), i);
        assert(row_key(s.last()) != row_key(s[i]));
    }
}

proof fn lemma_rows_push(s: Seq<Binding>, b: Binding)
    requires
        rows_unique(s),
        !rows_map(s).dom().contains(row_key(b)),
    ensures
        rows_unique(s.push(b)),
        rows_map(s.push(b)) == rows_map(s).insert(row_key(b), b.name@),
{
    lemma_rows_map_dom(s, row_key(b));
    assert(s.push(b).drop_last() =~= s);
    assert forall|x: int, y: int| 0 <= x < s.len() + 1 && 0 <= y < s.len() + 1 && x != y implies row_key(s.push(b)[x]) != row_key(s.push(b)[y]) by {
        if x < s.len() && y < s.len() {
            assert(row_key(s[x]) != row_key(s[y]));
        } else if x == s.len() {
            assert(row_key(s[y]) != row_key(b));
        } else {
            assert(row_key(s[x]) != row_key(b));
        }
    }
}

fn token_eq(a: &KeyToken, b: &KeyToken) -> (r: bool)
    ensures
        r == (a@ == b@),
{
    match (a, b) {
        (KeyToken::Char(x), KeyToken::Char(y)) => x.eq(y),
        (KeyToken::Named(x), KeyToken::Named(y)) => *x == *y,
        _ => false,
    }
}

fn binding_key_eq(a: &BindingKey, b: &BindingKey) -> (r: bool)
    ensures
        r == (a@ == b@),
{
    if a.mods != b.mods || !token_eq(&a.token, &b.token) {
        return false;
    }
    match (&a.chord_tail, &b.chord_tail) {
        (Some((ma, ta)), Some((mb, tb))) => *ma == *mb && token_eq(ta, tb),
        (None, None) => true,
        _ => false,
    }
}

/// The merged binding table. Values are registry action names.
#[derive(Debug)]
pub struct KeyMap {
    rows: Vec<Binding>,
}

impl View for KeyMap {
    type V = Map<(ModeClass, BindingView), Seq<char>>;

    closed spec fn view(&self) -> Self::V {
        rows_map(self.rows@)
    }
}

impl KeyMap {
    #[verifier::type_invariant]
    spec fn inv(self) -> bool {
        rows_unique(self.rows@)
    }

    /// An empty table.
    pub fn new() -> (km: KeyMap)
        ensures
            km@ == Map::<(ModeClass, BindingView), Seq<char>>::empty(),
    {
        KeyMap { rows: Vec::new() }
    }

    /// Position of the row with this lookup key.
    fn position(&self, scope: ModeClass, key: &BindingKey) -> (r: Option<usize>)
        ensures
            r matches Some(i) ==> i < self.rows@.len() && row_key(self.rows@[i as int]) == (
                scope,
                key@,
            ),
            r is None ==> !self@.dom().contains((scope, key@)),
    {
        let mut i: usize = 0;
        while i < self.rows.len()
            invariant
                i <= self.rows@.len(),
                forall|j: int| 0 <= j < i ==> row_key(self.rows@[j]) != (scope, key@),
            decreases self.rows@.len() - i,
        {
            let row = &self.rows[i];
            if row.scope == scope && binding_key_eq(&row.key, key) {
                return Some(i);
            }
            i = i + 1;
        }
        proof {
            lemma_rows_map_dom(self.rows@, (scope, key@));
        }
        None
    }

    fn insert(&mut self, scope: ModeClass, key: BindingKey, name: &'static str)
        ensures
            final(self)@ == old(self)@.insert((scope, key@), name@),
    {
        proof {
            use_type_invariant(&*self);
        }
        let pos = self.position(scope, &key);
        let row = Binding { scope, key, name };
        let mut rows: Vec<Binding> = Vec::new();
        std::mem::swap(&mut rows, &mut self.rows);
        match pos {
            Some(i) => {
                proof {
                    lemma_rows_map_update(rows@, i as int, row);
                }
                rows.set(i, row);
            },
            None => {
                proof {
                    lemma_rows_push(rows@, row);
                }
                rows.push(row);
            },
        }
        self.rows = rows;
    }

    fn remove(&mut self, scope: ModeClass, key: &BindingKey)
        ensures
            final(self)@ == old(self)@.remove((scope, key@)),
    {
        proof {
            use_type_invariant(&*self);
        }
        match self.position(scope, key) {
            Some(i) => {
                proof {
                    lemma_rows_map_remove(self.rows@, i as int);
                }
                let mut rows: Vec<Binding> = Vec::new();
                std::mem::swap(&mut rows, &mut self.rows);
                rows.remove(i);
                self.rows = rows;
            },
            None => {
                proof {
                    assert(self@.remove((scope, key@)) =~= self@);
                }
            },
        }
    }

    /// How many bindings the table holds.
    pub fn len(&self) -> (r: usize)
        ensures
            r == self@.len(),
    {
        proof {
            use_type_invariant(self);
            lemma_rows_map_len(self.rows@);
        }
        self.rows.len()
    }

    /// Whether the table holds no binding.
    pub fn is_empty(&self) -> (r: bool)
        ensures
            r == (self@.len() == 0),
    {
        proof {
            use_type_invariant(self);
            lemma_rows_map_len(self.rows@);
        }
        self.rows.len() == 0
    }

    pub fn lookup(&self, scope: ModeClass, key: &BindingKey) -> (r: Option<&'static str>)
        ensures
            r matches Some(n) ==> self@.dom().contains((scope, key@)) && self@[(scope, key@)] == n@,
            r is None ==> !self@.dom().contains((scope, key@)),
    {
        proof {
            use_type_invariant(self);
        }
        match self.position(scope, key) {
            Some(i) => {
                proof {
                    lemma_rows_map_value(self.rows@, i as int);
                }
                Some(self.rows[i].name)
            },
            None => None,
        }
    }
}


// ── Built-in bindings ───────────────────────────────────────────────────────

fn mods_of(ctrl: bool, shift: bool, alt: bool, cmd: bool) -> (m: Mods)
    ensures
        m == (Mods { ctrl, shift, alt, cmd }),
{
    Mods { ctrl, shift, alt, cmd }
}

fn ch(c: &str) -> (t: KeyToken)
    ensures
        t@ == TokenView::Char(c@),
{
    KeyToken::Char(owned(c))
}

/// All built-in Global-scope shortcut bindings, as a map.
pub open spec fn default_map() -> Map<(ModeClass, BindingView), Seq<char>> {
    Map::<(ModeClass, BindingView), Seq<char>>::empty()
        .insert((ModeClass::Global, BindingView { mods: Mods { ctrl: true, shift: false, alt: false, cmd: false }, token: TokenView::Char("w"@), chord_tail: None }), "ctrl_w_prefix"@)
        .insert((ModeClass::Global, BindingView { mods: Mods { ctrl: true, shift: false, alt: false, cmd: false }, token: TokenView::Char("q"@), chord_tail: None }), "quit"@)
        .insert((ModeClass::Global, BindingView { mods: Mods { ctrl: true, shift: false, alt: false, cmd: false }, token: TokenView::Char(","@), chord_tail: None }), "open_config"@)
        .insert((ModeClass::Global, BindingView { mods: Mods { ctrl: true, shift: false, alt: false, cmd: false }, token: TokenView::Char("t"@), chord_tail: None }), "new_tab"@)
        .insert((ModeClass::Global, BindingView { mods: Mods { ctrl: true, shift: false, alt: false, cmd: false }, token: TokenView::Char("b"@), chord_tail: None }), "toggle_passthrough"@)
        .insert((ModeClass::Global, BindingView { mods: Mods { ctrl: true, shift: false, alt: false, cmd: false }, token: TokenView::Char("+"@), chord_tail: None }), "increase_font_size"@)
        .insert((ModeClass::Global, BindingView { mods: Mods { ctrl: true, shift: false, alt: false, cmd: false }, token: TokenView::Char("="@), chord_tail: None }), "increase_font_size"@)
        .insert((ModeClass::Global, BindingView { mods: Mods { ctrl: true, shift: false, alt: false, cmd: false }, token: TokenView::Char("-"@), chord_tail: None }), "decrease_font_size"@)
        .insert((ModeClass::Global, BindingView { mods: Mods { ctrl: true, shift: false, alt: false, cmd: false }, token: TokenView::Char("0"@), chord_tail: None }), "reset_font_size"@)
        .insert((ModeClass::Global, BindingView { mods: Mods { ctrl: true, shift: false, alt: false, cmd: false }, token: TokenView::Named(NamedKey::PageUp), chord_tail: None }), "prev_tab"@)
        .insert((ModeClass::Global, BindingView { mods: Mods { ctrl: true, shift: false, alt: false, cmd: false }, token: TokenView::Named(NamedKey::PageDown), chord_tail: None }), "next_tab"@)
        .insert((ModeClass::Global, BindingView { mods: Mods { ctrl: true, shift: false, alt: false, cmd: false }, token: TokenView::Named(NamedKey::Enter), chord_tail: None }), "toggle_fullscreen"@)
        .insert((ModeClass::Global, BindingView { mods: Mods { ctrl: true, shift: false, alt: false, cmd: false }, token: TokenView::Char("."@), chord_tail: None }), "cycle_mode"@)
        .insert((ModeClass::Global, BindingView { mods: Mods { ctrl: true, shift: false, alt: false, cmd: false }, token: TokenView::Char("\\"@), chord_tail: None }), "enter_normal_mode"@)
        .insert((ModeClass::Global, BindingView { mods: Mods { ctrl: true, shift: false, alt: false, cmd: false }, token: TokenView::Char("|"@), chord_tail: None }), "enter_normal_mode"@)
        .insert((ModeClass::Global, BindingView { mods: Mods { ctrl: true, shift: true, alt: false, cmd: false }, token: TokenView::Char("v"@), chord_tail: None }), "paste"@)
        .insert((ModeClass::Global, BindingView { mods: Mods { ctrl: true, shift: true, alt: false, cmd: false }, token: TokenView::Char("w"@), chord_tail: None }), "close_tab"@)
        .insert((ModeClass::Global, BindingView { mods: Mods { ctrl: true, shift: true, alt: false, cmd: false }, token: TokenView::Char("r"@), chord_tail: None }), "rename_tab"@)
        .insert((ModeClass::Global, BindingView { mods: Mods { ctrl: true, shift: true, alt: false, cmd: false }, token: TokenView::Char("k"@), chord_tail: None }), "clear_scrollback"@)
        .insert((ModeClass::Global, BindingView { mods: Mods { ctrl: true, shift: true, alt: false, cmd: false }, token: TokenView::Char("l"@), chord_tail: None }), "toggle_log"@)
        .insert((ModeClass::Global, BindingView { mods: Mods { ctrl: true, shift: true, alt: false, cmd: false }, token: TokenView::Char("p"@), chord_tail: None }), "open_command_palette"@)
        .insert((ModeClass::Global, BindingView { mods: Mods { ctrl: true, shift: true, alt: false, cmd: false }, token: TokenView::Named(NamedKey::ArrowUp), chord_tail: None }), "resize_pane_up"@)
        .insert((ModeClass::Global, BindingView { mods: Mods { ctrl: true, shift: true, alt: false, cmd: false }, token: TokenView::Named(NamedKey::ArrowDown), chord_tail: None }), "resize_pane_down"@)
        .insert((ModeClass::Global, BindingView { mods: Mods { ctrl: true, shift: true, alt: false, cmd: false }, token: TokenView::Named(NamedKey::ArrowRight), chord_tail: None }), "resize_pane_right"@)
        .insert((ModeClass::Global, BindingView { mods: Mods { ctrl: true, shift: true, alt: false, cmd: false }, token: TokenView::Named(NamedKey::ArrowLeft), chord_tail: None }), "resize_pane_left"@)
        .insert((ModeClass::Global, BindingView { mods: Mods { ctrl: true, shift: true, alt: false, cmd: false }, token: TokenView::Named(NamedKey::PageUp), chord_tail: None }), "move_tab_left"@)
        .insert((ModeClass::Global, BindingView { mods: Mods { ctrl: true, shift: true, alt: false, cmd: false }, token: TokenView::Named(NamedKey::PageDown), chord_tail: None }), "move_tab_right"@)
        .insert((ModeClass::Global, BindingView { mods: Mods { ctrl: true, shift: true, alt: false, cmd: false }, token: TokenView::Named(NamedKey::Home), chord_tail: None }), "scroll_to_top"@)
        .insert((ModeClass::Global, BindingView { mods: Mods { ctrl: true, shift: true, alt: false, cmd: false }, token: TokenView::Named(NamedKey::End), chord_tail: None }), "scroll_to_bottom"@)
        .insert((ModeClass::Global, BindingView { mods: Mods { ctrl: false, shift: true, alt: false, cmd: false }, token: TokenView::Named(NamedKey::PageUp), chord_tail: None }), "scroll_page_up"@)
        .insert((ModeClass::Global, BindingView { mods: Mods { ctrl: false, shift: true, alt: false, cmd: false }, token: TokenView::Named(NamedKey::PageDown), chord_tail: None }), "scroll_page_down"@)
        .insert((ModeClass::Global, BindingView { mods: Mods { ctrl: false, shift: false, alt: true, cmd: false }, token: TokenView::Char("1"@), chord_tail: None }), "go_to_tab_1"@)
        .insert((ModeClass::Global, BindingView { mods: Mods { ctrl: false, shift: false, alt: true, cmd: false }, token: TokenView::Char("2"@), chord_tail: None }), "go_to_tab_2"@)
        .insert((ModeClass::Global, BindingView { mods: Mods { ctrl: false, shift: false, alt: true, cmd: false }, token: TokenView::Char("3"@), chord_tail: None }), "go_to_tab_3"@)
        .insert((ModeClass::Global, BindingView { mods: Mods { ctrl: false, shift: false, alt: true, cmd: false }, token: TokenView::Char("4"@), chord_tail: None }), "go_to_tab_4"@)
        .insert((ModeClass::Global, BindingView { mods: Mods { ctrl: false, shift: false, alt: true, cmd: false }, token: TokenView::Char("5"@), chord_tail: None }), "go_to_tab_5"@)
        .insert((ModeClass::Global, BindingView { mods: Mods { ctrl: false, shift: false, alt: true, cmd: false }, token: TokenView::Char("6"@), chord_tail: None }), "go_to_tab_6"@)
        .insert((ModeClass::Global, BindingView { mods: Mods { ctrl: false, shift: false, alt: true, cmd: false }, token: TokenView::Char("7"@), chord_tail: None }), "go_to_tab_7"@)
        .insert((ModeClass::Global, BindingView { mods: Mods { ctrl: false, shift: false, alt: true, cmd: false }, token: TokenView::Char("8"@), chord_tail: None }), "go_to_tab_8"@)
        .insert((ModeClass::Global, BindingView { mods: Mods { ctrl: false, shift: false, alt: true, cmd: false }, token: TokenView::Char("9"@), chord_tail: None }), "go_to_tab_9"@)
        .insert((ModeClass::Global, BindingView { mods: Mods { ctrl: false, shift: false, alt: false, cmd: true }, token: TokenView::Char("v"@), chord_tail: None }), "paste"@)
        .insert((ModeClass::Global, BindingView { mods: Mods { ctrl: false, shift: false, alt: false, cmd: true }, token: TokenView::Char("c"@), chord_tail: None }), "copy"@)
        .insert((ModeClass::Global, BindingView { mods: Mods { ctrl: false, shift: false, alt: false, cmd: true }, token: TokenView::Char("n"@), chord_tail: None }), "new_tab"@)
        .insert((ModeClass::Global, BindingView { mods: Mods { ctrl: false, shift: false, alt: false, cmd: true }, token: TokenView::Char("t"@), chord_tail: None }), "new_tab"@)
        .insert((ModeClass::Global, BindingView { mods: Mods { ctrl: false, shift: false, alt: false, cmd: true }, token: TokenView::Char("w"@), chord_tail: None }), "close_tab"@)
        .insert((ModeClass::Global, BindingView { mods: Mods { ctrl: false, shift: false, alt: false, cmd: true }, token: TokenView::Char("q"@), chord_tail: None }), "quit"@)
        .insert((ModeClass::Global, BindingView { mods: Mods { ctrl: false, shift: false, alt: false, cmd: true }, token: TokenView::Char(","@), chord_tail: None }), "open_config"@)
        .insert((ModeClass::Global, BindingView { mods: Mods { ctrl: false, shift: false, alt: false, cmd: true }, token: TokenView::Char("f"@), chord_tail: None }), "search_open"@)
        .insert((ModeClass::Global, BindingView { mods: Mods { ctrl: false, shift: false, alt: false, cmd: true }, token: TokenView::Char("k"@), chord_tail: None }), "clear_scrollback"@)
        .insert((ModeClass::Global, BindingView { mods: Mods { ctrl: false, shift: false, alt: false, cmd: true }, token: TokenView::Char("+"@), chord_tail: None }), "increase_font_size"@)
        .insert((ModeClass::Global, BindingView { mods: Mods { ctrl: false, shift: false, alt: false, cmd: true }, token: TokenView::Char("-"@), chord_tail: None }), "decrease_font_size"@)
        .insert((ModeClass::Global, BindingView { mods: Mods { ctrl: false, shift: false, alt: false, cmd: true }, token: TokenView::Char("="@), chord_tail: None }), "reset_font_size"@)
        .insert((ModeClass::Global, BindingView { mods: Mods { ctrl: false, shift: false, alt: false, cmd: true }, token: TokenView::Char("0"@), chord_tail: None }), "reset_font_size"@)
        .insert((ModeClass::Global, BindingView { mods: Mods { ctrl: false, shift: false, alt: false, cmd: true }, token: TokenView::Char("1"@), chord_tail: None }), "go_to_tab_1"@)
        .insert((ModeClass::Global, BindingView { mods: Mods { ctrl: false, shift: false, alt: false, cmd: true }, token: TokenView::Char("2"@), chord_tail: None }), "go_to_tab_2"@)
        .insert((ModeClass::Global, BindingView { mods: Mods { ctrl: false, shift: false, alt: false, cmd: true }, token: TokenView::Char("3"@), chord_tail: None }), "go_to_tab_3"@)
        .insert((ModeClass::Global, BindingView { mods: Mods { ctrl: false, shift: false, alt: false, cmd: true }, token: TokenView::Char("4"@), chord_tail: None }), "go_to_tab_4"@)
        .insert((ModeClass::Global, BindingView { mods: Mods { ctrl: false, shift: false, alt: false, cmd: true }, token: TokenView::Char("5"@), chord_tail: None }), "go_to_tab_5"@)
        .insert((ModeClass::Global, BindingView { mods: Mods { ctrl: false, shift: false, alt: false, cmd: true }, token: TokenView::Char("6"@), chord_tail: None }), "go_to_tab_6"@)
        .insert((ModeClass::Global, BindingView { mods: Mods { ctrl: false, shift: false, alt: false, cmd: true }, token: TokenView::Char("7"@), chord_tail: None }), "go_to_tab_7"@)
        .insert((ModeClass::Global, BindingView { mods: Mods { ctrl: false, shift: false, alt: false, cmd: true }, token: TokenView::Char("8"@), chord_tail: None }), "go_to_tab_8"@)
        .insert((ModeClass::Global, BindingView { mods: Mods { ctrl: false, shift: false, alt: false, cmd: true }, token: TokenView::Char("9"@), chord_tail: None }), "go_to_tab_9"@)
        .insert((ModeClass::Global, BindingView { mods: Mods { ctrl: true, shift: false, alt: false, cmd: false }, token: TokenView::Char("w"@), chord_tail: Some((no_mods(), TokenView::Char("v"@))) }), "split_horizontal"@)
        .insert((ModeClass::Global, BindingView { mods: Mods { ctrl: true, shift: false, alt: false, cmd: false }, token: TokenView::Char("w"@), chord_tail: Some((no_mods(), TokenView::Char("s"@))) }), "split_vertical"@)
        .insert((ModeClass::Global, BindingView { mods: Mods { ctrl: true, shift: false, alt: false, cmd: false }, token: TokenView::Char("w"@), chord_tail: Some((no_mods(), TokenView::Char("a"@))) }), "auto_split"@)
        .insert((ModeClass::Global, BindingView { mods: Mods { ctrl: true, shift: false, alt: false, cmd: false }, token: TokenView::Char("w"@), chord_tail: Some((no_mods(), TokenView::Char("h"@))) }), "focus_left"@)
        .insert((ModeClass::Global, BindingView { mods: Mods { ctrl: true, shift: false, alt: false, cmd: false }, token: TokenView::Char("w"@), chord_tail: Some((no_mods(), TokenView::Char("l"@))) }), "focus_right"@)
        .insert((ModeClass::Global, BindingView { mods: Mods { ctrl: true, shift: false, alt: false, cmd: false }, token: TokenView::Char("w"@), chord_tail: Some((no_mods(), TokenView::Char("k"@))) }), "focus_up"@)
        .insert((ModeClass::Global, BindingView { mods: Mods { ctrl: true, shift: false, alt: false, cmd: false }, token: TokenView::Char("w"@), chord_tail: Some((no_mods(), TokenView::Char("j"@))) }), "focus_down"@)
        .insert((ModeClass::Global, BindingView { mods: Mods { ctrl: true, shift: false, alt: false, cmd: false }, token: TokenView::Char("w"@), chord_tail: Some((no_mods(), TokenView::Char("w"@))) }), "focus_next"@)
        .insert((ModeClass::Global, BindingView { mods: Mods { ctrl: true, shift: false, alt: false, cmd: false }, token: TokenView::Char("w"@), chord_tail: Some((no_mods(), TokenView::Char("q"@))) }), "close_pane"@)
        .insert((ModeClass::Global, BindingView { mods: Mods { ctrl: true, shift: false, alt: false, cmd: false }, token: TokenView::Char("w"@), chord_tail: Some((no_mods(), TokenView::Char("z"@))) }), "zoom_pane"@)
        .insert((ModeClass::Global, BindingView { mods: Mods { ctrl: true, shift: false, alt: false, cmd: false }, token: TokenView::Char("w"@), chord_tail: Some((no_mods(), TokenView::Char("r"@))) }), "rotate_panes_forward"@)
        .insert((ModeClass::Global, BindingView { mods: Mods { ctrl: true, shift: false, alt: false, cmd: false }, token: TokenView::Char("w"@), chord_tail: Some((no_mods(), TokenView::Char("R"@))) }), "rotate_panes_backward"@)
        .insert((ModeClass::Global, BindingView { mods: Mods { ctrl: true, shift: false, alt: false, cmd: false }, token: TokenView::Char("w"@), chord_tail: Some((no_mods(), TokenView::Char("p"@))) }), "screenshot_open"@)
        .insert((ModeClass::Global, BindingView { mods: Mods { ctrl: true, shift: false, alt: false, cmd: false }, token: TokenView::Char("w"@), chord_tail: Some((no_mods(), TokenView::Named(NamedKey::ArrowLeft))) }), "focus_left"@)
        .insert((ModeClass::Global, BindingView { mods: Mods { ctrl: true, shift: false, alt: false, cmd: false }, token: TokenView::Char("w"@), chord_tail: Some((no_mods(), TokenView::Named(NamedKey::ArrowRight))) }), "focus_right"@)
        .insert((ModeClass::Global, BindingView { mods: Mods { ctrl: true, shift: false, alt: false, cmd: false }, token: TokenView::Char("w"@), chord_tail: Some((no_mods(), TokenView::Named(NamedKey::ArrowUp))) }), "focus_up"@)
        .insert((ModeClass::Global, BindingView { mods: Mods { ctrl: true, shift: false, alt: false, cmd: false }, token: TokenView::Char("w"@), chord_tail: Some((no_mods(), TokenView::Named(NamedKey::ArrowDown))) }), "focus_down"@)
}

/// All built-in Global-scope shortcut bindings, as data: Ctrl, Ctrl+Shift,
/// Shift, Alt and Cmd shortcuts, then the Ctrl+W chords.
///
/// Intentionally left to the `keybindings` fallthrough (NOT in this table):
/// - `Ctrl+C` copy-in-Visual: mode-conditional.
/// - Chord tails are stored case-preserved (only `R` differs from `r`); the
///   dispatcher retries a chord tail lowercased so `Ctrl+W V` still matches `v`.
pub fn default_keymap() -> (km: KeyMap)
    ensures
        km@ == default_map(),
{
    let mut km = KeyMap::new();
    km.insert(ModeClass::Global, BindingKey { mods: mods_of(true, false, false, false), token: ch("w"), chord_tail: None }, "ctrl_w_prefix");
    km.insert(ModeClass::Global, BindingKey { mods: mods_of(true, false, false, false), token: ch("q"), chord_tail: None }, "quit");
    km.insert(ModeClass::Global, BindingKey { mods: mods_of(true, false, false, false), token: ch(","), chord_tail: None }, "open_config");
    km.insert(ModeClass::Global, BindingKey { mods: mods_of(true, false, false, false), token: ch("t"), chord_tail: None }, "new_tab");
    km.insert(ModeClass::Global, BindingKey { mods: mods_of(true, false, false, false), token: ch("b"), chord_tail: None }, "toggle_passthrough");
    km.insert(ModeClass::Global, BindingKey { mods: mods_of(true, false, false, false), token: ch("+"), chord_tail: None }, "increase_font_size");
    km.insert(ModeClass::Global, BindingKey { mods: mods_of(true, false, false, false), token: ch("="), chord_tail: None }, "increase_font_size");
    km.insert(ModeClass::Global, BindingKey { mods: mods_of(true, false, false, false), token: ch("-"), chord_tail: None }, "decrease_font_size");
    km.insert(ModeClass::Global, BindingKey { mods: mods_of(true, false, false, false), token: ch("0"), chord_tail: None }, "reset_font_size");
    km.insert(ModeClass::Global, BindingKey { mods: mods_of(true, false, false, false), token: KeyToken::Named(NamedKey::PageUp), chord_tail: None }, "prev_tab");
    km.insert(ModeClass::Global, BindingKey { mods: mods_of(true, false, false, false), token: KeyToken::Named(NamedKey::PageDown), chord_tail: None }, "next_tab");
    km.insert(ModeClass::Global, BindingKey { mods: mods_of(true, false, false, false), token: KeyToken::Named(NamedKey::Enter), chord_tail: None }, "toggle_fullscreen");
    km.insert(ModeClass::Global, BindingKey { mods: mods_of(true, false, false, false), token: ch("."), chord_tail: None }, "cycle_mode");
    km.insert(ModeClass::Global, BindingKey { mods: mods_of(true, false, false, false), token: ch("\\"), chord_tail: None }, "enter_normal_mode");
    km.insert(ModeClass::Global, BindingKey { mods: mods_of(true, false, false, false), token: ch("|"), chord_tail: None }, "enter_normal_mode");
    km.insert(ModeClass::Global, BindingKey { mods: mods_of(true, true, false, false), token: ch("v"), chord_tail: None }, "paste");
    km.insert(ModeClass::Global, BindingKey { mods: mods_of(true, true, false, false), token: ch("w"), chord_tail: None }, "close_tab");
    km.insert(ModeClass::Global, BindingKey { mods: mods_of(true, true, false, false), token: ch("r"), chord_tail: None }, "rename_tab");
    km.insert(ModeClass::Global, BindingKey { mods: mods_of(true, true, false, false), token: ch("k"), chord_tail: None }, "clear_scrollback");
    km.insert(ModeClass::Global, BindingKey { mods: mods_of(true, true, false, false), token: ch("l"), chord_tail: None }, "toggle_log");
    km.insert(ModeClass::Global, BindingKey { mods: mods_of(true, true, false, false), token: ch("p"), chord_tail: None }, "open_command_palette");
    km.insert(ModeClass::Global, BindingKey { mods: mods_of(true, true, false, false), token: KeyToken::Named(NamedKey::ArrowUp), chord_tail: None }, "resize_pane_up");
    km.insert(ModeClass::Global, BindingKey { mods: mods_of(true, true, false, false), token: KeyToken::Named(NamedKey::ArrowDown), chord_tail: None }, "resize_pane_down");
    km.insert(ModeClass::Global, BindingKey { mods: mods_of(true, true, false, false), token: KeyToken::Named(NamedKey::ArrowRight), chord_tail: None }, "resize_pane_right");
    km.insert(ModeClass::Global, BindingKey { mods: mods_of(true, true, false, false), token: KeyToken::Named(NamedKey::ArrowLeft), chord_tail: None }, "resize_pane_left");
    km.insert(ModeClass::Global, BindingKey { mods: mods_of(true, true, false, false), token: KeyToken::Named(NamedKey::PageUp), chord_tail: None }, "move_tab_left");
    km.insert(ModeClass::Global, BindingKey { mods: mods_of(true, true, false, false), token: KeyToken::Named(NamedKey::PageDown), chord_tail: None }, "move_tab_right");
    km.insert(ModeClass::Global, BindingKey { mods: mods_of(true, true, false, false), token: KeyToken::Named(NamedKey::Home), chord_tail: None }, "scroll_to_top");
    km.insert(ModeClass::Global, BindingKey { mods: mods_of(true, true, false, false), token: KeyToken::Named(NamedKey::End), chord_tail: None }, "scroll_to_bottom");
    km.insert(ModeClass::Global, BindingKey { mods: mods_of(false, true, false, false), token: KeyToken::Named(NamedKey::PageUp), chord_tail: None }, "scroll_page_up");
    km.insert(ModeClass::Global, BindingKey { mods: mods_of(false, true, false, false), token: KeyToken::Named(NamedKey::PageDown), chord_tail: None }, "scroll_page_down");
    km.insert(ModeClass::Global, BindingKey { mods: mods_of(false, false, true, false), token: ch("1"), chord_tail: None }, "go_to_tab_1");
    km.insert(ModeClass::Global, BindingKey { mods: mods_of(false, false, true, false), token: ch("2"), chord_tail: None }, "go_to_tab_2");
    km.insert(ModeClass::Global, BindingKey { mods: mods_of(false, false, true, false), token: ch("3"), chord_tail: None }, "go_to_tab_3");
    km.insert(ModeClass::Global, BindingKey { mods: mods_of(false, false, true, false), token: ch("4"), chord_tail: None }, "go_to_tab_4");
    km.insert(ModeClass::Global, BindingKey { mods: mods_of(false, false, true, false), token: ch("5"), chord_tail: None }, "go_to_tab_5");
    km.insert(ModeClass::Global, BindingKey { mods: mods_of(false, false, true, false), token: ch("6"), chord_tail: None }, "go_to_tab_6");
    km.insert(ModeClass::Global, BindingKey { mods: mods_of(false, false, true, false), token: ch("7"), chord_tail: None }, "go_to_tab_7");
    km.insert(ModeClass::Global, BindingKey { mods: mods_of(false, false, true, false), token: ch("8"), chord_tail: None }, "go_to_tab_8");
    km.insert(ModeClass::Global, BindingKey { mods: mods_of(false, false, true, false), token: ch("9"), chord_tail: None }, "go_to_tab_9");
    km.insert(ModeClass::Global, BindingKey { mods: mods_of(false, false, false, true), token: ch("v"), chord_tail: None }, "paste");
    km.insert(ModeClass::Global, BindingKey { mods: mods_of(false, false, false, true), token: ch("c"), chord_tail: None }, "copy");
    km.insert(ModeClass::Global, BindingKey { mods: mods_of(false, false, false, true), token: ch("n"), chord_tail: None }, "new_tab");
    km.insert(ModeClass::Global, BindingKey { mods: mods_of(false, false, false, true), token: ch("t"), chord_tail: None }, "new_tab");
    km.insert(ModeClass::Global, BindingKey { mods: mods_of(false, false, false, true), token: ch("w"), chord_tail: None }, "close_tab");
    km.insert(ModeClass::Global, BindingKey { mods: mods_of(false, false, false, true), token: ch("q"), chord_tail: None }, "quit");
    km.insert(ModeClass::Global, BindingKey { mods: mods_of(false, false, false, true), token: ch(","), chord_tail: None }, "open_config");
    km.insert(ModeClass::Global, BindingKey { mods: mods_of(false, false, false, true), token: ch("f"), chord_tail: None }, "search_open");
    km.insert(ModeClass::Global, BindingKey { mods: mods_of(false, false, false, true), token: ch("k"), chord_tail: None }, "clear_scrollback");
    km.insert(ModeClass::Global, BindingKey { mods: mods_of(false, false, false, true), token: ch("+"), chord_tail: None }, "increase_font_size");
    km.insert(ModeClass::Global, BindingKey { mods: mods_of(false, false, false, true), token: ch("-"), chord_tail: None }, "decrease_font_size");
    km.insert(ModeClass::Global, BindingKey { mods: mods_of(false, false, false, true), token: ch("="), chord_tail: None }, "reset_font_size");
    km.insert(ModeClass::Global, BindingKey { mods: mods_of(false, false, false, true), token: ch("0"), chord_tail: None }, "reset_font_size");
    km.insert(ModeClass::Global, BindingKey { mods: mods_of(false, false, false, true), token: ch("1"), chord_tail: None }, "go_to_tab_1");
    km.insert(ModeClass::Global, BindingKey { mods: mods_of(false, false, false, true), token: ch("2"), chord_tail: None }, "go_to_tab_2");
    km.insert(ModeClass::Global, BindingKey { mods: mods_of(false, false, false, true), token: ch("3"), chord_tail: None }, "go_to_tab_3");
    km.insert(ModeClass::Global, BindingKey { mods: mods_of(false, false, false, true), token: ch("4"), chord_tail: None }, "go_to_tab_4");
    km.insert(ModeClass::Global, BindingKey { mods: mods_of(false, false, false, true), token: ch("5"), chord_tail: None }, "go_to_tab_5");
    km.insert(ModeClass::Global, BindingKey { mods: mods_of(false, false, false, true), token: ch("6"), chord_tail: None }, "go_to_tab_6");
    km.insert(ModeClass::Global, BindingKey { mods: mods_of(false, false, false, true), token: ch("7"), chord_tail: None }, "go_to_tab_7");
    km.insert(ModeClass::Global, BindingKey { mods: mods_of(false, false, false, true), token: ch("8"), chord_tail: None }, "go_to_tab_8");
    km.insert(ModeClass::Global, BindingKey { mods: mods_of(false, false, false, true), token: ch("9"), chord_tail: None }, "go_to_tab_9");
    km.insert(ModeClass::Global, BindingKey { mods: mods_of(true, false, false, false), token: ch("w"), chord_tail: Some((mods_none(), ch("v"))) }, "split_horizontal");
    km.insert(ModeClass::Global, BindingKey { mods: mods_of(true, false, false, false), token: ch("w"), chord_tail: Some((mods_none(), ch("s"))) }, "split_vertical");
    km.insert(ModeClass::Global, BindingKey { mods: mods_of(true, false, false, false), token: ch("w"), chord_tail: Some((mods_none(), ch("a"))) }, "auto_split");
    km.insert(ModeClass::Global, BindingKey { mods: mods_of(true, false, false, false), token: ch("w"), chord_tail: Some((mods_none(), ch("h"))) }, "focus_left");
    km.insert(ModeClass::Global, BindingKey { mods: mods_of(true, false, false, false), token: ch("w"), chord_tail: Some((mods_none(), ch("l"))) }, "focus_right");
    km.insert(ModeClass::Global, BindingKey { mods: mods_of(true, false, false, false), token: ch("w"), chord_tail: Some((mods_none(), ch("k"))) }, "focus_up");
    km.insert(ModeClass::Global, BindingKey { mods: mods_of(true, false, false, false), token: ch("w"), chord_tail: Some((mods_none(), ch("j"))) }, "focus_down");
    km.insert(ModeClass::Global, BindingKey { mods: mods_of(true, false, false, false), token: ch("w"), chord_tail: Some((mods_none(), ch("w"))) }, "focus_next");
    km.insert(ModeClass::Global, BindingKey { mods: mods_of(true, false, false, false), token: ch("w"), chord_tail: Some((mods_none(), ch("q"))) }, "close_pane");
    km.insert(ModeClass::Global, BindingKey { mods: mods_of(true, false, false, false), token: ch("w"), chord_tail: Some((mods_none(), ch("z"))) }, "zoom_pane");
    km.insert(ModeClass::Global, BindingKey { mods: mods_of(true, false, false, false), token: ch("w"), chord_tail: Some((mods_none(), ch("r"))) }, "rotate_panes_forward");
    km.insert(ModeClass::Global, BindingKey { mods: mods_of(true, false, false, false), token: ch("w"), chord_tail: Some((mods_none(), ch("R"))) }, "rotate_panes_backward");
    km.insert(ModeClass::Global, BindingKey { mods: mods_of(true, false, false, false), token: ch("w"), chord_tail: Some((mods_none(), ch("p"))) }, "screenshot_open");
    km.insert(ModeClass::Global, BindingKey { mods: mods_of(true, false, false, false), token: ch("w"), chord_tail: Some((mods_none(), KeyToken::Named(NamedKey::ArrowLeft))) }, "focus_left");
    km.insert(ModeClass::Global, BindingKey { mods: mods_of(true, false, false, false), token: ch("w"), chord_tail: Some((mods_none(), KeyToken::Named(NamedKey::ArrowRight))) }, "focus_right");
    km.insert(ModeClass::Global, BindingKey { mods: mods_of(true, false, false, false), token: ch("w"), chord_tail: Some((mods_none(), KeyToken::Named(NamedKey::ArrowUp))) }, "focus_up");
    km.insert(ModeClass::Global, BindingKey { mods: mods_of(true, false, false, false), token: ch("w"), chord_tail: Some((mods_none(), KeyToken::Named(NamedKey::ArrowDown))) }, "focus_down");
    km
}


// ── Overlaying the user's bindings ──────────────────────────────────────────

/// The user's `[keybindings]` entries: (binding string, action name), in the
/// order the configuration lists them.
#[derive(Clone, Debug)]
pub struct KeybindingsConfig(pub Vec<(String, String)>);

impl View for KeybindingsConfig {
    type V = Seq<(Seq<char>, Seq<char>)>;

    open spec fn view(&self) -> Self::V {
        self.0@.map_values(|p: (String, String)| (p.0@, p.1@))
    }
}

/// A bare unmodified character bound globally would swallow ordinary typing.
pub open spec fn shadows_input(scope: ModeClass, key: BindingView) -> bool {
    scope == ModeClass::Global && key.mods == no_mods() && key.chord_tail is None
        && key.token is Char
}

/// The context used to validate action names.
pub open spec fn probe_ctx() -> DispatchCtx {
    DispatchCtx { grid_rows: 1, mode: InputModeKind::Insert }
}

/// The binding table and the error list as one configuration entry changes them.
pub open spec fn config_step(
    st: (Map<(ModeClass, BindingView), Seq<char>>, Seq<ErrorView>),
    raw: Seq<char>,
    action: Seq<char>,
) -> (Map<(ModeClass, BindingView), Seq<char>>, Seq<ErrorView>) {
    match parse_binding_spec(raw) {
        Err(reason) => (st.0, st.1.push(ErrorView::Parse { raw, reason })),
        Ok((scope, key)) => if action == "none"@ {
            (st.0.remove((scope, key)), st.1)
        } else if shadows_input(scope, key) {
            (st.0, st.1.push(ErrorView::ShadowsInput { raw }))
        } else if registry_action(action, probe_ctx()) is None {
            (st.0, st.1.push(ErrorView::UnknownAction { raw, name: action }))
        } else {
            (st.0.insert((scope, key), action), st.1)
        },
    }
}

/// The defaults overlaid with `entries`, one after the other.
pub open spec fn config_fold(entries: Seq<(Seq<char>, Seq<char>)>) -> (
    Map<(ModeClass, BindingView), Seq<char>>,
    Seq<ErrorView>,
)
    decreases entries.len(),
{
    if entries.len() == 0 {
        (default_map(), Seq::empty())
    } else {
        config_step(config_fold(entries.drop_last()), entries.last().0, entries.last().1)
    }
}

/// The user's entries overlay the defaults one after the other: an entry
/// bound to `none` removes its key, an entry naming a known action binds
/// or rebinds its key, and an entry that does not parse, would shadow
/// typed input or names no action leaves the table as it was and adds
/// one error.
pub proof fn lemma_config_overlay(entries: Seq<(Seq<char>, Seq<char>)>, raw: Seq<char>, action: Seq<char>)
    ensures
        ({
            let before = config_fold(entries);
            let after = config_fold(entries.push((raw, action)));
            match parse_binding_spec(raw) {
                Err(_) => after.0 == before.0 && after.1.len() == before.1.len() + 1,
                Ok((scope, key)) => if action == "none"@ {
                    after.0 == before.0.remove((scope, key)) && after.1 == before.1
                } else if shadows_input(scope, key) || registry_action(action, probe_ctx()) is None {
                    after.0 == before.0 && after.1.len() == before.1.len() + 1
                } else {
                    after.0 == before.0.insert((scope, key), action) && after.1 == before.1
                },
            }
        }),
{
    assert(entries.push((raw, action)).drop_last() =~= entries);
}

pub open spec fn error_views(errs: Seq<KeymapError>) -> Seq<ErrorView> {
    errs.map_values(|e: KeymapError| e@)
}

impl KeyMap {
    /// Build the merged keymap: defaults overlaid with the user's config.
    /// Returns the map and the per-entry errors (entries in error are skipped).
    pub fn from_config(cfg: &KeybindingsConfig) -> (r: (KeyMap, Vec<KeymapError>))
        ensures
            (r.0@, error_views(r.1@)) == config_fold(cfg@),
    {
        let mut km = default_keymap();
        let mut errors: Vec<KeymapError> = Vec::new();
        let n = cfg.0.len();
        let mut i: usize = 0;
        proof {
            assert(cfg@.take(0) =~= Seq::<(Seq<char>, Seq<char>)>::empty());
            assert(error_views(errors@) =~= Seq::<ErrorView>::empty());
        }
        while i < n
            invariant
                n == cfg.0@.len(),
                i <= n,
                (km@, error_views(errors@)) == config_fold(cfg@.take(i as int)),
            decreases n - i,
        {
            let ghost prev = config_fold(cfg@.take(i as int));
            proof {
                assert(cfg@.take(i + 1).drop_last() =~= cfg@.take(i as int));
                assert(cfg@.take(i + 1).last() == (cfg.0@[i as int].0@, cfg.0@[i as int].1@));
            }
            let entry = &cfg.0[i];
            let raw = &entry.0;
            let action = &entry.1;
            let ghost errs_before = errors@;
            match parse_binding(raw.as_str()) {
                Err(reason) => {
                    errors.push(KeymapError::Parse { raw: raw.clone(), reason });
                    proof {
                        assert(error_views(errors@) =~= error_views(errs_before).push(
                            errors@.last()@,
                        ));
                    }
                },
                Ok((scope, key)) => {
                    let action_chars = string_chars(action);
                    if is_lit(action_chars.as_slice(), "none") {
                        km.remove(scope, &key);
                    } else if scope == ModeClass::Global && key.mods == mods_none()
                        && key.chord_tail.is_none() && matches!(key.token, KeyToken::Char(_)) {
                        errors.push(KeymapError::ShadowsInput { raw: raw.clone() });
                        proof {
                            assert(error_views(errors@) =~= error_views(errs_before).push(
                                errors@.last()@,
                            ));
                        }
                    } else {
                        let probe = DispatchCtx { grid_rows: 1, mode: InputModeKind::Insert };
                        if action_from_chars(action_chars.as_slice(), probe).is_none() {
                            errors.push(
                                KeymapError::UnknownAction { raw: raw.clone(), name: action.clone() },
                            );
                            proof {
                                assert(error_views(errors@) =~= error_views(errs_before).push(
                                    errors@.last()@,
                                ));
                            }
                        } else {
                            proof {
                                lemma_registry_names_in_sync(action@, probe);
                            }
                            match intern_known_name(action_chars.as_slice()) {
                                Some(static_name) => {
                                    km.insert(scope, key, static_name);
                                },
                                None => {},
                            }
                        }
                    }
                },
            }
            i = i + 1;
        }
        proof {
            assert(cfg@.take(n as int) =~= cfg@);
        }
        (km, errors)
    }
}


// ── Laws of the binding table ───────────────────────────────────────────────

/// Every binding is sound: it does not shadow plain typing, and its value is
/// a name the registry resolves to an action.
pub open spec fn bindings_sound(m: Map<(ModeClass, BindingView), Seq<char>>) -> bool {
    forall|k: (ModeClass, BindingView)|
        #![trigger m.dom().contains(k)]
        m.dom().contains(k) ==> !shadows_input(k.0, k.1) && is_registry_name(m[k])
}

/// Every built-in binding carries a modifier and names a registry action.
pub proof fn lemma_default_bindings_sound()
    ensures
        bindings_sound(default_map()),
{
    let m = default_map();
    assert forall|k: (ModeClass, BindingView)| #![trigger m.dom().contains(k)] m.dom().contains(k) implies !shadows_input(k.0, k.1) && is_registry_name(m[k]) by {
    }
}

/// The merged keymap never holds a binding that would swallow ordinary typing
/// (a bare unmodified character in Global scope), and every binding it holds
/// resolves to an action, whatever the user's configuration says.
pub proof fn lemma_from_config_sound(entries: Seq<(Seq<char>, Seq<char>)>)
    ensures
        bindings_sound(config_fold(entries).0),
    decreases entries.len(),
{
    if entries.len() == 0 {
        lemma_default_bindings_sound();
    } else {
        lemma_from_config_sound(entries.drop_last());
        let prev = config_fold(entries.drop_last()).0;
        let cur = config_fold(entries).0;
        let raw = entries.last().0;
        let action = entries.last().1;
        assert forall|k: (ModeClass, BindingView)| #![trigger cur.dom().contains(k)] cur.dom().contains(k) implies !shadows_input(k.0, k.1) && is_registry_name(cur[k]) by {
            lemma_registry_names_in_sync(action, probe_ctx());
            if prev.dom().contains(k) {
            }
        }
    }
}


// ── Reverse registry and live keys ──────────────────────────────────────────

/// The canonical name of an action. Parameterized and internal actions have none.
pub open spec fn action_name(a: Action) -> Option<Seq<char>> {
    match a {
        Action::Paste => Some("paste"@),
        Action::Copy => Some("copy"@),
        Action::NewTab => Some("new_tab"@),
        Action::CloseTab => Some("close_tab"@),
        Action::NextTab => Some("next_tab"@),
        Action::PrevTab => Some("prev_tab"@),
        Action::MoveTabLeft => Some("move_tab_left"@),
        Action::MoveTabRight => Some("move_tab_right"@),
        Action::RenameTab => Some("rename_tab"@),
        Action::SplitH => Some("split_horizontal"@),
        Action::SplitV => Some("split_vertical"@),
        Action::AutoSplit => Some("auto_split"@),
        Action::ClosePane => Some("close_pane"@),
        Action::FocusLeft => Some("focus_left"@),
        Action::FocusRight => Some("focus_right"@),
        Action::FocusUp => Some("focus_up"@),
        Action::FocusDown => Some("focus_down"@),
        Action::FocusNext => Some("focus_next"@),
        Action::ZoomPane => Some("zoom_pane"@),
        Action::RotatePanesForward => Some("rotate_panes_forward"@),
        Action::RotatePanesBackward => Some("rotate_panes_backward"@),
        Action::ResizePaneRight => Some("resize_pane_right"@),
        Action::ResizePaneLeft => Some("resize_pane_left"@),
        Action::ResizePaneDown => Some("resize_pane_down"@),
        Action::ResizePaneUp => Some("resize_pane_up"@),
        Action::ScrollToTop => Some("scroll_to_top"@),
        Action::ScrollToBottom => Some("scroll_to_bottom"@),
        Action::ClearScrollback => Some("clear_scrollback"@),
        Action::SearchOpen => Some("search_open"@),
        Action::SearchNext => Some("search_next"@),
        Action::SearchPrev => Some("search_prev"@),
        Action::IncreaseFontSize => Some("increase_font_size"@),
        Action::DecreaseFontSize => Some("decrease_font_size"@),
        Action::ResetFontSize => Some("reset_font_size"@),
        Action::OpenConfig => Some("open_config"@),
        Action::OpenCommandPalette => Some("open_command_palette"@),
        Action::ToggleFullscreen => Some("toggle_fullscreen"@),
        Action::ToggleLog => Some("toggle_log"@),
        Action::TogglePassthrough => Some("toggle_passthrough"@),
        Action::ScreenshotOpen => Some("screenshot_open"@),
        Action::Quit => Some("quit"@),
        Action::CtrlWPrefix => Some("ctrl_w_prefix"@),
        _ => None,
    }
}

/// Reverse map: the canonical name for an `Action`, for docs / validation
/// messages. Parameterized and internal actions return `None`.
pub fn name_of_action(action: &Action) -> (r: Option<&'static str>)
    ensures
        r matches Some(n) ==> action_name(*action) == Some(n@),
        r is None ==> action_name(*action) is None,
{
    match action {
        Action::Paste => Some("paste"),
        Action::Copy => Some("copy"),
        Action::NewTab => Some("new_tab"),
        Action::CloseTab => Some("close_tab"),
        Action::NextTab => Some("next_tab"),
        Action::PrevTab => Some("prev_tab"),
        Action::MoveTabLeft => Some("move_tab_left"),
        Action::MoveTabRight => Some("move_tab_right"),
        Action::RenameTab => Some("rename_tab"),
        Action::SplitH => Some("split_horizontal"),
        Action::SplitV => Some("split_vertical"),
        Action::AutoSplit => Some("auto_split"),
        Action::ClosePane => Some("close_pane"),
        Action::FocusLeft => Some("focus_left"),
        Action::FocusRight => Some("focus_right"),
        Action::FocusUp => Some("focus_up"),
        Action::FocusDown => Some("focus_down"),
        Action::FocusNext => Some("focus_next"),
        Action::ZoomPane => Some("zoom_pane"),
        Action::RotatePanesForward => Some("rotate_panes_forward"),
        Action::RotatePanesBackward => Some("rotate_panes_backward"),
        Action::ResizePaneRight => Some("resize_pane_right"),
        Action::ResizePaneLeft => Some("resize_pane_left"),
        Action::ResizePaneDown => Some("resize_pane_down"),
        Action::ResizePaneUp => Some("resize_pane_up"),
        Action::ScrollToTop => Some("scroll_to_top"),
        Action::ScrollToBottom => Some("scroll_to_bottom"),
        Action::ClearScrollback => Some("clear_scrollback"),
        Action::SearchOpen => Some("search_open"),
        Action::SearchNext => Some("search_next"),
        Action::SearchPrev => Some("search_prev"),
        Action::IncreaseFontSize => Some("increase_font_size"),
        Action::DecreaseFontSize => Some("decrease_font_size"),
        Action::ResetFontSize => Some("reset_font_size"),
        Action::OpenConfig => Some("open_config"),
        Action::OpenCommandPalette => Some("open_command_palette"),
        Action::ToggleFullscreen => Some("toggle_fullscreen"),
        Action::ToggleLog => Some("toggle_log"),
        Action::TogglePassthrough => Some("toggle_passthrough"),
        Action::ScreenshotOpen => Some("screenshot_open"),
        Action::Quit => Some("quit"),
        Action::CtrlWPrefix => Some("ctrl_w_prefix"),
        _ => None,
    }
}

/// The token a live key stands for, lowercased when asked.
pub open spec fn token_of_key(k: Key, lowercase: bool) -> Option<TokenView> {
    match k {
        Key::Character(s) => Some(TokenView::Char(if lowercase { str_lowercase(s@) } else { s@ })),
        Key::Named(n) => Some(TokenView::Named(n)),
        Key::Unidentified => None,
    }
}

/// An optional token taken by its view.
pub open spec fn opt_token_view(t: Option<KeyToken>) -> Option<TokenView> {
    match t {
        Some(x) => Some(x@),
        None => None,
    }
}

/// Build a `KeyToken` from a live key, applying the same lowercase rule
/// used for primary tokens. Returns `None` for keys that are never bound.
pub fn token_from_key(key: &Key, lowercase: bool) -> (r: Option<KeyToken>)
    ensures
        opt_token_view(r) == token_of_key(*key, lowercase),
{
    match key {
        Key::Character(s) => {
            let stored = if lowercase {
                let cs = string_chars(s);
                let l = lowercase_chars(cs.as_slice());
                chars_to_string(l.as_slice())
            } else {
                s.clone()
            };
            Some(KeyToken::Char(stored))
        },
        Key::Named(n) => Some(KeyToken::Named(*n)),
        Key::Unidentified => None,
    }
}


/// Naming an action and resolving the name gives the action back: the
/// forward and reverse registries agree on every named action.
pub proof fn lemma_name_roundtrip(a: Action, ctx: DispatchCtx)
    requires
        action_name(a) is Some,
    ensures
        registry_action(action_name(a)->0, ctx) == Some(a),
{
    match a {
        Action::Paste => lemma_resolves_paste(ctx),
        Action::Copy => lemma_resolves_copy(ctx),
        Action::NewTab => lemma_resolves_new_tab(ctx),
        Action::CloseTab => lemma_resolves_close_tab(ctx),
        Action::NextTab => lemma_resolves_next_tab(ctx),
        Action::PrevTab => lemma_resolves_prev_tab(ctx),
        Action::MoveTabLeft => lemma_resolves_move_tab_left(ctx),
        Action::MoveTabRight => lemma_resolves_move_tab_right(ctx),
        Action::RenameTab => lemma_resolves_rename_tab(ctx),
        Action::SplitH => lemma_resolves_split_horizontal(ctx),
        Action::SplitV => lemma_resolves_split_vertical(ctx),
        Action::AutoSplit => lemma_resolves_auto_split(ctx),
        Action::ClosePane => lemma_resolves_close_pane(ctx),
        Action::FocusLeft => lemma_resolves_focus_left(ctx),
        Action::FocusRight => lemma_resolves_focus_right(ctx),
        Action::FocusUp => lemma_resolves_focus_up(ctx),
        Action::FocusDown => lemma_resolves_focus_down(ctx),
        Action::FocusNext => lemma_resolves_focus_next(ctx),
        Action::ZoomPane => lemma_resolves_zoom_pane(ctx),
        Action::RotatePanesForward => lemma_resolves_rotate_panes_forward(ctx),
        Action::RotatePanesBackward => lemma_resolves_rotate_panes_backward(ctx),
        Action::ResizePaneRight => lemma_resolves_resize_pane_right(ctx),
        Action::ResizePaneLeft => lemma_resolves_resize_pane_left(ctx),
        Action::ResizePaneDown => lemma_resolves_resize_pane_down(ctx),
        Action::ResizePaneUp => lemma_resolves_resize_pane_up(ctx),
        Action::ScrollToTop => lemma_resolves_scroll_to_top(ctx),
        Action::ScrollToBottom => lemma_resolves_scroll_to_bottom(ctx),
        Action::ClearScrollback => lemma_resolves_clear_scrollback(ctx),
        Action::SearchOpen => lemma_resolves_search_open(ctx),
        Action::SearchNext => lemma_resolves_search_next(ctx),
        Action::SearchPrev => lemma_resolves_search_prev(ctx),
        Action::IncreaseFontSize => lemma_resolves_increase_font_size(ctx),
        Action::DecreaseFontSize => lemma_resolves_decrease_font_size(ctx),
        Action::ResetFontSize => lemma_resolves_reset_font_size(ctx),
        Action::OpenConfig => lemma_resolves_open_config(ctx),
        Action::OpenCommandPalette => lemma_resolves_open_command_palette(ctx),
        Action::ToggleFullscreen => lemma_resolves_toggle_fullscreen(ctx),
        Action::ToggleLog => lemma_resolves_toggle_log(ctx),
        Action::TogglePassthrough => lemma_resolves_toggle_passthrough(ctx),
        Action::ScreenshotOpen => lemma_resolves_screenshot_open(ctx),
        Action::Quit => lemma_resolves_quit(ctx),
        Action::CtrlWPrefix => lemma_resolves_ctrl_w_prefix(ctx),
        _ => {},
    }
}

proof fn lemma_resolves_paste(ctx: DispatchCtx)
    ensures
        registry_action("paste"@, ctx) == Some(Action::Paste),
{
    reveal_strlit("paste");
}

proof fn lemma_resolves_copy(ctx: DispatchCtx)
    ensures
        registry_action("copy"@, ctx) == Some(Action::Copy),
{
    reveal_strlit("copy");
    reveal_strlit("paste");
    assert("copy"@.len() == 4 && "paste"@.len() == 5);
    assert("copy"@ != "paste"@);
}

proof fn lemma_resolves_new_tab(ctx: DispatchCtx)
    ensures
        registry_action("new_tab"@, ctx) == Some(Action::NewTab),
{
    reveal_strlit("new_tab");
    reveal_strlit("paste");
    assert("new_tab"@.len() == 7 && "paste"@.len() == 5);
    assert("new_tab"@ != "paste"@);
    reveal_strlit("copy");
    assert("new_tab"@.len() == 7 && "copy"@.len() == 4);
    assert("new_tab"@ != "copy"@);
}

proof fn lemma_resolves_close_tab(ctx: DispatchCtx)
    ensures
        registry_action("close_tab"@, ctx) == Some(Action::CloseTab),
{
    reveal_strlit("close_tab");
    reveal_strlit("paste");
    assert("close_tab"@.len() == 9 && "paste"@.len() == 5);
    assert("close_tab"@ != "paste"@);
    reveal_strlit("copy");
    assert("close_tab"@.len() == 9 && "copy"@.len() == 4);
    assert("close_tab"@ != "copy"@);
    reveal_strlit("new_tab");
    assert("close_tab"@.len() == 9 && "new_tab"@.len() == 7);
    assert("close_tab"@ != "new_tab"@);
}

proof fn lemma_resolves_next_tab(ctx: DispatchCtx)
    ensures
        registry_action("next_tab"@, ctx) == Some(Action::NextTab),
{
    reveal_strlit("next_tab");
    reveal_strlit("paste");
    assert("next_tab"@.len() == 8 && "paste"@.len() == 5);
    assert("next_tab"@ != "paste"@);
    reveal_strlit("copy");
    assert("next_tab"@.len() == 8 && "copy"@.len() == 4);
    assert("next_tab"@ != "copy"@);
    reveal_strlit("new_tab");
    assert("next_tab"@.len() == 8 && "new_tab"@.len() == 7);
    assert("next_tab"@ != "new_tab"@);
    reveal_strlit("close_tab");
    assert("next_tab"@.len() == 8 && "close_tab"@.len() == 9);
    assert("next_tab"@ != "close_tab"@);
}

proof fn lemma_resolves_prev_tab(ctx: DispatchCtx)
    ensures
        registry_action("prev_tab"@, ctx) == Some(Action::PrevTab),
{
    reveal_strlit("prev_tab");
    reveal_strlit("paste");
    assert("prev_tab"@.len() == 8 && "paste"@.len() == 5);
    assert("prev_tab"@ != "paste"@);
    reveal_strlit("copy");
    assert("prev_tab"@.len() == 8 && "copy"@.len() == 4);
    assert("prev_tab"@ != "copy"@);
    reveal_strlit("new_tab");
    assert("prev_tab"@.len() == 8 && "new_tab"@.len() == 7);
    assert("prev_tab"@ != "new_tab"@);
    reveal_strlit("close_tab");
    assert("prev_tab"@.len() == 8 && "close_tab"@.len() == 9);
    assert("prev_tab"@ != "close_tab"@);
    reveal_strlit("next_tab");
    assert("prev_tab"@[0] == 'p' && "next_tab"@[0] == 'n');
    assert("prev_tab"@ != "next_tab"@);
}

proof fn lemma_resolves_move_tab_left(ctx: DispatchCtx)
    ensures
        registry_action("move_tab_left"@, ctx) == Some(Action::MoveTabLeft),
{
    reveal_strlit("move_tab_left");
    reveal_strlit("paste");
    assert("move_tab_left"@.len() == 13 && "paste"@.len() == 5);
    assert("move_tab_left"@ != "paste"@);
    reveal_strlit("copy");
    assert("move_tab_left"@.len() == 13 && "copy"@.len() == 4);
    assert("move_tab_left"@ != "copy"@);
    reveal_strlit("new_tab");
    assert("move_tab_left"@.len() == 13 && "new_tab"@.len() == 7);
    assert("move_tab_left"@ != "new_tab"@);
    reveal_strlit("close_tab");
    assert("move_tab_left"@.len() == 13 && "close_tab"@.len() == 9);
    assert("move_tab_left"@ != "close_tab"@);
    reveal_strlit("next_tab");
    assert("move_tab_left"@.len() == 13 && "next_tab"@.len() == 8);
    assert("move_tab_left"@ != "next_tab"@);
    reveal_strlit("prev_tab");
    assert("move_tab_left"@.len() == 13 && "prev_tab"@.len() == 8);
    assert("move_tab_left"@ != "prev_tab"@);
}

proof fn lemma_resolves_move_tab_right(ctx: DispatchCtx)
    ensures
        registry_action("move_tab_right"@, ctx) == Some(Action::MoveTabRight),
{
    reveal_strlit("move_tab_right");
    reveal_strlit("paste");
    assert("move_tab_right"@.len() == 14 && "paste"@.len() == 5);
    assert("move_tab_right"@ != "paste"@);
    reveal_strlit("copy");
    assert("move_tab_right"@.len() == 14 && "copy"@.len() == 4);
    assert("move_tab_right"@ != "copy"@);
    reveal_strlit("new_tab");
    assert("move_tab_right"@.len() == 14 && "new_tab"@.len() == 7);
    assert("move_tab_right"@ != "new_tab"@);
    reveal_strlit("close_tab");
    assert("move_tab_right"@.len() == 14 && "close_tab"@.len() == 9);
    assert("move_tab_right"@ != "close_tab"@);
    reveal_strlit("next_tab");
    assert("move_tab_right"@.len() == 14 && "next_tab"@.len() == 8);
    assert("move_tab_right"@ != "next_tab"@);
    reveal_strlit("prev_tab");
    assert("move_tab_right"@.len() == 14 && "prev_tab"@.len() == 8);
    assert("move_tab_right"@ != "prev_tab"@);
    reveal_strlit("move_tab_left");
    assert("move_tab_right"@.len() == 14 && "move_tab_left"@.len() == 13);
    assert("move_tab_right"@ != "move_tab_left"@);
}

proof fn lemma_resolves_rename_tab(ctx: DispatchCtx)
    ensures
        registry_action("rename_tab"@, ctx) == Some(Action::RenameTab),
{
    reveal_strlit("rename_tab");
    reveal_strlit("paste");
    assert("rename_tab"@.len() == 10 && "paste"@.len() == 5);
    assert("rename_tab"@ != "paste"@);
    reveal_strlit("copy");
    assert("rename_tab"@.len() == 10 && "copy"@.len() == 4);
    assert("rename_tab"@ != "copy"@);
    reveal_strlit("new_tab");
    assert("rename_tab"@.len() == 10 && "new_tab"@.len() == 7);
    assert("rename_tab"@ != "new_tab"@);
    reveal_strlit("close_tab");
    assert("rename_tab"@.len() == 10 && "close_tab"@.len() == 9);
    assert("rename_tab"@ != "close_tab"@);
    reveal_strlit("next_tab");
    assert("rename_tab"@.len() == 10 && "next_tab"@.len() == 8);
    assert("rename_tab"@ != "next_tab"@);
    reveal_strlit("prev_tab");
    assert("rename_tab"@.len() == 10 && "prev_tab"@.len() == 8);
    assert("rename_tab"@ != "prev_tab"@);
    reveal_strlit("move_tab_left");
    assert("rename_tab"@.len() == 10 && "move_tab_left"@.len() == 13);
    assert("rename_tab"@ != "move_tab_left"@);
    reveal_strlit("move_tab_right");
    assert("rename_tab"@.len() == 10 && "move_tab_right"@.len() == 14);
    assert("rename_tab"@ != "move_tab_right"@);
}

proof fn lemma_resolves_split_horizontal(ctx: DispatchCtx)
    ensures
        registry_action("split_horizontal"@, ctx) == Some(Action::SplitH),
{
    reveal_strlit("split_horizontal");
    reveal_strlit("paste");
    assert("split_horizontal"@.len() == 16 && "paste"@.len() == 5);
    assert("split_horizontal"@ != "paste"@);
    reveal_strlit("copy");
    assert("split_horizontal"@.len() == 16 && "copy"@.len() == 4);
    assert("split_horizontal"@ != "copy"@);
    reveal_strlit("new_tab");
    assert("split_horizontal"@.len() == 16 && "new_tab"@.len() == 7);
    assert("split_horizontal"@ != "new_tab"@);
    reveal_strlit("close_tab");
    assert("split_horizontal"@.len() == 16 && "close_tab"@.len() == 9);
    assert("split_horizontal"@ != "close_tab"@);
    reveal_strlit("next_tab");
    assert("split_horizontal"@.len() == 16 && "next_tab"@.len() == 8);
    assert("split_horizontal"@ != "next_tab"@);
    reveal_strlit("prev_tab");
    assert("split_horizontal"@.len() == 16 && "prev_tab"@.len() == 8);
    assert("split_horizontal"@ != "prev_tab"@);
    reveal_strlit("move_tab_left");
    assert("split_horizontal"@.len() == 16 && "move_tab_left"@.len() == 13);
    assert("split_horizontal"@ != "move_tab_left"@);
    reveal_strlit("move_tab_right");
    assert("split_horizontal"@.len() == 16 && "move_tab_right"@.len() == 14);
    assert("split_horizontal"@ != "move_tab_right"@);
    reveal_strlit("rename_tab");
    assert("split_horizontal"@.len() == 16 && "rename_tab"@.len() == 10);
    assert("split_horizontal"@ != "rename_tab"@);
    reveal_strlit("go_to_tab_1");
    assert("split_horizontal"@.len() == 16 && "go_to_tab_1"@.len() == 11);
    assert("split_horizontal"@ != "go_to_tab_1"@);
    reveal_strlit("go_to_tab_2");
    assert("split_horizontal"@.len() == 16 && "go_to_tab_2"@.len() == 11);
    assert("split_horizontal"@ != "go_to_tab_2"@);
    reveal_strlit("go_to_tab_3");
    assert("split_horizontal"@.len() == 16 && "go_to_tab_3"@.len() == 11);
    assert("split_horizontal"@ != "go_to_tab_3"@);
    reveal_strlit("go_to_tab_4");
    assert("split_horizontal"@.len() == 16 && "go_to_tab_4"@.len() == 11);
    assert("split_horizontal"@ != "go_to_tab_4"@);
    reveal_strlit("go_to_tab_5");
    assert("split_horizontal"@.len() == 16 && "go_to_tab_5"@.len() == 11);
    assert("split_horizontal"@ != "go_to_tab_5"@);
    reveal_strlit("go_to_tab_6");
    assert("split_horizontal"@.len() == 16 && "go_to_tab_6"@.len() == 11);
    assert("split_horizontal"@ != "go_to_tab_6"@);
    reveal_strlit("go_to_tab_7");
    assert("split_horizontal"@.len() == 16 && "go_to_tab_7"@.len() == 11);
    assert("split_horizontal"@ != "go_to_tab_7"@);
    reveal_strlit("go_to_tab_8");
    assert("split_horizontal"@.len() == 16 && "go_to_tab_8"@.len() == 11);
    assert("split_horizontal"@ != "go_to_tab_8"@);
    reveal_strlit("go_to_tab_9");
    assert("split_horizontal"@.len() == 16 && "go_to_tab_9"@.len() == 11);
    assert("split_horizontal"@ != "go_to_tab_9"@);
}

proof fn lemma_resolves_split_vertical(ctx: DispatchCtx)
    ensures
        registry_action("split_vertical"@, ctx) == Some(Action::SplitV),
{
    reveal_strlit("split_vertical");
    reveal_strlit("paste");
    assert("split_vertical"@.len() == 14 && "paste"@.len() == 5);
    assert("split_vertical"@ != "paste"@);
    reveal_strlit("copy");
    assert("split_vertical"@.len() == 14 && "copy"@.len() == 4);
    assert("split_vertical"@ != "copy"@);
    reveal_strlit("new_tab");
    assert("split_vertical"@.len() == 14 && "new_tab"@.len() == 7);
    assert("split_vertical"@ != "new_tab"@);
    reveal_strlit("close_tab");
    assert("split_vertical"@.len() == 14 && "close_tab"@.len() == 9);
    assert("split_vertical"@ != "close_tab"@);
    reveal_strlit("next_tab");
    assert("split_vertical"@.len() == 14 && "next_tab"@.len() == 8);
    assert("split_vertical"@ != "next_tab"@);
    reveal_strlit("prev_tab");
    assert("split_vertical"@.len() == 14 && "prev_tab"@.len() == 8);
    assert("split_vertical"@ != "prev_tab"@);
    reveal_strlit("move_tab_left");
    assert("split_vertical"@.len() == 14 && "move_tab_left"@.len() == 13);
    assert("split_vertical"@ != "move_tab_left"@);
    reveal_strlit("move_tab_right");
    assert("split_vertical"@[0] == 's' && "move_tab_right"@[0] == 'm');
    assert("split_vertical"@ != "move_tab_right"@);
    reveal_strlit("rename_tab");
    assert("split_vertical"@.len() == 14 && "rename_tab"@.len() == 10);
    assert("split_vertical"@ != "rename_tab"@);
    reveal_strlit("go_to_tab_1");
    assert("split_vertical"@.len() == 14 && "go_to_tab_1"@.len() == 11);
    assert("split_vertical"@ != "go_to_tab_1"@);
    reveal_strlit("go_to_tab_2");
    assert("split_vertical"@.len() == 14 && "go_to_tab_2"@.len() == 11);
    assert("split_vertical"@ != "go_to_tab_2"@);
    reveal_strlit("go_to_tab_3");
    assert("split_vertical"@.len() == 14 && "go_to_tab_3"@.len() == 11);
    assert("split_vertical"@ != "go_to_tab_3"@);
    reveal_strlit("go_to_tab_4");
    assert("split_vertical"@.len() == 14 && "go_to_tab_4"@.len() == 11);
    assert("split_vertical"@ != "go_to_tab_4"@);
    reveal_strlit("go_to_tab_5");
    assert("split_vertical"@.len() == 14 && "go_to_tab_5"@.len() == 11);
    assert("split_vertical"@ != "go_to_tab_5"@);
    reveal_strlit("go_to_tab_6");
    assert("split_vertical"@.len() == 14 && "go_to_tab_6"@.len() == 11);
    assert("split_vertical"@ != "go_to_tab_6"@);
    reveal_strlit("go_to_tab_7");
    assert("split_vertical"@.len() == 14 && "go_to_tab_7"@.len() == 11);
    assert("split_vertical"@ != "go_to_tab_7"@);
    reveal_strlit("go_to_tab_8");
    assert("split_vertical"@.len() == 14 && "go_to_tab_8"@.len() == 11);
    assert("split_vertical"@ != "go_to_tab_8"@);
    reveal_strlit("go_to_tab_9");
    assert("split_vertical"@.len() == 14 && "go_to_tab_9"@.len() == 11);
    assert("split_vertical"@ != "go_to_tab_9"@);
    reveal_strlit("split_horizontal");
    assert("split_vertical"@.len() == 14 && "split_horizontal"@.len() == 16);
    assert("split_vertical"@ != "split_horizontal"@);
}

proof fn lemma_resolves_auto_split(ctx: DispatchCtx)
    ensures
        registry_action("auto_split"@, ctx) == Some(Action::AutoSplit),
{
    reveal_strlit("auto_split");
    reveal_strlit("paste");
    assert("auto_split"@.len() == 10 && "paste"@.len() == 5);
    assert("auto_split"@ != "paste"@);
    reveal_strlit("copy");
    assert("auto_split"@.len() == 10 && "copy"@.len() == 4);
    assert("auto_split"@ != "copy"@);
    reveal_strlit("new_tab");
    assert("auto_split"@.len() == 10 && "new_tab"@.len() == 7);
    assert("auto_split"@ != "new_tab"@);
    reveal_strlit("close_tab");
    assert("auto_split"@.len() == 10 && "close_tab"@.len() == 9);
    assert("auto_split"@ != "close_tab"@);
    reveal_strlit("next_tab");
    assert("auto_split"@.len() == 10 && "next_tab"@.len() == 8);
    assert("auto_split"@ != "next_tab"@);
    reveal_strlit("prev_tab");
    assert("auto_split"@.len() == 10 && "prev_tab"@.len() == 8);
    assert("auto_split"@ != "prev_tab"@);
    reveal_strlit("move_tab_left");
    assert("auto_split"@.len() == 10 && "move_tab_left"@.len() == 13);
    assert("auto_split"@ != "move_tab_left"@);
    reveal_strlit("move_tab_right");
    assert("auto_split"@.len() == 10 && "move_tab_right"@.len() == 14);
    assert("auto_split"@ != "move_tab_right"@);
    reveal_strlit("rename_tab");
    assert("auto_split"@[0] == 'a' && "rename_tab"@[0] == 'r');
    assert("auto_split"@ != "rename_tab"@);
    reveal_strlit("go_to_tab_1");
    assert("auto_split"@.len() == 10 && "go_to_tab_1"@.len() == 11);
    assert("auto_split"@ != "go_to_tab_1"@);
    reveal_strlit("go_to_tab_2");
    assert("auto_split"@.len() == 10 && "go_to_tab_2"@.len() == 11);
    assert("auto_split"@ != "go_to_tab_2"@);
    reveal_strlit("go_to_tab_3");
    assert("auto_split"@.len() == 10 && "go_to_tab_3"@.len() == 11);
    assert("auto_split"@ != "go_to_tab_3"@);
    reveal_strlit("go_to_tab_4");
    assert("auto_split"@.len() == 10 && "go_to_tab_4"@.len() == 11);
    assert("auto_split"@ != "go_to_tab_4"@);
    reveal_strlit("go_to_tab_5");
    assert("auto_split"@.len() == 10 && "go_to_tab_5"@.len() == 11);
    assert("auto_split"@ != "go_to_tab_5"@);
    reveal_strlit("go_to_tab_6");
    assert("auto_split"@.len() == 10 && "go_to_tab_6"@.len() == 11);
    assert("auto_split"@ != "go_to_tab_6"@);
    reveal_strlit("go_to_tab_7");
    assert("auto_split"@.len() == 10 && "go_to_tab_7"@.len() == 11);
    assert("auto_split"@ != "go_to_tab_7"@);
    reveal_strlit("go_to_tab_8");
    assert("auto_split"@.len() == 10 && "go_to_tab_8"@.len() == 11);
    assert("auto_split"@ != "go_to_tab_8"@);
    reveal_strlit("go_to_tab_9");
    assert("auto_split"@.len() == 10 && "go_to_tab_9"@.len() == 11);
    assert("auto_split"@ != "go_to_tab_9"@);
    reveal_strlit("split_horizontal");
    assert("auto_split"@.len() == 10 && "split_horizontal"@.len() == 16);
    assert("auto_split"@ != "split_horizontal"@);
    reveal_strlit("split_vertical");
    assert("auto_split"@.len() == 10 && "split_vertical"@.len() == 14);
    assert("auto_split"@ != "split_vertical"@);
}

proof fn lemma_resolves_close_pane(ctx: DispatchCtx)
    ensures
        registry_action("close_pane"@, ctx) == Some(Action::ClosePane),
{
    reveal_strlit("close_pane");
    reveal_strlit("paste");
    assert("close_pane"@.len() == 10 && "paste"@.len() == 5);
    assert("close_pane"@ != "paste"@);
    reveal_strlit("copy");
    assert("close_pane"@.len() == 10 && "copy"@.len() == 4);
    assert("close_pane"@ != "copy"@);
    reveal_strlit("new_tab");
    assert("close_pane"@.len() == 10 && "new_tab"@.len() == 7);
    assert("close_pane"@ != "new_tab"@);
    reveal_strlit("close_tab");
    assert("close_pane"@.len() == 10 && "close_tab"@.len() == 9);
    assert("close_pane"@ != "close_tab"@);
    reveal_strlit("next_tab");
    assert("close_pane"@.len() == 10 && "next_tab"@.len() == 8);
    assert("close_pane"@ != "next_tab"@);
    reveal_strlit("prev_tab");
    assert("close_pane"@.len() == 10 && "prev_tab"@.len() == 8);
    assert("close_pane"@ != "prev_tab"@);
    reveal_strlit("move_tab_left");
    assert("close_pane"@.len() == 10 && "move_tab_left"@.len() == 13);
    assert("close_pane"@ != "move_tab_left"@);
    reveal_strlit("move_tab_right");
    assert("close_pane"@.len() == 10 && "move_tab_right"@.len() == 14);
    assert("close_pane"@ != "move_tab_right"@);
    reveal_strlit("rename_tab");
    assert("close_pane"@[0] == 'c' && "rename_tab"@[0] == 'r');
    assert("close_pane"@ != "rename_tab"@);
    reveal_strlit("go_to_tab_1");
    assert("close_pane"@.len() == 10 && "go_to_tab_1"@.len() == 11);
    assert("close_pane"@ != "go_to_tab_1"@);
    reveal_strlit("go_to_tab_2");
    assert("close_pane"@.len() == 10 && "go_to_tab_2"@.len() == 11);
    assert("close_pane"@ != "go_to_tab_2"@);
    reveal_strlit("go_to_tab_3");
    assert("close_pane"@.len() == 10 && "go_to_tab_3"@.len() == 11);
    assert("close_pane"@ != "go_to_tab_3"@);
    reveal_strlit("go_to_tab_4");
    assert("close_pane"@.len() == 10 && "go_to_tab_4"@.len() == 11);
    assert("close_pane"@ != "go_to_tab_4"@);
    reveal_strlit("go_to_tab_5");
    assert("close_pane"@.len() == 10 && "go_to_tab_5"@.len() == 11);
    assert("close_pane"@ != "go_to_tab_5"@);
    reveal_strlit("go_to_tab_6");
    assert("close_pane"@.len() == 10 && "go_to_tab_6"@.len() == 11);
    assert("close_pane"@ != "go_to_tab_6"@);
    reveal_strlit("go_to_tab_7");
    assert("close_pane"@.len() == 10 && "go_to_tab_7"@.len() == 11);
    assert("close_pane"@ != "go_to_tab_7"@);
    reveal_strlit("go_to_tab_8");
    assert("close_pane"@.len() == 10 && "go_to_tab_8"@.len() == 11);
    assert("close_pane"@ != "go_to_tab_8"@);
    reveal_strlit("go_to_tab_9");
    assert("close_pane"@.len() == 10 && "go_to_tab_9"@.len() == 11);
    assert("close_pane"@ != "go_to_tab_9"@);
    reveal_strlit("split_horizontal");
    assert("close_pane"@.len() == 10 && "split_horizontal"@.len() == 16);
    assert("close_pane"@ != "split_horizontal"@);
    reveal_strlit("split_vertical");
    assert("close_pane"@.len() == 10 && "split_vertical"@.len() == 14);
    assert("close_pane"@ != "split_vertical"@);
    reveal_strlit("auto_split");
    assert("close_pane"@[0] == 'c' && "auto_split"@[0] == 'a');
    assert("close_pane"@ != "auto_split"@);
}

proof fn lemma_resolves_focus_left(ctx: DispatchCtx)
    ensures
        registry_action("focus_left"@, ctx) == Some(Action::FocusLeft),
{
    reveal_strlit("focus_left");
    reveal_strlit("paste");
    assert("focus_left"@.len() == 10 && "paste"@.len() == 5);
    assert("focus_left"@ != "paste"@);
    reveal_strlit("copy");
    assert("focus_left"@.len() == 10 && "copy"@.len() == 4);
    assert("focus_left"@ != "copy"@);
    reveal_strlit("new_tab");
    assert("focus_left"@.len() == 10 && "new_tab"@.len() == 7);
    assert("focus_left"@ != "new_tab"@);
    reveal_strlit("close_tab");
    assert("focus_left"@.len() == 10 && "close_tab"@.len() == 9);
    assert("focus_left"@ != "close_tab"@);
    reveal_strlit("next_tab");
    assert("focus_left"@.len() == 10 && "next_tab"@.len() == 8);
    assert("focus_left"@ != "next_tab"@);
    reveal_strlit("prev_tab");
    assert("focus_left"@.len() == 10 && "prev_tab"@.len() == 8);
    assert("focus_left"@ != "prev_tab"@);
    reveal_strlit("move_tab_left");
    assert("focus_left"@.len() == 10 && "move_tab_left"@.len() == 13);
    assert("focus_left"@ != "move_tab_left"@);
    reveal_strlit("move_tab_right");
    assert("focus_left"@.len() == 10 && "move_tab_right"@.len() == 14);
    assert("focus_left"@ != "move_tab_right"@);
    reveal_strlit("rename_tab");
    assert("focus_left"@[0] == 'f' && "rename_tab"@[0] == 'r');
    assert("focus_left"@ != "rename_tab"@);
    reveal_strlit("go_to_tab_1");
    assert("focus_left"@.len() == 10 && "go_to_tab_1"@.len() == 11);
    assert("focus_left"@ != "go_to_tab_1"@);
    reveal_strlit("go_to_tab_2");
    assert("focus_left"@.len() == 10 && "go_to_tab_2"@.len() == 11);
    assert("focus_left"@ != "go_to_tab_2"@);
    reveal_strlit("go_to_tab_3");
    assert("focus_left"@.len() == 10 && "go_to_tab_3"@.len() == 11);
    assert("focus_left"@ != "go_to_tab_3"@);
    reveal_strlit("go_to_tab_4");
    assert("focus_left"@.len() == 10 && "go_to_tab_4"@.len() == 11);
    assert("focus_left"@ != "go_to_tab_4"@);
    reveal_strlit("go_to_tab_5");
    assert("focus_left"@.len() == 10 && "go_to_tab_5"@.len() == 11);
    assert("focus_left"@ != "go_to_tab_5"@);
    reveal_strlit("go_to_tab_6");
    assert("focus_left"@.len() == 10 && "go_to_tab_6"@.len() == 11);
    assert("focus_left"@ != "go_to_tab_6"@);
    reveal_strlit("go_to_tab_7");
    assert("focus_left"@.len() == 10 && "go_to_tab_7"@.len() == 11);
    assert("focus_left"@ != "go_to_tab_7"@);
    reveal_strlit("go_to_tab_8");
    assert("focus_left"@.len() == 10 && "go_to_tab_8"@.len() == 11);
    assert("focus_left"@ != "go_to_tab_8"@);
    reveal_strlit("go_to_tab_9");
    assert("focus_left"@.len() == 10 && "go_to_tab_9"@.len() == 11);
    assert("focus_left"@ != "go_to_tab_9"@);
    reveal_strlit("split_horizontal");
    assert("focus_left"@.len() == 10 && "split_horizontal"@.len() == 16);
    assert("focus_left"@ != "split_horizontal"@);
    reveal_strlit("split_vertical");
    assert("focus_left"@.len() == 10 && "split_vertical"@.len() == 14);
    assert("focus_left"@ != "split_vertical"@);
    reveal_strlit("auto_split");
    assert("focus_left"@[0] == 'f' && "auto_split"@[0] == 'a');
    assert("focus_left"@ != "auto_split"@);
    reveal_strlit("close_pane");
    assert("focus_left"@[0] == 'f' && "close_pane"@[0] == 'c');
    assert("focus_left"@ != "close_pane"@);
}

proof fn lemma_resolves_focus_right(ctx: DispatchCtx)
    ensures
        registry_action("focus_right"@, ctx) == Some(Action::FocusRight),
{
    reveal_strlit("focus_right");
    reveal_strlit("paste");
    assert("focus_right"@.len() == 11 && "paste"@.len() == 5);
    assert("focus_right"@ != "paste"@);
    reveal_strlit("copy");
    assert("focus_right"@.len() == 11 && "copy"@.len() == 4);
    assert("focus_right"@ != "copy"@);
    reveal_strlit("new_tab");
    assert("focus_right"@.len() == 11 && "new_tab"@.len() == 7);
    assert("focus_right"@ != "new_tab"@);
    reveal_strlit("close_tab");
    assert("focus_right"@.len() == 11 && "close_tab"@.len() == 9);
    assert("focus_right"@ != "close_tab"@);
    reveal_strlit("next_tab");
    assert("focus_right"@.len() == 11 && "next_tab"@.len() == 8);
    assert("focus_right"@ != "next_tab"@);
    reveal_strlit("prev_tab");
    assert("focus_right"@.len() == 11 && "prev_tab"@.len() == 8);
    assert("focus_right"@ != "prev_tab"@);
    reveal_strlit("move_tab_left");
    assert("focus_right"@.len() == 11 && "move_tab_left"@.len() == 13);
    assert("focus_right"@ != "move_tab_left"@);
    reveal_strlit("move_tab_right");
    assert("focus_right"@.len() == 11 && "move_tab_right"@.len() == 14);
    assert("focus_right"@ != "move_tab_right"@);
    reveal_strlit("rename_tab");
    assert("focus_right"@.len() == 11 && "rename_tab"@.len() == 10);
    assert("focus_right"@ != "rename_tab"@);
    reveal_strlit("go_to_tab_1");
    assert("focus_right"@[0] == 'f' && "go_to_tab_1"@[0] == 'g');
    assert("focus_right"@ != "go_to_tab_1"@);
    reveal_strlit("go_to_tab_2");
    assert("focus_right"@[0] == 'f' && "go_to_tab_2"@[0] == 'g');
    assert("focus_right"@ != "go_to_tab_2"@);
    reveal_strlit("go_to_tab_3");
    assert("focus_right"@[0] == 'f' && "go_to_tab_3"@[0] == 'g');
    assert("focus_right"@ != "go_to_tab_3"@);
    reveal_strlit("go_to_tab_4");
    assert("focus_right"@[0] == 'f' && "go_to_tab_4"@[0] == 'g');
    assert("focus_right"@ != "go_to_tab_4"@);
    reveal_strlit("go_to_tab_5");
    assert("focus_right"@[0] == 'f' && "go_to_tab_5"@[0] == 'g');
    assert("focus_right"@ != "go_to_tab_5"@);
    reveal_strlit("go_to_tab_6");
    assert("focus_right"@[0] == 'f' && "go_to_tab_6"@[0] == 'g');
    assert("focus_right"@ != "go_to_tab_6"@);
    reveal_strlit("go_to_tab_7");
    assert("focus_right"@[0] == 'f' && "go_to_tab_7"@[0] == 'g');
    assert("focus_right"@ != "go_to_tab_7"@);
    reveal_strlit("go_to_tab_8");
    assert("focus_right"@[0] == 'f' && "go_to_tab_8"@[0] == 'g');
    assert("focus_right"@ != "go_to_tab_8"@);
    reveal_strlit("go_to_tab_9");
    assert("focus_right"@[0] == 'f' && "go_to_tab_9"@[0] == 'g');
    assert("focus_right"@ != "go_to_tab_9"@);
    reveal_strlit("split_horizontal");
    assert("focus_right"@.len() == 11 && "split_horizontal"@.len() == 16);
    assert("focus_right"@ != "split_horizontal"@);
    reveal_strlit("split_vertical");
    assert("focus_right"@.len() == 11 && "split_vertical"@.len() == 14);
    assert("focus_right"@ != "split_vertical"@);
    reveal_strlit("auto_split");
    assert("focus_right"@.len() == 11 && "auto_split"@.len() == 10);
    assert("focus_right"@ != "auto_split"@);
    reveal_strlit("close_pane");
    assert("focus_right"@.len() == 11 && "close_pane"@.len() == 10);
    assert("focus_right"@ != "close_pane"@);
    reveal_strlit("focus_left");
    assert("focus_right"@.len() == 11 && "focus_left"@.len() == 10);
    assert("focus_right"@ != "focus_left"@);
}

proof fn lemma_resolves_focus_up(ctx: DispatchCtx)
    ensures
        registry_action("focus_up"@, ctx) == Some(Action::FocusUp),
{
    reveal_strlit("focus_up");
    reveal_strlit("paste");
    assert("focus_up"@.len() == 8 && "paste"@.len() == 5);
    assert("focus_up"@ != "paste"@);
    reveal_strlit("copy");
    assert("focus_up"@.len() == 8 && "copy"@.len() == 4);
    assert("focus_up"@ != "copy"@);
    reveal_strlit("new_tab");
    assert("focus_up"@.len() == 8 && "new_tab"@.len() == 7);
    assert("focus_up"@ != "new_tab"@);
    reveal_strlit("close_tab");
    assert("focus_up"@.len() == 8 && "close_tab"@.len() == 9);
    assert("focus_up"@ != "close_tab"@);
    reveal_strlit("next_tab");
    assert("focus_up"@[0] == 'f' && "next_tab"@[0] == 'n');
    assert("focus_up"@ != "next_tab"@);
    reveal_strlit("prev_tab");
    assert("focus_up"@[0] == 'f' && "prev_tab"@[0] == 'p');
    assert("focus_up"@ != "prev_tab"@);
    reveal_strlit("move_tab_left");
    assert("focus_up"@.len() == 8 && "move_tab_left"@.len() == 13);
    assert("focus_up"@ != "move_tab_left"@);
    reveal_strlit("move_tab_right");
    assert("focus_up"@.len() == 8 && "move_tab_right"@.len() == 14);
    assert("focus_up"@ != "move_tab_right"@);
    reveal_strlit("rename_tab");
    assert("focus_up"@.len() == 8 && "rename_tab"@.len() == 10);
    assert("focus_up"@ != "rename_tab"@);
    reveal_strlit("go_to_tab_1");
    assert("focus_up"@.len() == 8 && "go_to_tab_1"@.len() == 11);
    assert("focus_up"@ != "go_to_tab_1"@);
    reveal_strlit("go_to_tab_2");
    assert("focus_up"@.len() == 8 && "go_to_tab_2"@.len() == 11);
    assert("focus_up"@ != "go_to_tab_2"@);
    reveal_strlit("go_to_tab_3");
    assert("focus_up"@.len() == 8 && "go_to_tab_3"@.len() == 11);
    assert("focus_up"@ != "go_to_tab_3"@);
    reveal_strlit("go_to_tab_4");
    assert("focus_up"@.len() == 8 && "go_to_tab_4"@.len() == 11);
    assert("focus_up"@ != "go_to_tab_4"@);
    reveal_strlit("go_to_tab_5");
    assert("focus_up"@.len() == 8 && "go_to_tab_5"@.len() == 11);
    assert("focus_up"@ != "go_to_tab_5"@);
    reveal_strlit("go_to_tab_6");
    assert("focus_up"@.len() == 8 && "go_to_tab_6"@.len() == 11);
    assert("focus_up"@ != "go_to_tab_6"@);
    reveal_strlit("go_to_tab_7");
    assert("focus_up"@.len() == 8 && "go_to_tab_7"@.len() == 11);
    assert("focus_up"@ != "go_to_tab_7"@);
    reveal_strlit("go_to_tab_8");
    assert("focus_up"@.len() == 8 && "go_to_tab_8"@.len() == 11);
    assert("focus_up"@ != "go_to_tab_8"@);
    reveal_strlit("go_to_tab_9");
    assert("focus_up"@.len() == 8 && "go_to_tab_9"@.len() == 11);
    assert("focus_up"@ != "go_to_tab_9"@);
    reveal_strlit("split_horizontal");
    assert("focus_up"@.len() == 8 && "split_horizontal"@.len() == 16);
    assert("focus_up"@ != "split_horizontal"@);
    reveal_strlit("split_vertical");
    assert("focus_up"@.len() == 8 && "split_vertical"@.len() == 14);
    assert("focus_up"@ != "split_vertical"@);
    reveal_strlit("auto_split");
    assert("focus_up"@.len() == 8 && "auto_split"@.len() == 10);
    assert("focus_up"@ != "auto_split"@);
    reveal_strlit("close_pane");
    assert("focus_up"@.len() == 8 && "close_pane"@.len() == 10);
    assert("focus_up"@ != "close_pane"@);
    reveal_strlit("focus_left");
    assert("focus_up"@.len() == 8 && "focus_left"@.len() == 10);
    assert("focus_up"@ != "focus_left"@);
    reveal_strlit("focus_right");
    assert("focus_up"@.len() == 8 && "focus_right"@.len() == 11);
    assert("focus_up"@ != "focus_right"@);
}

proof fn lemma_resolves_focus_down(ctx: DispatchCtx)
    ensures
        registry_action("focus_down"@, ctx) == Some(Action::FocusDown),
{
    reveal_strlit("focus_down");
    reveal_strlit("paste");
    assert("focus_down"@.len() == 10 && "paste"@.len() == 5);
    assert("focus_down"@ != "paste"@);
    reveal_strlit("copy");
    assert("focus_down"@.len() == 10 && "copy"@.len() == 4);
    assert("focus_down"@ != "copy"@);
    reveal_strlit("new_tab");
    assert("focus_down"@.len() == 10 && "new_tab"@.len() == 7);
    assert("focus_down"@ != "new_tab"@);
    reveal_strlit("close_tab");
    assert("focus_down"@.len() == 10 && "close_tab"@.len() == 9);
    assert("focus_down"@ != "close_tab"@);
    reveal_strlit("next_tab");
    assert("focus_down"@.len() == 10 && "next_tab"@.len() == 8);
    assert("focus_down"@ != "next_tab"@);
    reveal_strlit("prev_tab");
    assert("focus_down"@.len() == 10 && "prev_tab"@.len() == 8);
    assert("focus_down"@ != "prev_tab"@);
    reveal_strlit("move_tab_left");
    assert("focus_down"@.len() == 10 && "move_tab_left"@.len() == 13);
    assert("focus_down"@ != "move_tab_left"@);
    reveal_strlit("move_tab_right");
    assert("focus_down"@.len() == 10 && "move_tab_right"@.len() == 14);
    assert("focus_down"@ != "move_tab_right"@);
    reveal_strlit("rename_tab");
    assert("focus_down"@[0] == 'f' && "rename_tab"@[0] == 'r');
    assert("focus_down"@ != "rename_tab"@);
    reveal_strlit("go_to_tab_1");
    assert("focus_down"@.len() == 10 && "go_to_tab_1"@.len() == 11);
    assert("focus_down"@ != "go_to_tab_1"@);
    reveal_strlit("go_to_tab_2");
    assert("focus_down"@.len() == 10 && "go_to_tab_2"@.len() == 11);
    assert("focus_down"@ != "go_to_tab_2"@);
    reveal_strlit("go_to_tab_3");
    assert("focus_down"@.len() == 10 && "go_to_tab_3"@.len() == 11);
    assert("focus_down"@ != "go_to_tab_3"@);
    reveal_strlit("go_to_tab_4");
    assert("focus_down"@.len() == 10 && "go_to_tab_4"@.len() == 11);
    assert("focus_down"@ != "go_to_tab_4"@);
    reveal_strlit("go_to_tab_5");
    assert("focus_down"@.len() == 10 && "go_to_tab_5"@.len() == 11);
    assert("focus_down"@ != "go_to_tab_5"@);
    reveal_strlit("go_to_tab_6");
    assert("focus_down"@.len() == 10 && "go_to_tab_6"@.len() == 11);
    assert("focus_down"@ != "go_to_tab_6"@);
    reveal_strlit("go_to_tab_7");
    assert("focus_down"@.len() == 10 && "go_to_tab_7"@.len() == 11);
    assert("focus_down"@ != "go_to_tab_7"@);
    reveal_strlit("go_to_tab_8");
    assert("focus_down"@.len() == 10 && "go_to_tab_8"@.len() == 11);
    assert("focus_down"@ != "go_to_tab_8"@);
    reveal_strlit("go_to_tab_9");
    assert("focus_down"@.len() == 10 && "go_to_tab_9"@.len() == 11);
    assert("focus_down"@ != "go_to_tab_9"@);
    reveal_strlit("split_horizontal");
    assert("focus_down"@.len() == 10 && "split_horizontal"@.len() == 16);
    assert("focus_down"@ != "split_horizontal"@);
    reveal_strlit("split_vertical");
    assert("focus_down"@.len() == 10 && "split_vertical"@.len() == 14);
    assert("focus_down"@ != "split_vertical"@);
    reveal_strlit("auto_split");
    assert("focus_down"@[0] == 'f' && "auto_split"@[0] == 'a');
    assert("focus_down"@ != "auto_split"@);
    reveal_strlit("close_pane");
    assert("focus_down"@[0] == 'f' && "close_pane"@[0] == 'c');
    assert("focus_down"@ != "close_pane"@);
    reveal_strlit("focus_left");
    assert("focus_down"@[6] == 'd' && "focus_left"@[6] == 'l');
    assert("focus_down"@ != "focus_left"@);
    reveal_strlit("focus_right");
    assert("focus_down"@.len() == 10 && "focus_right"@.len() == 11);
    assert("focus_down"@ != "focus_right"@);
    reveal_strlit("focus_up");
    assert("focus_down"@.len() == 10 && "focus_up"@.len() == 8);
    assert("focus_down"@ != "focus_up"@);
}

proof fn lemma_resolves_focus_next(ctx: DispatchCtx)
    ensures
        registry_action("focus_next"@, ctx) == Some(Action::FocusNext),
{
    reveal_strlit("focus_next");
    reveal_strlit("paste");
    assert("focus_next"@.len() == 10 && "paste"@.len() == 5);
    assert("focus_next"@ != "paste"@);
    reveal_strlit("copy");
    assert("focus_next"@.len() == 10 && "copy"@.len() == 4);
    assert("focus_next"@ != "copy"@);
    reveal_strlit("new_tab");
    assert("focus_next"@.len() == 10 && "new_tab"@.len() == 7);
    assert("focus_next"@ != "new_tab"@);
    reveal_strlit("close_tab");
    assert("focus_next"@.len() == 10 && "close_tab"@.len() == 9);
    assert("focus_next"@ != "close_tab"@);
    reveal_strlit("next_tab");
    assert("focus_next"@.len() == 10 && "next_tab"@.len() == 8);
    assert("focus_next"@ != "next_tab"@);
    reveal_strlit("prev_tab");
    assert("focus_next"@.len() == 10 && "prev_tab"@.len() == 8);
    assert("focus_next"@ != "prev_tab"@);
    reveal_strlit("move_tab_left");
    assert("focus_next"@.len() == 10 && "move_tab_left"@.len() == 13);
    assert("focus_next"@ != "move_tab_left"@);
    reveal_strlit("move_tab_right");
    assert("focus_next"@.len() == 10 && "move_tab_right"@.len() == 14);
    assert("focus_next"@ != "move_tab_right"@);
    reveal_strlit("rename_tab");
    assert("focus_next"@[0] == 'f' && "rename_tab"@[0] == 'r');
    assert("focus_next"@ != "rename_tab"@);
    reveal_strlit("go_to_tab_1");
    assert("focus_next"@.len() == 10 && "go_to_tab_1"@.len() == 11);
    assert("focus_next"@ != "go_to_tab_1"@);
    reveal_strlit("go_to_tab_2");
    assert("focus_next"@.len() == 10 && "go_to_tab_2"@.len() == 11);
    assert("focus_next"@ != "go_to_tab_2"@);
    reveal_strlit("go_to_tab_3");
    assert("focus_next"@.len() == 10 && "go_to_tab_3"@.len() == 11);
    assert("focus_next"@ != "go_to_tab_3"@);
    reveal_strlit("go_to_tab_4");
    assert("focus_next"@.len() == 10 && "go_to_tab_4"@.len() == 11);
    assert("focus_next"@ != "go_to_tab_4"@);
    reveal_strlit("go_to_tab_5");
    assert("focus_next"@.len() == 10 && "go_to_tab_5"@.len() == 11);
    assert("focus_next"@ != "go_to_tab_5"@);
    reveal_strlit("go_to_tab_6");
    assert("focus_next"@.len() == 10 && "go_to_tab_6"@.len() == 11);
    assert("focus_next"@ != "go_to_tab_6"@);
    reveal_strlit("go_to_tab_7");
    assert("focus_next"@.len() == 10 && "go_to_tab_7"@.len() == 11);
    assert("focus_next"@ != "go_to_tab_7"@);
    reveal_strlit("go_to_tab_8");
    assert("focus_next"@.len() == 10 && "go_to_tab_8"@.len() == 11);
    assert("focus_next"@ != "go_to_tab_8"@);
    reveal_strlit("go_to_tab_9");
    assert("focus_next"@.len() == 10 && "go_to_tab_9"@.len() == 11);
    assert("focus_next"@ != "go_to_tab_9"@);
    reveal_strlit("split_horizontal");
    assert("focus_next"@.len() == 10 && "split_horizontal"@.len() == 16);
    assert("focus_next"@ != "split_horizontal"@);
    reveal_strlit("split_vertical");
    assert("focus_next"@.len() == 10 && "split_vertical"@.len() == 14);
    assert("focus_next"@ != "split_vertical"@);
    reveal_strlit("auto_split");
    assert("focus_next"@[0] == 'f' && "auto_split"@[0] == 'a');
    assert("focus_next"@ != "auto_split"@);
    reveal_strlit("close_pane");
    assert("focus_next"@[0] == 'f' && "close_pane"@[0] == 'c');
    assert("focus_next"@ != "close_pane"@);
    reveal_strlit("focus_left");
    assert("focus_next"@[6] == 'n' && "focus_left"@[6] == 'l');
    assert("focus_next"@ != "focus_left"@);
    reveal_strlit("focus_right");
    assert("focus_next"@.len() == 10 && "focus_right"@.len() == 11);
    assert("focus_next"@ != "focus_right"@);
    reveal_strlit("focus_up");
    assert("focus_next"@.len() == 10 && "focus_up"@.len() == 8);
    assert("focus_next"@ != "focus_up"@);
    reveal_strlit("focus_down");
    assert("focus_next"@[6] == 'n' && "focus_down"@[6] == 'd');
    assert("focus_next"@ != "focus_down"@);
}

proof fn lemma_resolves_zoom_pane(ctx: DispatchCtx)
    ensures
        registry_action("zoom_pane"@, ctx) == Some(Action::ZoomPane),
{
    reveal_strlit("zoom_pane");
    reveal_strlit("paste");
    assert("zoom_pane"@.len() == 9 && "paste"@.len() == 5);
    assert("zoom_pane"@ != "paste"@);
    reveal_strlit("copy");
    assert("zoom_pane"@.len() == 9 && "copy"@.len() == 4);
    assert("zoom_pane"@ != "copy"@);
    reveal_strlit("new_tab");
    assert("zoom_pane"@.len() == 9 && "new_tab"@.len() == 7);
    assert("zoom_pane"@ != "new_tab"@);
    reveal_strlit("close_tab");
    assert("zoom_pane"@[0] == 'z' && "close_tab"@[0] == 'c');
    assert("zoom_pane"@ != "close_tab"@);
    reveal_strlit("next_tab");
    assert("zoom_pane"@.len() == 9 && "next_tab"@.len() == 8);
    assert("zoom_pane"@ != "next_tab"@);
    reveal_strlit("prev_tab");
    assert("zoom_pane"@.len() == 9 && "prev_tab"@.len() == 8);
    assert("zoom_pane"@ != "prev_tab"@);
    reveal_strlit("move_tab_left");
    assert("zoom_pane"@.len() == 9 && "move_tab_left"@.len() == 13);
    assert("zoom_pane"@ != "move_tab_left"@);
    reveal_strlit("move_tab_right");
    assert("zoom_pane"@.len() == 9 && "move_tab_right"@.len() == 14);
    assert("zoom_pane"@ != "move_tab_right"@);
    reveal_strlit("rename_tab");
    assert("zoom_pane"@.len() == 9 && "rename_tab"@.len() == 10);
    assert("zoom_pane"@ != "rename_tab"@);
    reveal_strlit("go_to_tab_1");
    assert("zoom_pane"@.len() == 9 && "go_to_tab_1"@.len() == 11);
    assert("zoom_pane"@ != "go_to_tab_1"@);
    reveal_strlit("go_to_tab_2");
    assert("zoom_pane"@.len() == 9 && "go_to_tab_2"@.len() == 11);
    assert("zoom_pane"@ != "go_to_tab_2"@);
    reveal_strlit("go_to_tab_3");
    assert("zoom_pane"@.len() == 9 && "go_to_tab_3"@.len() == 11);
    assert("zoom_pane"@ != "go_to_tab_3"@);
    reveal_strlit("go_to_tab_4");
    assert("zoom_pane"@.len() == 9 && "go_to_tab_4"@.len() == 11);
    assert("zoom_pane"@ != "go_to_tab_4"@);
    reveal_strlit("go_to_tab_5");
    assert("zoom_pane"@.len() == 9 && "go_to_tab_5"@.len() == 11);
    assert("zoom_pane"@ != "go_to_tab_5"@);
    reveal_strlit("go_to_tab_6");
    assert("zoom_pane"@.len() == 9 && "go_to_tab_6"@.len() == 11);
    assert("zoom_pane"@ != "go_to_tab_6"@);
    reveal_strlit("go_to_tab_7");
    assert("zoom_pane"@.len() == 9 && "go_to_tab_7"@.len() == 11);
    assert("zoom_pane"@ != "go_to_tab_7"@);
    reveal_strlit("go_to_tab_8");
    assert("zoom_pane"@.len() == 9 && "go_to_tab_8"@.len() == 11);
    assert("zoom_pane"@ != "go_to_tab_8"@);
    reveal_strlit("go_to_tab_9");
    assert("zoom_pane"@.len() == 9 && "go_to_tab_9"@.len() == 11);
    assert("zoom_pane"@ != "go_to_tab_9"@);
    reveal_strlit("split_horizontal");
    assert("zoom_pane"@.len() == 9 && "split_horizontal"@.len() == 16);
    assert("zoom_pane"@ != "split_horizontal"@);
    reveal_strlit("split_vertical");
    assert("zoom_pane"@.len() == 9 && "split_vertical"@.len() == 14);
    assert("zoom_pane"@ != "split_vertical"@);
    reveal_strlit("auto_split");
    assert("zoom_pane"@.len() == 9 && "auto_split"@.len() == 10);
    assert("zoom_pane"@ != "auto_split"@);
    reveal_strlit("close_pane");
    assert("zoom_pane"@.len() == 9 && "close_pane"@.len() == 10);
    assert("zoom_pane"@ != "close_pane"@);
    reveal_strlit("focus_left");
    assert("zoom_pane"@.len() == 9 && "focus_left"@.len() == 10);
    assert("zoom_pane"@ != "focus_left"@);
    reveal_strlit("focus_right");
    assert("zoom_pane"@.len() == 9 && "focus_right"@.len() == 11);
    assert("zoom_pane"@ != "focus_right"@);
    reveal_strlit("focus_up");
    assert("zoom_pane"@.len() == 9 && "focus_up"@.len() == 8);
    assert("zoom_pane"@ != "focus_up"@);
    reveal_strlit("focus_down");
    assert("zoom_pane"@.len() == 9 && "focus_down"@.len() == 10);
    assert("zoom_pane"@ != "focus_down"@);
    reveal_strlit("focus_next");
    assert("zoom_pane"@.len() == 9 && "focus_next"@.len() == 10);
    assert("zoom_pane"@ != "focus_next"@);
}

proof fn lemma_resolves_rotate_panes_forward(ctx: DispatchCtx)
    ensures
        registry_action("rotate_panes_forward"@, ctx) == Some(Action::RotatePanesForward),
{
    reveal_strlit("rotate_panes_forward");
    reveal_strlit("paste");
    assert("rotate_panes_forward"@.len() == 20 && "paste"@.len() == 5);
    assert("rotate_panes_forward"@ != "paste"@);
    reveal_strlit("copy");
    assert("rotate_panes_forward"@.len() == 20 && "copy"@.len() == 4);
    assert("rotate_panes_forward"@ != "copy"@);
    reveal_strlit("new_tab");
    assert("rotate_panes_forward"@.len() == 20 && "new_tab"@.len() == 7);
    assert("rotate_panes_forward"@ != "new_tab"@);
    reveal_strlit("close_tab");
    assert("rotate_panes_forward"@.len() == 20 && "close_tab"@.len() == 9);
    assert("rotate_panes_forward"@ != "close_tab"@);
    reveal_strlit("next_tab");
    assert("rotate_panes_forward"@.len() == 20 && "next_tab"@.len() == 8);
    assert("rotate_panes_forward"@ != "next_tab"@);
    reveal_strlit("prev_tab");
    assert("rotate_panes_forward"@.len() == 20 && "prev_tab"@.len() == 8);
    assert("rotate_panes_forward"@ != "prev_tab"@);
    reveal_strlit("move_tab_left");
    assert("rotate_panes_forward"@.len() == 20 && "move_tab_left"@.len() == 13);
    assert("rotate_panes_forward"@ != "move_tab_left"@);
    reveal_strlit("move_tab_right");
    assert("rotate_panes_forward"@.len() == 20 && "move_tab_right"@.len() == 14);
    assert("rotate_panes_forward"@ != "move_tab_right"@);
    reveal_strlit("rename_tab");
    assert("rotate_panes_forward"@.len() == 20 && "rename_tab"@.len() == 10);
    assert("rotate_panes_forward"@ != "rename_tab"@);
    reveal_strlit("go_to_tab_1");
    assert("rotate_panes_forward"@.len() == 20 && "go_to_tab_1"@.len() == 11);
    assert("rotate_panes_forward"@ != "go_to_tab_1"@);
    reveal_strlit("go_to_tab_2");
    assert("rotate_panes_forward"@.len() == 20 && "go_to_tab_2"@.len() == 11);
    assert("rotate_panes_forward"@ != "go_to_tab_2"@);
    reveal_strlit("go_to_tab_3");
    assert("rotate_panes_forward"@.len() == 20 && "go_to_tab_3"@.len() == 11);
    assert("rotate_panes_forward"@ != "go_to_tab_3"@);
    reveal_strlit("go_to_tab_4");
    assert("rotate_panes_forward"@.len() == 20 && "go_to_tab_4"@.len() == 11);
    assert("rotate_panes_forward"@ != "go_to_tab_4"@);
    reveal_strlit("go_to_tab_5");
    assert("rotate_panes_forward"@.len() == 20 && "go_to_tab_5"@.len() == 11);
    assert("rotate_panes_forward"@ != "go_to_tab_5"@);
    reveal_strlit("go_to_tab_6");
    assert("rotate_panes_forward"@.len() == 20 && "go_to_tab_6"@.len() == 11);
    assert("rotate_panes_forward"@ != "go_to_tab_6"@);
    reveal_strlit("go_to_tab_7");
    assert("rotate_panes_forward"@.len() == 20 && "go_to_tab_7"@.len() == 11);
    assert("rotate_panes_forward"@ != "go_to_tab_7"@);
    reveal_strlit("go_to_tab_8");
    assert("rotate_panes_forward"@.len() == 20 && "go_to_tab_8"@.len() == 11);
    assert("rotate_panes_forward"@ != "go_to_tab_8"@);
    reveal_strlit("go_to_tab_9");
    assert("rotate_panes_forward"@.len() == 20 && "go_to_tab_9"@.len() == 11);
    assert("rotate_panes_forward"@ != "go_to_tab_9"@);
    reveal_strlit("split_horizontal");
    assert("rotate_panes_forward"@.len() == 20 && "split_horizontal"@.len() == 16);
    assert("rotate_panes_forward"@ != "split_horizontal"@);
    reveal_strlit("split_vertical");
    assert("rotate_panes_forward"@.len() == 20 && "split_vertical"@.len() == 14);
    assert("rotate_panes_forward"@ != "split_vertical"@);
    reveal_strlit("auto_split");
    assert("rotate_panes_forward"@.len() == 20 && "auto_split"@.len() == 10);
    assert("rotate_panes_forward"@ != "auto_split"@);
    reveal_strlit("close_pane");
    assert("rotate_panes_forward"@.len() == 20 && "close_pane"@.len() == 10);
    assert("rotate_panes_forward"@ != "close_pane"@);
    reveal_strlit("focus_left");
    assert("rotate_panes_forward"@.len() == 20 && "focus_left"@.len() == 10);
    assert("rotate_panes_forward"@ != "focus_left"@);
    reveal_strlit("focus_right");
    assert("rotate_panes_forward"@.len() == 20 && "focus_right"@.len() == 11);
    assert("rotate_panes_forward"@ != "focus_right"@);
    reveal_strlit("focus_up");
    assert("rotate_panes_forward"@.len() == 20 && "focus_up"@.len() == 8);
    assert("rotate_panes_forward"@ != "focus_up"@);
    reveal_strlit("focus_down");
    assert("rotate_panes_forward"@.len() == 20 && "focus_down"@.len() == 10);
    assert("rotate_panes_forward"@ != "focus_down"@);
    reveal_strlit("focus_next");
    assert("rotate_panes_forward"@.len() == 20 && "focus_next"@.len() == 10);
    assert("rotate_panes_forward"@ != "focus_next"@);
    reveal_strlit("zoom_pane");
    assert("rotate_panes_forward"@.len() == 20 && "zoom_pane"@.len() == 9);
    assert("rotate_panes_forward"@ != "zoom_pane"@);
}

proof fn lemma_resolves_rotate_panes_backward(ctx: DispatchCtx)
    ensures
        registry_action("rotate_panes_backward"@, ctx) == Some(Action::RotatePanesBackward),
{
    reveal_strlit("rotate_panes_backward");
    reveal_strlit("paste");
    assert("rotate_panes_backward"@.len() == 21 && "paste"@.len() == 5);
    assert("rotate_panes_backward"@ != "paste"@);
    reveal_strlit("copy");
    assert("rotate_panes_backward"@.len() == 21 && "copy"@.len() == 4);
    assert("rotate_panes_backward"@ != "copy"@);
    reveal_strlit("new_tab");
    assert("rotate_panes_backward"@.len() == 21 && "new_tab"@.len() == 7);
    assert("rotate_panes_backward"@ != "new_tab"@);
    reveal_strlit("close_tab");
    assert("rotate_panes_backward"@.len() == 21 && "close_tab"@.len() == 9);
    assert("rotate_panes_backward"@ != "close_tab"@);
    reveal_strlit("next_tab");
    assert("rotate_panes_backward"@.len() == 21 && "next_tab"@.len() == 8);
    assert("rotate_panes_backward"@ != "next_tab"@);
    reveal_strlit("prev_tab");
    assert("rotate_panes_backward"@.len() == 21 && "prev_tab"@.len() == 8);
    assert("rotate_panes_backward"@ != "prev_tab"@);
    reveal_strlit("move_tab_left");
    assert("rotate_panes_backward"@.len() == 21 && "move_tab_left"@.len() == 13);
    assert("rotate_panes_backward"@ != "move_tab_left"@);
    reveal_strlit("move_tab_right");
    assert("rotate_panes_backward"@.len() == 21 && "move_tab_right"@.len() == 14);
    assert("rotate_panes_backward"@ != "move_tab_right"@);
    reveal_strlit("rename_tab");
    assert("rotate_panes_backward"@.len() == 21 && "rename_tab"@.len() == 10);
    assert("rotate_panes_backward"@ != "rename_tab"@);
    reveal_strlit("go_to_tab_1");
    assert("rotate_panes_backward"@.len() == 21 && "go_to_tab_1"@.len() == 11);
    assert("rotate_panes_backward"@ != "go_to_tab_1"@);
    reveal_strlit("go_to_tab_2");
    assert("rotate_panes_backward"@.len() == 21 && "go_to_tab_2"@.len() == 11);
    assert("rotate_panes_backward"@ != "go_to_tab_2"@);
    reveal_strlit("go_to_tab_3");
    assert("rotate_panes_backward"@.len() == 21 && "go_to_tab_3"@.len() == 11);
    assert("rotate_panes_backward"@ != "go_to_tab_3"@);
    reveal_strlit("go_to_tab_4");
    assert("rotate_panes_backward"@.len() == 21 && "go_to_tab_4"@.len() == 11);
    assert("rotate_panes_backward"@ != "go_to_tab_4"@);
    reveal_strlit("go_to_tab_5");
    assert("rotate_panes_backward"@.len() == 21 && "go_to_tab_5"@.len() == 11);
    assert("rotate_panes_backward"@ != "go_to_tab_5"@);
    reveal_strlit("go_to_tab_6");
    assert("rotate_panes_backward"@.len() == 21 && "go_to_tab_6"@.len() == 11);
    assert("rotate_panes_backward"@ != "go_to_tab_6"@);
    reveal_strlit("go_to_tab_7");
    assert("rotate_panes_backward"@.len() == 21 && "go_to_tab_7"@.len() == 11);
    assert("rotate_panes_backward"@ != "go_to_tab_7"@);
    reveal_strlit("go_to_tab_8");
    assert("rotate_panes_backward"@.len() == 21 && "go_to_tab_8"@.len() == 11);
    assert("rotate_panes_backward"@ != "go_to_tab_8"@);
    reveal_strlit("go_to_tab_9");
    assert("rotate_panes_backward"@.len() == 21 && "go_to_tab_9"@.len() == 11);
    assert("rotate_panes_backward"@ != "go_to_tab_9"@);
    reveal_strlit("split_horizontal");
    assert("rotate_panes_backward"@.len() == 21 && "split_horizontal"@.len() == 16);
    assert("rotate_panes_backward"@ != "split_horizontal"@);
    reveal_strlit("split_vertical");
    assert("rotate_panes_backward"@.len() == 21 && "split_vertical"@.len() == 14);
    assert("rotate_panes_backward"@ != "split_vertical"@);
    reveal_strlit("auto_split");
    assert("rotate_panes_backward"@.len() == 21 && "auto_split"@.len() == 10);
    assert("rotate_panes_backward"@ != "auto_split"@);
    reveal_strlit("close_pane");
    assert("rotate_panes_backward"@.len() == 21 && "close_pane"@.len() == 10);
    assert("rotate_panes_backward"@ != "close_pane"@);
    reveal_strlit("focus_left");
    assert("rotate_panes_backward"@.len() == 21 && "focus_left"@.len() == 10);
    assert("rotate_panes_backward"@ != "focus_left"@);
    reveal_strlit("focus_right");
    assert("rotate_panes_backward"@.len() == 21 && "focus_right"@.len() == 11);
    assert("rotate_panes_backward"@ != "focus_right"@);
    reveal_strlit("focus_up");
    assert("rotate_panes_backward"@.len() == 21 && "focus_up"@.len() == 8);
    assert("rotate_panes_backward"@ != "focus_up"@);
    reveal_strlit("focus_down");
    assert("rotate_panes_backward"@.len() == 21 && "focus_down"@.len() == 10);
    assert("rotate_panes_backward"@ != "focus_down"@);
    reveal_strlit("focus_next");
    assert("rotate_panes_backward"@.len() == 21 && "focus_next"@.len() == 10);
    assert("rotate_panes_backward"@ != "focus_next"@);
    reveal_strlit("zoom_pane");
    assert("rotate_panes_backward"@.len() == 21 && "zoom_pane"@.len() == 9);
    assert("rotate_panes_backward"@ != "zoom_pane"@);
    reveal_strlit("rotate_panes_forward");
    assert("rotate_panes_backward"@.len() == 21 && "rotate_panes_forward"@.len() == 20);
    assert("rotate_panes_backward"@ != "rotate_panes_forward"@);
}

proof fn lemma_resolves_resize_pane_right(ctx: DispatchCtx)
    ensures
        registry_action("resize_pane_right"@, ctx) == Some(Action::ResizePaneRight),
{
    reveal_strlit("resize_pane_right");
    reveal_strlit("paste");
    assert("resize_pane_right"@.len() == 17 && "paste"@.len() == 5);
    assert("resize_pane_right"@ != "paste"@);
    reveal_strlit("copy");
    assert("resize_pane_right"@.len() == 17 && "copy"@.len() == 4);
    assert("resize_pane_right"@ != "copy"@);
    reveal_strlit("new_tab");
    assert("resize_pane_right"@.len() == 17 && "new_tab"@.len() == 7);
    assert("resize_pane_right"@ != "new_tab"@);
    reveal_strlit("close_tab");
    assert("resize_pane_right"@.len() == 17 && "close_tab"@.len() == 9);
    assert("resize_pane_right"@ != "close_tab"@);
    reveal_strlit("next_tab");
    assert("resize_pane_right"@.len() == 17 && "next_tab"@.len() == 8);
    assert("resize_pane_right"@ != "next_tab"@);
    reveal_strlit("prev_tab");
    assert("resize_pane_right"@.len() == 17 && "prev_tab"@.len() == 8);
    assert("resize_pane_right"@ != "prev_tab"@);
    reveal_strlit("move_tab_left");
    assert("resize_pane_right"@.len() == 17 && "move_tab_left"@.len() == 13);
    assert("resize_pane_right"@ != "move_tab_left"@);
    reveal_strlit("move_tab_right");
    assert("resize_pane_right"@.len() == 17 && "move_tab_right"@.len() == 14);
    assert("resize_pane_right"@ != "move_tab_right"@);
    reveal_strlit("rename_tab");
    assert("resize_pane_right"@.len() == 17 && "rename_tab"@.len() == 10);
    assert("resize_pane_right"@ != "rename_tab"@);
    reveal_strlit("go_to_tab_1");
    assert("resize_pane_right"@.len() == 17 && "go_to_tab_1"@.len() == 11);
    assert("resize_pane_right"@ != "go_to_tab_1"@);
    reveal_strlit("go_to_tab_2");
    assert("resize_pane_right"@.len() == 17 && "go_to_tab_2"@.len() == 11);
    assert("resize_pane_right"@ != "go_to_tab_2"@);
    reveal_strlit("go_to_tab_3");
    assert("resize_pane_right"@.len() == 17 && "go_to_tab_3"@.len() == 11);
    assert("resize_pane_right"@ != "go_to_tab_3"@);
    reveal_strlit("go_to_tab_4");
    assert("resize_pane_right"@.len() == 17 && "go_to_tab_4"@.len() == 11);
    assert("resize_pane_right"@ != "go_to_tab_4"@);
    reveal_strlit("go_to_tab_5");
    assert("resize_pane_right"@.len() == 17 && "go_to_tab_5"@.len() == 11);
    assert("resize_pane_right"@ != "go_to_tab_5"@);
    reveal_strlit("go_to_tab_6");
    assert("resize_pane_right"@.len() == 17 && "go_to_tab_6"@.len() == 11);
    assert("resize_pane_right"@ != "go_to_tab_6"@);
    reveal_strlit("go_to_tab_7");
    assert("resize_pane_right"@.len() == 17 && "go_to_tab_7"@.len() == 11);
    assert("resize_pane_right"@ != "go_to_tab_7"@);
    reveal_strlit("go_to_tab_8");
    assert("resize_pane_right"@.len() == 17 && "go_to_tab_8"@.len() == 11);
    assert("resize_pane_right"@ != "go_to_tab_8"@);
    reveal_strlit("go_to_tab_9");
    assert("resize_pane_right"@.len() == 17 && "go_to_tab_9"@.len() == 11);
    assert("resize_pane_right"@ != "go_to_tab_9"@);
    reveal_strlit("split_horizontal");
    assert("resize_pane_right"@.len() == 17 && "split_horizontal"@.len() == 16);
    assert("resize_pane_right"@ != "split_horizontal"@);
    reveal_strlit("split_vertical");
    assert("resize_pane_right"@.len() == 17 && "split_vertical"@.len() == 14);
    assert("resize_pane_right"@ != "split_vertical"@);
    reveal_strlit("auto_split");
    assert("resize_pane_right"@.len() == 17 && "auto_split"@.len() == 10);
    assert("resize_pane_right"@ != "auto_split"@);
    reveal_strlit("close_pane");
    assert("resize_pane_right"@.len() == 17 && "close_pane"@.len() == 10);
    assert("resize_pane_right"@ != "close_pane"@);
    reveal_strlit("focus_left");
    assert("resize_pane_right"@.len() == 17 && "focus_left"@.len() == 10);
    assert("resize_pane_right"@ != "focus_left"@);
    reveal_strlit("focus_right");
    assert("resize_pane_right"@.len() == 17 && "focus_right"@.len() == 11);
    assert("resize_pane_right"@ != "focus_right"@);
    reveal_strlit("focus_up");
    assert("resize_pane_right"@.len() == 17 && "focus_up"@.len() == 8);
    assert("resize_pane_right"@ != "focus_up"@);
    reveal_strlit("focus_down");
    assert("resize_pane_right"@.len() == 17 && "focus_down"@.len() == 10);
    assert("resize_pane_right"@ != "focus_down"@);
    reveal_strlit("focus_next");
    assert("resize_pane_right"@.len() == 17 && "focus_next"@.len() == 10);
    assert("resize_pane_right"@ != "focus_next"@);
    reveal_strlit("zoom_pane");
    assert("resize_pane_right"@.len() == 17 && "zoom_pane"@.len() == 9);
    assert("resize_pane_right"@ != "zoom_pane"@);
    reveal_strlit("rotate_panes_forward");
    assert("resize_pane_right"@.len() == 17 && "rotate_panes_forward"@.len() == 20);
    assert("resize_pane_right"@ != "rotate_panes_forward"@);
    reveal_strlit("rotate_panes_backward");
    assert("resize_pane_right"@.len() == 17 && "rotate_panes_backward"@.len() == 21);
    assert("resize_pane_right"@ != "rotate_panes_backward"@);
}

proof fn lemma_resolves_resize_pane_left(ctx: DispatchCtx)
    ensures
        registry_action("resize_pane_left"@, ctx) == Some(Action::ResizePaneLeft),
{
    reveal_strlit("resize_pane_left");
    reveal_strlit("paste");
    assert("resize_pane_left"@.len() == 16 && "paste"@.len() == 5);
    assert("resize_pane_left"@ != "paste"@);
    reveal_strlit("copy");
    assert("resize_pane_left"@.len() == 16 && "copy"@.len() == 4);
    assert("resize_pane_left"@ != "copy"@);
    reveal_strlit("new_tab");
    assert("resize_pane_left"@.len() == 16 && "new_tab"@.len() == 7);
    assert("resize_pane_left"@ != "new_tab"@);
    reveal_strlit("close_tab");
    assert("resize_pane_left"@.len() == 16 && "close_tab"@.len() == 9);
    assert("resize_pane_left"@ != "close_tab"@);
    reveal_strlit("next_tab");
    assert("resize_pane_left"@.len() == 16 && "next_tab"@.len() == 8);
    assert("resize_pane_left"@ != "next_tab"@);
    reveal_strlit("prev_tab");
    assert("resize_pane_left"@.len() == 16 && "prev_tab"@.len() == 8);
    assert("resize_pane_left"@ != "prev_tab"@);
    reveal_strlit("move_tab_left");
    assert("resize_pane_left"@.len() == 16 && "move_tab_left"@.len() == 13);
    assert("resize_pane_left"@ != "move_tab_left"@);
    reveal_strlit("move_tab_right");
    assert("resize_pane_left"@.len() == 16 && "move_tab_right"@.len() == 14);
    assert("resize_pane_left"@ != "move_tab_right"@);
    reveal_strlit("rename_tab");
    assert("resize_pane_left"@.len() == 16 && "rename_tab"@.len() == 10);
    assert("resize_pane_left"@ != "rename_tab"@);
    reveal_strlit("go_to_tab_1");
    assert("resize_pane_left"@.len() == 16 && "go_to_tab_1"@.len() == 11);
    assert("resize_pane_left"@ != "go_to_tab_1"@);
    reveal_strlit("go_to_tab_2");
    assert("resize_pane_left"@.len() == 16 && "go_to_tab_2"@.len() == 11);
    assert("resize_pane_left"@ != "go_to_tab_2"@);
    reveal_strlit("go_to_tab_3");
    assert("resize_pane_left"@.len() == 16 && "go_to_tab_3"@.len() == 11);
    assert("resize_pane_left"@ != "go_to_tab_3"@);
    reveal_strlit("go_to_tab_4");
    assert("resize_pane_left"@.len() == 16 && "go_to_tab_4"@.len() == 11);
    assert("resize_pane_left"@ != "go_to_tab_4"@);
    reveal_strlit("go_to_tab_5");
    assert("resize_pane_left"@.len() == 16 && "go_to_tab_5"@.len() == 11);
    assert("resize_pane_left"@ != "go_to_tab_5"@);
    reveal_strlit("go_to_tab_6");
    assert("resize_pane_left"@.len() == 16 && "go_to_tab_6"@.len() == 11);
    assert("resize_pane_left"@ != "go_to_tab_6"@);
    reveal_strlit("go_to_tab_7");
    assert("resize_pane_left"@.len() == 16 && "go_to_tab_7"@.len() == 11);
    assert("resize_pane_left"@ != "go_to_tab_7"@);
    reveal_strlit("go_to_tab_8");
    assert("resize_pane_left"@.len() == 16 && "go_to_tab_8"@.len() == 11);
    assert("resize_pane_left"@ != "go_to_tab_8"@);
    reveal_strlit("go_to_tab_9");
    assert("resize_pane_left"@.len() == 16 && "go_to_tab_9"@.len() == 11);
    assert("resize_pane_left"@ != "go_to_tab_9"@);
    reveal_strlit("split_horizontal");
    assert("resize_pane_left"@[0] == 'r' && "split_horizontal"@[0] == 's');
    assert("resize_pane_left"@ != "split_horizontal"@);
    reveal_strlit("split_vertical");
    assert("resize_pane_left"@.len() == 16 && "split_vertical"@.len() == 14);
    assert("resize_pane_left"@ != "split_vertical"@);
    reveal_strlit("auto_split");
    assert("resize_pane_left"@.len() == 16 && "auto_split"@.len() == 10);
    assert("resize_pane_left"@ != "auto_split"@);
    reveal_strlit("close_pane");
    assert("resize_pane_left"@.len() == 16 && "close_pane"@.len() == 10);
    assert("resize_pane_left"@ != "close_pane"@);
    reveal_strlit("focus_left");
    assert("resize_pane_left"@.len() == 16 && "focus_left"@.len() == 10);
    assert("resize_pane_left"@ != "focus_left"@);
    reveal_strlit("focus_right");
    assert("resize_pane_left"@.len() == 16 && "focus_right"@.len() == 11);
    assert("resize_pane_left"@ != "focus_right"@);
    reveal_strlit("focus_up");
    assert("resize_pane_left"@.len() == 16 && "focus_up"@.len() == 8);
    assert("resize_pane_left"@ != "focus_up"@);
    reveal_strlit("focus_down");
    assert("resize_pane_left"@.len() == 16 && "focus_down"@.len() == 10);
    assert("resize_pane_left"@ != "focus_down"@);
    reveal_strlit("focus_next");
    assert("resize_pane_left"@.len() == 16 && "focus_next"@.len() == 10);
    assert("resize_pane_left"@ != "focus_next"@);
    reveal_strlit("zoom_pane");
    assert("resize_pane_left"@.len() == 16 && "zoom_pane"@.len() == 9);
    assert("resize_pane_left"@ != "zoom_pane"@);
    reveal_strlit("rotate_panes_forward");
    assert("resize_pane_left"@.len() == 16 && "rotate_panes_forward"@.len() == 20);
    assert("resize_pane_left"@ != "rotate_panes_forward"@);
    reveal_strlit("rotate_panes_backward");
    assert("resize_pane_left"@.len() == 16 && "rotate_panes_backward"@.len() == 21);
    assert("resize_pane_left"@ != "rotate_panes_backward"@);
    reveal_strlit("resize_pane_right");
    assert("resize_pane_left"@.len() == 16 && "resize_pane_right"@.len() == 17);
    assert("resize_pane_left"@ != "resize_pane_right"@);
}

proof fn lemma_resolves_resize_pane_down(ctx: DispatchCtx)
    ensures
        registry_action("resize_pane_down"@, ctx) == Some(Action::ResizePaneDown),
{
    reveal_strlit("resize_pane_down");
    reveal_strlit("paste");
    assert("resize_pane_down"@.len() == 16 && "paste"@.len() == 5);
    assert("resize_pane_down"@ != "paste"@);
    reveal_strlit("copy");
    assert("resize_pane_down"@.len() == 16 && "copy"@.len() == 4);
    assert("resize_pane_down"@ != "copy"@);
    reveal_strlit("new_tab");
    assert("resize_pane_down"@.len() == 16 && "new_tab"@.len() == 7);
    assert("resize_pane_down"@ != "new_tab"@);
    reveal_strlit("close_tab");
    assert("resize_pane_down"@.len() == 16 && "close_tab"@.len() == 9);
    assert("resize_pane_down"@ != "close_tab"@);
    reveal_strlit("next_tab");
    assert("resize_pane_down"@.len() == 16 && "next_tab"@.len() == 8);
    assert("resize_pane_down"@ != "next_tab"@);
    reveal_strlit("prev_tab");
    assert("resize_pane_down"@.len() == 16 && "prev_tab"@.len() == 8);
    assert("resize_pane_down"@ != "prev_tab"@);
    reveal_strlit("move_tab_left");
    assert("resize_pane_down"@.len() == 16 && "move_tab_left"@.len() == 13);
    assert("resize_pane_down"@ != "move_tab_left"@);
    reveal_strlit("move_tab_right");
    assert("resize_pane_down"@.len() == 16 && "move_tab_right"@.len() == 14);
    assert("resize_pane_down"@ != "move_tab_right"@);
    reveal_strlit("rename_tab");
    assert("resize_pane_down"@.len() == 16 && "rename_tab"@.len() == 10);
    assert("resize_pane_down"@ != "rename_tab"@);
    reveal_strlit("go_to_tab_1");
    assert("resize_pane_down"@.len() == 16 && "go_to_tab_1"@.len() == 11);
    assert("resize_pane_down"@ != "go_to_tab_1"@);
    reveal_strlit("go_to_tab_2");
    assert("resize_pane_down"@.len() == 16 && "go_to_tab_2"@.len() == 11);
    assert("resize_pane_down"@ != "go_to_tab_2"@);
    reveal_strlit("go_to_tab_3");
    assert("resize_pane_down"@.len() == 16 && "go_to_tab_3"@.len() == 11);
    assert("resize_pane_down"@ != "go_to_tab_3"@);
    reveal_strlit("go_to_tab_4");
    assert("resize_pane_down"@.len() == 16 && "go_to_tab_4"@.len() == 11);
    assert("resize_pane_down"@ != "go_to_tab_4"@);
    reveal_strlit("go_to_tab_5");
    assert("resize_pane_down"@.len() == 16 && "go_to_tab_5"@.len() == 11);
    assert("resize_pane_down"@ != "go_to_tab_5"@);
    reveal_strlit("go_to_tab_6");
    assert("resize_pane_down"@.len() == 16 && "go_to_tab_6"@.len() == 11);
    assert("resize_pane_down"@ != "go_to_tab_6"@);
    reveal_strlit("go_to_tab_7");
    assert("resize_pane_down"@.len() == 16 && "go_to_tab_7"@.len() == 11);
    assert("resize_pane_down"@ != "go_to_tab_7"@);
    reveal_strlit("go_to_tab_8");
    assert("resize_pane_down"@.len() == 16 && "go_to_tab_8"@.len() == 11);
    assert("resize_pane_down"@ != "go_to_tab_8"@);
    reveal_strlit("go_to_tab_9");
    assert("resize_pane_down"@.len() == 16 && "go_to_tab_9"@.len() == 11);
    assert("resize_pane_down"@ != "go_to_tab_9"@);
    reveal_strlit("split_horizontal");
    assert("resize_pane_down"@[0] == 'r' && "split_horizontal"@[0] == 's');
    assert("resize_pane_down"@ != "split_horizontal"@);
    reveal_strlit("split_vertical");
    assert("resize_pane_down"@.len() == 16 && "split_vertical"@.len() == 14);
    assert("resize_pane_down"@ != "split_vertical"@);
    reveal_strlit("auto_split");
    assert("resize_pane_down"@.len() == 16 && "auto_split"@.len() == 10);
    assert("resize_pane_down"@ != "auto_split"@);
    reveal_strlit("close_pane");
    assert("resize_pane_down"@.len() == 16 && "close_pane"@.len() == 10);
    assert("resize_pane_down"@ != "close_pane"@);
    reveal_strlit("focus_left");
    assert("resize_pane_down"@.len() == 16 && "focus_left"@.len() == 10);
    assert("resize_pane_down"@ != "focus_left"@);
    reveal_strlit("focus_right");
    assert("resize_pane_down"@.len() == 16 && "focus_right"@.len() == 11);
    assert("resize_pane_down"@ != "focus_right"@);
    reveal_strlit("focus_up");
    assert("resize_pane_down"@.len() == 16 && "focus_up"@.len() == 8);
    assert("resize_pane_down"@ != "focus_up"@);
    reveal_strlit("focus_down");
    assert("resize_pane_down"@.len() == 16 && "focus_down"@.len() == 10);
    assert("resize_pane_down"@ != "focus_down"@);
    reveal_strlit("focus_next");
    assert("resize_pane_down"@.len() == 16 && "focus_next"@.len() == 10);
    assert("resize_pane_down"@ != "focus_next"@);
    reveal_strlit("zoom_pane");
    assert("resize_pane_down"@.len() == 16 && "zoom_pane"@.len() == 9);
    assert("resize_pane_down"@ != "zoom_pane"@);
    reveal_strlit("rotate_panes_forward");
    assert("resize_pane_down"@.len() == 16 && "rotate_panes_forward"@.len() == 20);
    assert("resize_pane_down"@ != "rotate_panes_forward"@);
    reveal_strlit("rotate_panes_backward");
    assert("resize_pane_down"@.len() == 16 && "rotate_panes_backward"@.len() == 21);
    assert("resize_pane_down"@ != "rotate_panes_backward"@);
    reveal_strlit("resize_pane_right");
    assert("resize_pane_down"@.len() == 16 && "resize_pane_right"@.len() == 17);
    assert("resize_pane_down"@ != "resize_pane_right"@);
    reveal_strlit("resize_pane_left");
    assert("resize_pane_down"@[12] == 'd' && "resize_pane_left"@[12] == 'l');
    assert("resize_pane_down"@ != "resize_pane_left"@);
}

proof fn lemma_resolves_resize_pane_up(ctx: DispatchCtx)
    ensures
        registry_action("resize_pane_up"@, ctx) == Some(Action::ResizePaneUp),
{
    reveal_strlit("resize_pane_up");
    reveal_strlit("paste");
    assert("resize_pane_up"@.len() == 14 && "paste"@.len() == 5);
    assert("resize_pane_up"@ != "paste"@);
    reveal_strlit("copy");
    assert("resize_pane_up"@.len() == 14 && "copy"@.len() == 4);
    assert("resize_pane_up"@ != "copy"@);
    reveal_strlit("new_tab");
    assert("resize_pane_up"@.len() == 14 && "new_tab"@.len() == 7);
    assert("resize_pane_up"@ != "new_tab"@);
    reveal_strlit("close_tab");
    assert("resize_pane_up"@.len() == 14 && "close_tab"@.len() == 9);
    assert("resize_pane_up"@ != "close_tab"@);
    reveal_strlit("next_tab");
    assert("resize_pane_up"@.len() == 14 && "next_tab"@.len() == 8);
    assert("resize_pane_up"@ != "next_tab"@);
    reveal_strlit("prev_tab");
    assert("resize_pane_up"@.len() == 14 && "prev_tab"@.len() == 8);
    assert("resize_pane_up"@ != "prev_tab"@);
    reveal_strlit("move_tab_left");
    assert("resize_pane_up"@.len() == 14 && "move_tab_left"@.len() == 13);
    assert("resize_pane_up"@ != "move_tab_left"@);
    reveal_strlit("move_tab_right");
    assert("resize_pane_up"@[0] == 'r' && "move_tab_right"@[0] == 'm');
    assert("resize_pane_up"@ != "move_tab_right"@);
    reveal_strlit("rename_tab");
    assert("resize_pane_up"@.len() == 14 && "rename_tab"@.len() == 10);
    assert("resize_pane_up"@ != "rename_tab"@);
    reveal_strlit("go_to_tab_1");
    assert("resize_pane_up"@.len() == 14 && "go_to_tab_1"@.len() == 11);
    assert("resize_pane_up"@ != "go_to_tab_1"@);
    reveal_strlit("go_to_tab_2");
    assert("resize_pane_up"@.len() == 14 && "go_to_tab_2"@.len() == 11);
    assert("resize_pane_up"@ != "go_to_tab_2"@);
    reveal_strlit("go_to_tab_3");
    assert("resize_pane_up"@.len() == 14 && "go_to_tab_3"@.len() == 11);
    assert("resize_pane_up"@ != "go_to_tab_3"@);
    reveal_strlit("go_to_tab_4");
    assert("resize_pane_up"@.len() == 14 && "go_to_tab_4"@.len() == 11);
    assert("resize_pane_up"@ != "go_to_tab_4"@);
    reveal_strlit("go_to_tab_5");
    assert("resize_pane_up"@.len() == 14 && "go_to_tab_5"@.len() == 11);
    assert("resize_pane_up"@ != "go_to_tab_5"@);
    reveal_strlit("go_to_tab_6");
    assert("resize_pane_up"@.len() == 14 && "go_to_tab_6"@.len() == 11);
    assert("resize_pane_up"@ != "go_to_tab_6"@);
    reveal_strlit("go_to_tab_7");
    assert("resize_pane_up"@.len() == 14 && "go_to_tab_7"@.len() == 11);
    assert("resize_pane_up"@ != "go_to_tab_7"@);
    reveal_strlit("go_to_tab_8");
    assert("resize_pane_up"@.len() == 14 && "go_to_tab_8"@.len() == 11);
    assert("resize_pane_up"@ != "go_to_tab_8"@);
    reveal_strlit("go_to_tab_9");
    assert("resize_pane_up"@.len() == 14 && "go_to_tab_9"@.len() == 11);
    assert("resize_pane_up"@ != "go_to_tab_9"@);
    reveal_strlit("split_horizontal");
    assert("resize_pane_up"@.len() == 14 && "split_horizontal"@.len() == 16);
    assert("resize_pane_up"@ != "split_horizontal"@);
    reveal_strlit("split_vertical");
    assert("resize_pane_up"@[0] == 'r' && "split_vertical"@[0] == 's');
    assert("resize_pane_up"@ != "split_vertical"@);
    reveal_strlit("auto_split");
    assert("resize_pane_up"@.len() == 14 && "auto_split"@.len() == 10);
    assert("resize_pane_up"@ != "auto_split"@);
    reveal_strlit("close_pane");
    assert("resize_pane_up"@.len() == 14 && "close_pane"@.len() == 10);
    assert("resize_pane_up"@ != "close_pane"@);
    reveal_strlit("focus_left");
    assert("resize_pane_up"@.len() == 14 && "focus_left"@.len() == 10);
    assert("resize_pane_up"@ != "focus_left"@);
    reveal_strlit("focus_right");
    assert("resize_pane_up"@.len() == 14 && "focus_right"@.len() == 11);
    assert("resize_pane_up"@ != "focus_right"@);
    reveal_strlit("focus_up");
    assert("resize_pane_up"@.len() == 14 && "focus_up"@.len() == 8);
    assert("resize_pane_up"@ != "focus_up"@);
    reveal_strlit("focus_down");
    assert("resize_pane_up"@.len() == 14 && "focus_down"@.len() == 10);
    assert("resize_pane_up"@ != "focus_down"@);
    reveal_strlit("focus_next");
    assert("resize_pane_up"@.len() == 14 && "focus_next"@.len() == 10);
    assert("resize_pane_up"@ != "focus_next"@);
    reveal_strlit("zoom_pane");
    assert("resize_pane_up"@.len() == 14 && "zoom_pane"@.len() == 9);
    assert("resize_pane_up"@ != "zoom_pane"@);
    reveal_strlit("rotate_panes_forward");
    assert("resize_pane_up"@.len() == 14 && "rotate_panes_forward"@.len() == 20);
    assert("resize_pane_up"@ != "rotate_panes_forward"@);
    reveal_strlit("rotate_panes_backward");
    assert("resize_pane_up"@.len() == 14 && "rotate_panes_backward"@.len() == 21);
    assert("resize_pane_up"@ != "rotate_panes_backward"@);
    reveal_strlit("resize_pane_right");
    assert("resize_pane_up"@.len() == 14 && "resize_pane_right"@.len() == 17);
    assert("resize_pane_up"@ != "resize_pane_right"@);
    reveal_strlit("resize_pane_left");
    assert("resize_pane_up"@.len() == 14 && "resize_pane_left"@.len() == 16);
    assert("resize_pane_up"@ != "resize_pane_left"@);
    reveal_strlit("resize_pane_down");
    assert("resize_pane_up"@.len() == 14 && "resize_pane_down"@.len() == 16);
    assert("resize_pane_up"@ != "resize_pane_down"@);
}

proof fn lemma_resolves_scroll_to_top(ctx: DispatchCtx)
    ensures
        registry_action("scroll_to_top"@, ctx) == Some(Action::ScrollToTop),
{
    reveal_strlit("scroll_to_top");
    reveal_strlit("paste");
    assert("scroll_to_top"@.len() == 13 && "paste"@.len() == 5);
    assert("scroll_to_top"@ != "paste"@);
    reveal_strlit("copy");
    assert("scroll_to_top"@.len() == 13 && "copy"@.len() == 4);
    assert("scroll_to_top"@ != "copy"@);
    reveal_strlit("new_tab");
    assert("scroll_to_top"@.len() == 13 && "new_tab"@.len() == 7);
    assert("scroll_to_top"@ != "new_tab"@);
    reveal_strlit("close_tab");
    assert("scroll_to_top"@.len() == 13 && "close_tab"@.len() == 9);
    assert("scroll_to_top"@ != "close_tab"@);
    reveal_strlit("next_tab");
    assert("scroll_to_top"@.len() == 13 && "next_tab"@.len() == 8);
    assert("scroll_to_top"@ != "next_tab"@);
    reveal_strlit("prev_tab");
    assert("scroll_to_top"@.len() == 13 && "prev_tab"@.len() == 8);
    assert("scroll_to_top"@ != "prev_tab"@);
    reveal_strlit("move_tab_left");
    assert("scroll_to_top"@[0] == 's' && "move_tab_left"@[0] == 'm');
    assert("scroll_to_top"@ != "move_tab_left"@);
    reveal_strlit("move_tab_right");
    assert("scroll_to_top"@.len() == 13 && "move_tab_right"@.len() == 14);
    assert("scroll_to_top"@ != "move_tab_right"@);
    reveal_strlit("rename_tab");
    assert("scroll_to_top"@.len() == 13 && "rename_tab"@.len() == 10);
    assert("scroll_to_top"@ != "rename_tab"@);
    reveal_strlit("go_to_tab_1");
    assert("scroll_to_top"@.len() == 13 && "go_to_tab_1"@.len() == 11);
    assert("scroll_to_top"@ != "go_to_tab_1"@);
    reveal_strlit("go_to_tab_2");
    assert("scroll_to_top"@.len() == 13 && "go_to_tab_2"@.len() == 11);
    assert("scroll_to_top"@ != "go_to_tab_2"@);
    reveal_strlit("go_to_tab_3");
    assert("scroll_to_top"@.len() == 13 && "go_to_tab_3"@.len() == 11);
    assert("scroll_to_top"@ != "go_to_tab_3"@);
    reveal_strlit("go_to_tab_4");
    assert("scroll_to_top"@.len() == 13 && "go_to_tab_4"@.len() == 11);
    assert("scroll_to_top"@ != "go_to_tab_4"@);
    reveal_strlit("go_to_tab_5");
    assert("scroll_to_top"@.len() == 13 && "go_to_tab_5"@.len() == 11);
    assert("scroll_to_top"@ != "go_to_tab_5"@);
    reveal_strlit("go_to_tab_6");
    assert("scroll_to_top"@.len() == 13 && "go_to_tab_6"@.len() == 11);
    assert("scroll_to_top"@ != "go_to_tab_6"@);
    reveal_strlit("go_to_tab_7");
    assert("scroll_to_top"@.len() == 13 && "go_to_tab_7"@.len() == 11);
    assert("scroll_to_top"@ != "go_to_tab_7"@);
    reveal_strlit("go_to_tab_8");
    assert("scroll_to_top"@.len() == 13 && "go_to_tab_8"@.len() == 11);
    assert("scroll_to_top"@ != "go_to_tab_8"@);
    reveal_strlit("go_to_tab_9");
    assert("scroll_to_top"@.len() == 13 && "go_to_tab_9"@.len() == 11);
    assert("scroll_to_top"@ != "go_to_tab_9"@);
    reveal_strlit("split_horizontal");
    assert("scroll_to_top"@.len() == 13 && "split_horizontal"@.len() == 16);
    assert("scroll_to_top"@ != "split_horizontal"@);
    reveal_strlit("split_vertical");
    assert("scroll_to_top"@.len() == 13 && "split_vertical"@.len() == 14);
    assert("scroll_to_top"@ != "split_vertical"@);
    reveal_strlit("auto_split");
    assert("scroll_to_top"@.len() == 13 && "auto_split"@.len() == 10);
    assert("scroll_to_top"@ != "auto_split"@);
    reveal_strlit("close_pane");
    assert("scroll_to_top"@.len() == 13 && "close_pane"@.len() == 10);
    assert("scroll_to_top"@ != "close_pane"@);
    reveal_strlit("focus_left");
    assert("scroll_to_top"@.len() == 13 && "focus_left"@.len() == 10);
    assert("scroll_to_top"@ != "focus_left"@);
    reveal_strlit("focus_right");
    assert("scroll_to_top"@.len() == 13 && "focus_right"@.len() == 11);
    assert("scroll_to_top"@ != "focus_right"@);
    reveal_strlit("focus_up");
    assert("scroll_to_top"@.len() == 13 && "focus_up"@.len() == 8);
    assert("scroll_to_top"@ != "focus_up"@);
    reveal_strlit("focus_down");
    assert("scroll_to_top"@.len() == 13 && "focus_down"@.len() == 10);
    assert("scroll_to_top"@ != "focus_down"@);
    reveal_strlit("focus_next");
    assert("scroll_to_top"@.len() == 13 && "focus_next"@.len() == 10);
    assert("scroll_to_top"@ != "focus_next"@);
    reveal_strlit("zoom_pane");
    assert("scroll_to_top"@.len() == 13 && "zoom_pane"@.len() == 9);
    assert("scroll_to_top"@ != "zoom_pane"@);
    reveal_strlit("rotate_panes_forward");
    assert("scroll_to_top"@.len() == 13 && "rotate_panes_forward"@.len() == 20);
    assert("scroll_to_top"@ != "rotate_panes_forward"@);
    reveal_strlit("rotate_panes_backward");
    assert("scroll_to_top"@.len() == 13 && "rotate_panes_backward"@.len() == 21);
    assert("scroll_to_top"@ != "rotate_panes_backward"@);
    reveal_strlit("resize_pane_right");
    assert("scroll_to_top"@.len() == 13 && "resize_pane_right"@.len() == 17);
    assert("scroll_to_top"@ != "resize_pane_right"@);
    reveal_strlit("resize_pane_left");
    assert("scroll_to_top"@.len() == 13 && "resize_pane_left"@.len() == 16);
    assert("scroll_to_top"@ != "resize_pane_left"@);
    reveal_strlit("resize_pane_down");
    assert("scroll_to_top"@.len() == 13 && "resize_pane_down"@.len() == 16);
    assert("scroll_to_top"@ != "resize_pane_down"@);
    reveal_strlit("resize_pane_up");
    assert("scroll_to_top"@.len() == 13 && "resize_pane_up"@.len() == 14);
    assert("scroll_to_top"@ != "resize_pane_up"@);
    reveal_strlit("scroll_page_up");
    assert("scroll_to_top"@.len() == 13 && "scroll_page_up"@.len() == 14);
    assert("scroll_to_top"@ != "scroll_page_up"@);
    reveal_strlit("scroll_page_down");
    assert("scroll_to_top"@.len() == 13 && "scroll_page_down"@.len() == 16);
    assert("scroll_to_top"@ != "scroll_page_down"@);
}

proof fn lemma_resolves_scroll_to_bottom(ctx: DispatchCtx)
    ensures
        registry_action("scroll_to_bottom"@, ctx) == Some(Action::ScrollToBottom),
{
    reveal_strlit("scroll_to_bottom");
    reveal_strlit("paste");
    assert("scroll_to_bottom"@.len() == 16 && "paste"@.len() == 5);
    assert("scroll_to_bottom"@ != "paste"@);
    reveal_strlit("copy");
    assert("scroll_to_bottom"@.len() == 16 && "copy"@.len() == 4);
    assert("scroll_to_bottom"@ != "copy"@);
    reveal_strlit("new_tab");
    assert("scroll_to_bottom"@.len() == 16 && "new_tab"@.len() == 7);
    assert("scroll_to_bottom"@ != "new_tab"@);
    reveal_strlit("close_tab");
    assert("scroll_to_bottom"@.len() == 16 && "close_tab"@.len() == 9);
    assert("scroll_to_bottom"@ != "close_tab"@);
    reveal_strlit("next_tab");
    assert("scroll_to_bottom"@.len() == 16 && "next_tab"@.len() == 8);
    assert("scroll_to_bottom"@ != "next_tab"@);
    reveal_strlit("prev_tab");
    assert("scroll_to_bottom"@.len() == 16 && "prev_tab"@.len() == 8);
    assert("scroll_to_bottom"@ != "prev_tab"@);
    reveal_strlit("move_tab_left");
    assert("scroll_to_bottom"@.len() == 16 && "move_tab_left"@.len() == 13);
    assert("scroll_to_bottom"@ != "move_tab_left"@);
    reveal_strlit("move_tab_right");
    assert("scroll_to_bottom"@.len() == 16 && "move_tab_right"@.len() == 14);
    assert("scroll_to_bottom"@ != "move_tab_right"@);
    reveal_strlit("rename_tab");
    assert("scroll_to_bottom"@.len() == 16 && "rename_tab"@.len() == 10);
    assert("scroll_to_bottom"@ != "rename_tab"@);
    reveal_strlit("go_to_tab_1");
    assert("scroll_to_bottom"@.len() == 16 && "go_to_tab_1"@.len() == 11);
    assert("scroll_to_bottom"@ != "go_to_tab_1"@);
    reveal_strlit("go_to_tab_2");
    assert("scroll_to_bottom"@.len() == 16 && "go_to_tab_2"@.len() == 11);
    assert("scroll_to_bottom"@ != "go_to_tab_2"@);
    reveal_strlit("go_to_tab_3");
    assert("scroll_to_bottom"@.len() == 16 && "go_to_tab_3"@.len() == 11);
    assert("scroll_to_bottom"@ != "go_to_tab_3"@);
    reveal_strlit("go_to_tab_4");
    assert("scroll_to_bottom"@.len() == 16 && "go_to_tab_4"@.len() == 11);
    assert("scroll_to_bottom"@ != "go_to_tab_4"@);
    reveal_strlit("go_to_tab_5");
    assert("scroll_to_bottom"@.len() == 16 && "go_to_tab_5"@.len() == 11);
    assert("scroll_to_bottom"@ != "go_to_tab_5"@);
    reveal_strlit("go_to_tab_6");
    assert("scroll_to_bottom"@.len() == 16 && "go_to_tab_6"@.len() == 11);
    assert("scroll_to_bottom"@ != "go_to_tab_6"@);
    reveal_strlit("go_to_tab_7");
    assert("scroll_to_bottom"@.len() == 16 && "go_to_tab_7"@.len() == 11);
    assert("scroll_to_bottom"@ != "go_to_tab_7"@);
    reveal_strlit("go_to_tab_8");
    assert("scroll_to_bottom"@.len() == 16 && "go_to_tab_8"@.len() == 11);
    assert("scroll_to_bottom"@ != "go_to_tab_8"@);
    reveal_strlit("go_to_tab_9");
    assert("scroll_to_bottom"@.len() == 16 && "go_to_tab_9"@.len() == 11);
    assert("scroll_to_bottom"@ != "go_to_tab_9"@);
    reveal_strlit("split_horizontal");
    assert("scroll_to_bottom"@[1] == 'c' && "split_horizontal"@[1] == 'p');
    assert("scroll_to_bottom"@ != "split_horizontal"@);
    reveal_strlit("split_vertical");
    assert("scroll_to_bottom"@.len() == 16 && "split_vertical"@.len() == 14);
    assert("scroll_to_bottom"@ != "split_vertical"@);
    reveal_strlit("auto_split");
    assert("scroll_to_bottom"@.len() == 16 && "auto_split"@.len() == 10);
    assert("scroll_to_bottom"@ != "auto_split"@);
    reveal_strlit("close_pane");
    assert("scroll_to_bottom"@.len() == 16 && "close_pane"@.len() == 10);
    assert("scroll_to_bottom"@ != "close_pane"@);
    reveal_strlit("focus_left");
    assert("scroll_to_bottom"@.len() == 16 && "focus_left"@.len() == 10);
    assert("scroll_to_bottom"@ != "focus_left"@);
    reveal_strlit("focus_right");
    assert("scroll_to_bottom"@.len() == 16 && "focus_right"@.len() == 11);
    assert("scroll_to_bottom"@ != "focus_right"@);
    reveal_strlit("focus_up");
    assert("scroll_to_bottom"@.len() == 16 && "focus_up"@.len() == 8);
    assert("scroll_to_bottom"@ != "focus_up"@);
    reveal_strlit("focus_down");
    assert("scroll_to_bottom"@.len() == 16 && "focus_down"@.len() == 10);
    assert("scroll_to_bottom"@ != "focus_down"@);
    reveal_strlit("focus_next");
    assert("scroll_to_bottom"@.len() == 16 && "focus_next"@.len() == 10);
    assert("scroll_to_bottom"@ != "focus_next"@);
    reveal_strlit("zoom_pane");
    assert("scroll_to_bottom"@.len() == 16 && "zoom_pane"@.len() == 9);
    assert("scroll_to_bottom"@ != "zoom_pane"@);
    reveal_strlit("rotate_panes_forward");
    assert("scroll_to_bottom"@.len() == 16 && "rotate_panes_forward"@.len() == 20);
    assert("scroll_to_bottom"@ != "rotate_panes_forward"@);
    reveal_strlit("rotate_panes_backward");
    assert("scroll_to_bottom"@.len() == 16 && "rotate_panes_backward"@.len() == 21);
    assert("scroll_to_bottom"@ != "rotate_panes_backward"@);
    reveal_strlit("resize_pane_right");
    assert("scroll_to_bottom"@.len() == 16 && "resize_pane_right"@.len() == 17);
    assert("scroll_to_bottom"@ != "resize_pane_right"@);
    reveal_strlit("resize_pane_left");
    assert("scroll_to_bottom"@[0] == 's' && "resize_pane_left"@[0] == 'r');
    assert("scroll_to_bottom"@ != "resize_pane_left"@);
    reveal_strlit("resize_pane_down");
    assert("scroll_to_bottom"@[0] == 's' && "resize_pane_down"@[0] == 'r');
    assert("scroll_to_bottom"@ != "resize_pane_down"@);
    reveal_strlit("resize_pane_up");
    assert("scroll_to_bottom"@.len() == 16 && "resize_pane_up"@.len() == 14);
    assert("scroll_to_bottom"@ != "resize_pane_up"@);
    reveal_strlit("scroll_page_up");
    assert("scroll_to_bottom"@.len() == 16 && "scroll_page_up"@.len() == 14);
    assert("scroll_to_bottom"@ != "scroll_page_up"@);
    reveal_strlit("scroll_page_down");
    assert("scroll_to_bottom"@[7] == 't' && "scroll_page_down"@[7] == 'p');
    assert("scroll_to_bottom"@ != "scroll_page_down"@);
    reveal_strlit("scroll_to_top");
    assert("scroll_to_bottom"@.len() == 16 && "scroll_to_top"@.len() == 13);
    assert("scroll_to_bottom"@ != "scroll_to_top"@);
}

proof fn lemma_resolves_clear_scrollback(ctx: DispatchCtx)
    ensures
        registry_action("clear_scrollback"@, ctx) == Some(Action::ClearScrollback),
{
    reveal_strlit("clear_scrollback");
    reveal_strlit("paste");
    assert("clear_scrollback"@.len() == 16 && "paste"@.len() == 5);
    assert("clear_scrollback"@ != "paste"@);
    reveal_strlit("copy");
    assert("clear_scrollback"@.len() == 16 && "copy"@.len() == 4);
    assert("clear_scrollback"@ != "copy"@);
    reveal_strlit("new_tab");
    assert("clear_scrollback"@.len() == 16 && "new_tab"@.len() == 7);
    assert("clear_scrollback"@ != "new_tab"@);
    reveal_strlit("close_tab");
    assert("clear_scrollback"@.len() == 16 && "close_tab"@.len() == 9);
    assert("clear_scrollback"@ != "close_tab"@);
    reveal_strlit("next_tab");
    assert("clear_scrollback"@.len() == 16 && "next_tab"@.len() == 8);
    assert("clear_scrollback"@ != "next_tab"@);
    reveal_strlit("prev_tab");
    assert("clear_scrollback"@.len() == 16 && "prev_tab"@.len() == 8);
    assert("clear_scrollback"@ != "prev_tab"@);
    reveal_strlit("move_tab_left");
    assert("clear_scrollback"@.len() == 16 && "move_tab_left"@.len() == 13);
    assert("clear_scrollback"@ != "move_tab_left"@);
    reveal_strlit("move_tab_right");
    assert("clear_scrollback"@.len() == 16 && "move_tab_right"@.len() == 14);
    assert("clear_scrollback"@ != "move_tab_right"@);
    reveal_strlit("rename_tab");
    assert("clear_scrollback"@.len() == 16 && "rename_tab"@.len() == 10);
    assert("clear_scrollback"@ != "rename_tab"@);
    reveal_strlit("go_to_tab_1");
    assert("clear_scrollback"@.len() == 16 && "go_to_tab_1"@.len() == 11);
    assert("clear_scrollback"@ != "go_to_tab_1"@);
    reveal_strlit("go_to_tab_2");
    assert("clear_scrollback"@.len() == 16 && "go_to_tab_2"@.len() == 11);
    assert("clear_scrollback"@ != "go_to_tab_2"@);
    reveal_strlit("go_to_tab_3");
    assert("clear_scrollback"@.len() == 16 && "go_to_tab_3"@.len() == 11);
    assert("clear_scrollback"@ != "go_to_tab_3"@);
    reveal_strlit("go_to_tab_4");
    assert("clear_scrollback"@.len() == 16 && "go_to_tab_4"@.len() == 11);
    assert("clear_scrollback"@ != "go_to_tab_4"@);
    reveal_strlit("go_to_tab_5");
    assert("clear_scrollback"@.len() == 16 && "go_to_tab_5"@.len() == 11);
    assert("clear_scrollback"@ != "go_to_tab_5"@);
    reveal_strlit("go_to_tab_6");
    assert("clear_scrollback"@.len() == 16 && "go_to_tab_6"@.len() == 11);
    assert("clear_scrollback"@ != "go_to_tab_6"@);
    reveal_strlit("go_to_tab_7");
    assert("clear_scrollback"@.len() == 16 && "go_to_tab_7"@.len() == 11);
    assert("clear_scrollback"@ != "go_to_tab_7"@);
    reveal_strlit("go_to_tab_8");
    assert("clear_scrollback"@.len() == 16 && "go_to_tab_8"@.len() == 11);
    assert("clear_scrollback"@ != "go_to_tab_8"@);
    reveal_strlit("go_to_tab_9");
    assert("clear_scrollback"@.len() == 16 && "go_to_tab_9"@.len() == 11);
    assert("clear_scrollback"@ != "go_to_tab_9"@);
    reveal_strlit("split_horizontal");
    assert("clear_scrollback"@[0] == 'c' && "split_horizontal"@[0] == 's');
    assert("clear_scrollback"@ != "split_horizontal"@);
    reveal_strlit("split_vertical");
    assert("clear_scrollback"@.len() == 16 && "split_vertical"@.len() == 14);
    assert("clear_scrollback"@ != "split_vertical"@);
    reveal_strlit("auto_split");
    assert("clear_scrollback"@.len() == 16 && "auto_split"@.len() == 10);
    assert("clear_scrollback"@ != "auto_split"@);
    reveal_strlit("close_pane");
    assert("clear_scrollback"@.len() == 16 && "close_pane"@.len() == 10);
    assert("clear_scrollback"@ != "close_pane"@);
    reveal_strlit("focus_left");
    assert("clear_scrollback"@.len() == 16 && "focus_left"@.len() == 10);
    assert("clear_scrollback"@ != "focus_left"@);
    reveal_strlit("focus_right");
    assert("clear_scrollback"@.len() == 16 && "focus_right"@.len() == 11);
    assert("clear_scrollback"@ != "focus_right"@);
    reveal_strlit("focus_up");
    assert("clear_scrollback"@.len() == 16 && "focus_up"@.len() == 8);
    assert("clear_scrollback"@ != "focus_up"@);
    reveal_strlit("focus_down");
    assert("clear_scrollback"@.len() == 16 && "focus_down"@.len() == 10);
    assert("clear_scrollback"@ != "focus_down"@);
    reveal_strlit("focus_next");
    assert("clear_scrollback"@.len() == 16 && "focus_next"@.len() == 10);
    assert("clear_scrollback"@ != "focus_next"@);
    reveal_strlit("zoom_pane");
    assert("clear_scrollback"@.len() == 16 && "zoom_pane"@.len() == 9);
    assert("clear_scrollback"@ != "zoom_pane"@);
    reveal_strlit("rotate_panes_forward");
    assert("clear_scrollback"@.len() == 16 && "rotate_panes_forward"@.len() == 20);
    assert("clear_scrollback"@ != "rotate_panes_forward"@);
    reveal_strlit("rotate_panes_backward");
    assert("clear_scrollback"@.len() == 16 && "rotate_panes_backward"@.len() == 21);
    assert("clear_scrollback"@ != "rotate_panes_backward"@);
    reveal_strlit("resize_pane_right");
    assert("clear_scrollback"@.len() == 16 && "resize_pane_right"@.len() == 17);
    assert("clear_scrollback"@ != "resize_pane_right"@);
    reveal_strlit("resize_pane_left");
    assert("clear_scrollback"@[0] == 'c' && "resize_pane_left"@[0] == 'r');
    assert("clear_scrollback"@ != "resize_pane_left"@);
    reveal_strlit("resize_pane_down");
    assert("clear_scrollback"@[0] == 'c' && "resize_pane_down"@[0] == 'r');
    assert("clear_scrollback"@ != "resize_pane_down"@);
    reveal_strlit("resize_pane_up");
    assert("clear_scrollback"@.len() == 16 && "resize_pane_up"@.len() == 14);
    assert("clear_scrollback"@ != "resize_pane_up"@);
    reveal_strlit("scroll_page_up");
    assert("clear_scrollback"@.len() == 16 && "scroll_page_up"@.len() == 14);
    assert("clear_scrollback"@ != "scroll_page_up"@);
    reveal_strlit("scroll_page_down");
    assert("clear_scrollback"@[0] == 'c' && "scroll_page_down"@[0] == 's');
    assert("clear_scrollback"@ != "scroll_page_down"@);
    reveal_strlit("scroll_to_top");
    assert("clear_scrollback"@.len() == 16 && "scroll_to_top"@.len() == 13);
    assert("clear_scrollback"@ != "scroll_to_top"@);
    reveal_strlit("scroll_to_bottom");
    assert("clear_scrollback"@[0] == 'c' && "scroll_to_bottom"@[0] == 's');
    assert("clear_scrollback"@ != "scroll_to_bottom"@);
}

proof fn lemma_resolves_search_open(ctx: DispatchCtx)
    ensures
        registry_action("search_open"@, ctx) == Some(Action::SearchOpen),
{
    reveal_strlit("search_open");
    reveal_strlit("paste");
    assert("search_open"@.len() == 11 && "paste"@.len() == 5);
    assert("search_open"@ != "paste"@);
    reveal_strlit("copy");
    assert("search_open"@.len() == 11 && "copy"@.len() == 4);
    assert("search_open"@ != "copy"@);
    reveal_strlit("new_tab");
    assert("search_open"@.len() == 11 && "new_tab"@.len() == 7);
    assert("search_open"@ != "new_tab"@);
    reveal_strlit("close_tab");
    assert("search_open"@.len() == 11 && "close_tab"@.len() == 9);
    assert("search_open"@ != "close_tab"@);
    reveal_strlit("next_tab");
    assert("search_open"@.len() == 11 && "next_tab"@.len() == 8);
    assert("search_open"@ != "next_tab"@);
    reveal_strlit("prev_tab");
    assert("search_open"@.len() == 11 && "prev_tab"@.len() == 8);
    assert("search_open"@ != "prev_tab"@);
    reveal_strlit("move_tab_left");
    assert("search_open"@.len() == 11 && "move_tab_left"@.len() == 13);
    assert("search_open"@ != "move_tab_left"@);
    reveal_strlit("move_tab_right");
    assert("search_open"@.len() == 11 && "move_tab_right"@.len() == 14);
    assert("search_open"@ != "move_tab_right"@);
    reveal_strlit("rename_tab");
    assert("search_open"@.len() == 11 && "rename_tab"@.len() == 10);
    assert("search_open"@ != "rename_tab"@);
    reveal_strlit("go_to_tab_1");
    assert("search_open"@[0] == 's' && "go_to_tab_1"@[0] == 'g');
    assert("search_open"@ != "go_to_tab_1"@);
    reveal_strlit("go_to_tab_2");
    assert("search_open"@[0] == 's' && "go_to_tab_2"@[0] == 'g');
    assert("search_open"@ != "go_to_tab_2"@);
    reveal_strlit("go_to_tab_3");
    assert("search_open"@[0] == 's' && "go_to_tab_3"@[0] == 'g');
    assert("search_open"@ != "go_to_tab_3"@);
    reveal_strlit("go_to_tab_4");
    assert("search_open"@[0] == 's' && "go_to_tab_4"@[0] == 'g');
    assert("search_open"@ != "go_to_tab_4"@);
    reveal_strlit("go_to_tab_5");
    assert("search_open"@[0] == 's' && "go_to_tab_5"@[0] == 'g');
    assert("search_open"@ != "go_to_tab_5"@);
    reveal_strlit("go_to_tab_6");
    assert("search_open"@[0] == 's' && "go_to_tab_6"@[0] == 'g');
    assert("search_open"@ != "go_to_tab_6"@);
    reveal_strlit("go_to_tab_7");
    assert("search_open"@[0] == 's' && "go_to_tab_7"@[0] == 'g');
    assert("search_open"@ != "go_to_tab_7"@);
    reveal_strlit("go_to_tab_8");
    assert("search_open"@[0] == 's' && "go_to_tab_8"@[0] == 'g');
    assert("search_open"@ != "go_to_tab_8"@);
    reveal_strlit("go_to_tab_9");
    assert("search_open"@[0] == 's' && "go_to_tab_9"@[0] == 'g');
    assert("search_open"@ != "go_to_tab_9"@);
    reveal_strlit("split_horizontal");
    assert("search_open"@.len() == 11 && "split_horizontal"@.len() == 16);
    assert("search_open"@ != "split_horizontal"@);
    reveal_strlit("split_vertical");
    assert("search_open"@.len() == 11 && "split_vertical"@.len() == 14);
    assert("search_open"@ != "split_vertical"@);
    reveal_strlit("auto_split");
    assert("search_open"@.len() == 11 && "auto_split"@.len() == 10);
    assert("search_open"@ != "auto_split"@);
    reveal_strlit("close_pane");
    assert("search_open"@.len() == 11 && "close_pane"@.len() == 10);
    assert("search_open"@ != "close_pane"@);
    reveal_strlit("focus_left");
    assert("search_open"@.len() == 11 && "focus_left"@.len() == 10);
    assert("search_open"@ != "focus_left"@);
    reveal_strlit("focus_right");
    assert("search_open"@[0] == 's' && "focus_right"@[0] == 'f');
    assert("search_open"@ != "focus_right"@);
    reveal_strlit("focus_up");
    assert("search_open"@.len() == 11 && "focus_up"@.len() == 8);
    assert("search_open"@ != "focus_up"@);
    reveal_strlit("focus_down");
    assert("search_open"@.len() == 11 && "focus_down"@.len() == 10);
    assert("search_open"@ != "focus_down"@);
    reveal_strlit("focus_next");
    assert("search_open"@.len() == 11 && "focus_next"@.len() == 10);
    assert("search_open"@ != "focus_next"@);
    reveal_strlit("zoom_pane");
    assert("search_open"@.len() == 11 && "zoom_pane"@.len() == 9);
    assert("search_open"@ != "zoom_pane"@);
    reveal_strlit("rotate_panes_forward");
    assert("search_open"@.len() == 11 && "rotate_panes_forward"@.len() == 20);
    assert("search_open"@ != "rotate_panes_forward"@);
    reveal_strlit("rotate_panes_backward");
    assert("search_open"@.len() == 11 && "rotate_panes_backward"@.len() == 21);
    assert("search_open"@ != "rotate_panes_backward"@);
    reveal_strlit("resize_pane_right");
    assert("search_open"@.len() == 11 && "resize_pane_right"@.len() == 17);
    assert("search_open"@ != "resize_pane_right"@);
    reveal_strlit("resize_pane_left");
    assert("search_open"@.len() == 11 && "resize_pane_left"@.len() == 16);
    assert("search_open"@ != "resize_pane_left"@);
    reveal_strlit("resize_pane_down");
    assert("search_open"@.len() == 11 && "resize_pane_down"@.len() == 16);
    assert("search_open"@ != "resize_pane_down"@);
    reveal_strlit("resize_pane_up");
    assert("search_open"@.len() == 11 && "resize_pane_up"@.len() == 14);
    assert("search_open"@ != "resize_pane_up"@);
    reveal_strlit("scroll_page_up");
    assert("search_open"@.len() == 11 && "scroll_page_up"@.len() == 14);
    assert("search_open"@ != "scroll_page_up"@);
    reveal_strlit("scroll_page_down");
    assert("search_open"@.len() == 11 && "scroll_page_down"@.len() == 16);
    assert("search_open"@ != "scroll_page_down"@);
    reveal_strlit("scroll_to_top");
    assert("search_open"@.len() == 11 && "scroll_to_top"@.len() == 13);
    assert("search_open"@ != "scroll_to_top"@);
    reveal_strlit("scroll_to_bottom");
    assert("search_open"@.len() == 11 && "scroll_to_bottom"@.len() == 16);
    assert("search_open"@ != "scroll_to_bottom"@);
    reveal_strlit("clear_scrollback");
    assert("search_open"@.len() == 11 && "clear_scrollback"@.len() == 16);
    assert("search_open"@ != "clear_scrollback"@);
}

proof fn lemma_resolves_search_next(ctx: DispatchCtx)
    ensures
        registry_action("search_next"@, ctx) == Some(Action::SearchNext),
{
    reveal_strlit("search_next");
    reveal_strlit("paste");
    assert("search_next"@.len() == 11 && "paste"@.len() == 5);
    assert("search_next"@ != "paste"@);
    reveal_strlit("copy");
    assert("search_next"@.len() == 11 && "copy"@.len() == 4);
    assert("search_next"@ != "copy"@);
    reveal_strlit("new_tab");
    assert("search_next"@.len() == 11 && "new_tab"@.len() == 7);
    assert("search_next"@ != "new_tab"@);
    reveal_strlit("close_tab");
    assert("search_next"@.len() == 11 && "close_tab"@.len() == 9);
    assert("search_next"@ != "close_tab"@);
    reveal_strlit("next_tab");
    assert("search_next"@.len() == 11 && "next_tab"@.len() == 8);
    assert("search_next"@ != "next_tab"@);
    reveal_strlit("prev_tab");
    assert("search_next"@.len() == 11 && "prev_tab"@.len() == 8);
    assert("search_next"@ != "prev_tab"@);
    reveal_strlit("move_tab_left");
    assert("search_next"@.len() == 11 && "move_tab_left"@.len() == 13);
    assert("search_next"@ != "move_tab_left"@);
    reveal_strlit("move_tab_right");
    assert("search_next"@.len() == 11 && "move_tab_right"@.len() == 14);
    assert("search_next"@ != "move_tab_right"@);
    reveal_strlit("rename_tab");
    assert("search_next"@.len() == 11 && "rename_tab"@.len() == 10);
    assert("search_next"@ != "rename_tab"@);
    reveal_strlit("go_to_tab_1");
    assert("search_next"@[0] == 's' && "go_to_tab_1"@[0] == 'g');
    assert("search_next"@ != "go_to_tab_1"@);
    reveal_strlit("go_to_tab_2");
    assert("search_next"@[0] == 's' && "go_to_tab_2"@[0] == 'g');
    assert("search_next"@ != "go_to_tab_2"@);
    reveal_strlit("go_to_tab_3");
    assert("search_next"@[0] == 's' && "go_to_tab_3"@[0] == 'g');
    assert("search_next"@ != "go_to_tab_3"@);
    reveal_strlit("go_to_tab_4");
    assert("search_next"@[0] == 's' && "go_to_tab_4"@[0] == 'g');
    assert("search_next"@ != "go_to_tab_4"@);
    reveal_strlit("go_to_tab_5");
    assert("search_next"@[0] == 's' && "go_to_tab_5"@[0] == 'g');
    assert("search_next"@ != "go_to_tab_5"@);
    reveal_strlit("go_to_tab_6");
    assert("search_next"@[0] == 's' && "go_to_tab_6"@[0] == 'g');
    assert("search_next"@ != "go_to_tab_6"@);
    reveal_strlit("go_to_tab_7");
    assert("search_next"@[0] == 's' && "go_to_tab_7"@[0] == 'g');
    assert("search_next"@ != "go_to_tab_7"@);
    reveal_strlit("go_to_tab_8");
    assert("search_next"@[0] == 's' && "go_to_tab_8"@[0] == 'g');
    assert("search_next"@ != "go_to_tab_8"@);
    reveal_strlit("go_to_tab_9");
    assert("search_next"@[0] == 's' && "go_to_tab_9"@[0] == 'g');
    assert("search_next"@ != "go_to_tab_9"@);
    reveal_strlit("split_horizontal");
    assert("search_next"@.len() == 11 && "split_horizontal"@.len() == 16);
    assert("search_next"@ != "split_horizontal"@);
    reveal_strlit("split_vertical");
    assert("search_next"@.len() == 11 && "split_vertical"@.len() == 14);
    assert("search_next"@ != "split_vertical"@);
    reveal_strlit("auto_split");
    assert("search_next"@.len() == 11 && "auto_split"@.len() == 10);
    assert("search_next"@ != "auto_split"@);
    reveal_strlit("close_pane");
    assert("search_next"@.len() == 11 && "close_pane"@.len() == 10);
    assert("search_next"@ != "close_pane"@);
    reveal_strlit("focus_left");
    assert("search_next"@.len() == 11 && "focus_left"@.len() == 10);
    assert("search_next"@ != "focus_left"@);
    reveal_strlit("focus_right");
    assert("search_next"@[0] == 's' && "focus_right"@[0] == 'f');
    assert("search_next"@ != "focus_right"@);
    reveal_strlit("focus_up");
    assert("search_next"@.len() == 11 && "focus_up"@.len() == 8);
    assert("search_next"@ != "focus_up"@);
    reveal_strlit("focus_down");
    assert("search_next"@.len() == 11 && "focus_down"@.len() == 10);
    assert("search_next"@ != "focus_down"@);
    reveal_strlit("focus_next");
    assert("search_next"@.len() == 11 && "focus_next"@.len() == 10);
    assert("search_next"@ != "focus_next"@);
    reveal_strlit("zoom_pane");
    assert("search_next"@.len() == 11 && "zoom_pane"@.len() == 9);
    assert("search_next"@ != "zoom_pane"@);
    reveal_strlit("rotate_panes_forward");
    assert("search_next"@.len() == 11 && "rotate_panes_forward"@.len() == 20);
    assert("search_next"@ != "rotate_panes_forward"@);
    reveal_strlit("rotate_panes_backward");
    assert("search_next"@.len() == 11 && "rotate_panes_backward"@.len() == 21);
    assert("search_next"@ != "rotate_panes_backward"@);
    reveal_strlit("resize_pane_right");
    assert("search_next"@.len() == 11 && "resize_pane_right"@.len() == 17);
    assert("search_next"@ != "resize_pane_right"@);
    reveal_strlit("resize_pane_left");
    assert("search_next"@.len() == 11 && "resize_pane_left"@.len() == 16);
    assert("search_next"@ != "resize_pane_left"@);
    reveal_strlit("resize_pane_down");
    assert("search_next"@.len() == 11 && "resize_pane_down"@.len() == 16);
    assert("search_next"@ != "resize_pane_down"@);
    reveal_strlit("resize_pane_up");
    assert("search_next"@.len() == 11 && "resize_pane_up"@.len() == 14);
    assert("search_next"@ != "resize_pane_up"@);
    reveal_strlit("scroll_page_up");
    assert("search_next"@.len() == 11 && "scroll_page_up"@.len() == 14);
    assert("search_next"@ != "scroll_page_up"@);
    reveal_strlit("scroll_page_down");
    assert("search_next"@.len() == 11 && "scroll_page_down"@.len() == 16);
    assert("search_next"@ != "scroll_page_down"@);
    reveal_strlit("scroll_to_top");
    assert("search_next"@.len() == 11 && "scroll_to_top"@.len() == 13);
    assert("search_next"@ != "scroll_to_top"@);
    reveal_strlit("scroll_to_bottom");
    assert("search_next"@.len() == 11 && "scroll_to_bottom"@.len() == 16);
    assert("search_next"@ != "scroll_to_bottom"@);
    reveal_strlit("clear_scrollback");
    assert("search_next"@.len() == 11 && "clear_scrollback"@.len() == 16);
    assert("search_next"@ != "clear_scrollback"@);
    reveal_strlit("search_open");
    assert("search_next"@[7] == 'n' && "search_open"@[7] == 'o');
    assert("search_next"@ != "search_open"@);
}

proof fn lemma_resolves_search_prev(ctx: DispatchCtx)
    ensures
        registry_action("search_prev"@, ctx) == Some(Action::SearchPrev),
{
    reveal_strlit("search_prev");
    reveal_strlit("paste");
    assert("search_prev"@.len() == 11 && "paste"@.len() == 5);
    assert("search_prev"@ != "paste"@);
    reveal_strlit("copy");
    assert("search_prev"@.len() == 11 && "copy"@.len() == 4);
    assert("search_prev"@ != "copy"@);
    reveal_strlit("new_tab");
    assert("search_prev"@.len() == 11 && "new_tab"@.len() == 7);
    assert("search_prev"@ != "new_tab"@);
    reveal_strlit("close_tab");
    assert("search_prev"@.len() == 11 && "close_tab"@.len() == 9);
    assert("search_prev"@ != "close_tab"@);
    reveal_strlit("next_tab");
    assert("search_prev"@.len() == 11 && "next_tab"@.len() == 8);
    assert("search_prev"@ != "next_tab"@);
    reveal_strlit("prev_tab");
    assert("search_prev"@.len() == 11 && "prev_tab"@.len() == 8);
    assert("search_prev"@ != "prev_tab"@);
    reveal_strlit("move_tab_left");
    assert("search_prev"@.len() == 11 && "move_tab_left"@.len() == 13);
    assert("search_prev"@ != "move_tab_left"@);
    reveal_strlit("move_tab_right");
    assert("search_prev"@.len() == 11 && "move_tab_right"@.len() == 14);
    assert("search_prev"@ != "move_tab_right"@);
    reveal_strlit("rename_tab");
    assert("search_prev"@.len() == 11 && "rename_tab"@.len() == 10);
    assert("search_prev"@ != "rename_tab"@);
    reveal_strlit("go_to_tab_1");
    assert("search_prev"@[0] == 's' && "go_to_tab_1"@[0] == 'g');
    assert("search_prev"@ != "go_to_tab_1"@);
    reveal_strlit("go_to_tab_2");
    assert("search_prev"@[0] == 's' && "go_to_tab_2"@[0] == 'g');
    assert("search_prev"@ != "go_to_tab_2"@);
    reveal_strlit("go_to_tab_3");
    assert("search_prev"@[0] == 's' && "go_to_tab_3"@[0] == 'g');
    assert("search_prev"@ != "go_to_tab_3"@);
    reveal_strlit("go_to_tab_4");
    assert("search_prev"@[0] == 's' && "go_to_tab_4"@[0] == 'g');
    assert("search_prev"@ != "go_to_tab_4"@);
    reveal_strlit("go_to_tab_5");
    assert("search_prev"@[0] == 's' && "go_to_tab_5"@[0] == 'g');
    assert("search_prev"@ != "go_to_tab_5"@);
    reveal_strlit("go_to_tab_6");
    assert("search_prev"@[0] == 's' && "go_to_tab_6"@[0] == 'g');
    assert("search_prev"@ != "go_to_tab_6"@);
    reveal_strlit("go_to_tab_7");
    assert("search_prev"@[0] == 's' && "go_to_tab_7"@[0] == 'g');
    assert("search_prev"@ != "go_to_tab_7"@);
    reveal_strlit("go_to_tab_8");
    assert("search_prev"@[0] == 's' && "go_to_tab_8"@[0] == 'g');
    assert("search_prev"@ != "go_to_tab_8"@);
    reveal_strlit("go_to_tab_9");
    assert("search_prev"@[0] == 's' && "go_to_tab_9"@[0] == 'g');
    assert("search_prev"@ != "go_to_tab_9"@);
    reveal_strlit("split_horizontal");
    assert("search_prev"@.len() == 11 && "split_horizontal"@.len() == 16);
    assert("search_prev"@ != "split_horizontal"@);
    reveal_strlit("split_vertical");
    assert("search_prev"@.len() == 11 && "split_vertical"@.len() == 14);
    assert("search_prev"@ != "split_vertical"@);
    reveal_strlit("auto_split");
    assert("search_prev"@.len() == 11 && "auto_split"@.len() == 10);
    assert("search_prev"@ != "auto_split"@);
    reveal_strlit("close_pane");
    assert("search_prev"@.len() == 11 && "close_pane"@.len() == 10);
    assert("search_prev"@ != "close_pane"@);
    reveal_strlit("focus_left");
    assert("search_prev"@.len() == 11 && "focus_left"@.len() == 10);
    assert("search_prev"@ != "focus_left"@);
    reveal_strlit("focus_right");
    assert("search_prev"@[0] == 's' && "focus_right"@[0] == 'f');
    assert("search_prev"@ != "focus_right"@);
    reveal_strlit("focus_up");
    assert("search_prev"@.len() == 11 && "focus_up"@.len() == 8);
    assert("search_prev"@ != "focus_up"@);
    reveal_strlit("focus_down");
    assert("search_prev"@.len() == 11 && "focus_down"@.len() == 10);
    assert("search_prev"@ != "focus_down"@);
    reveal_strlit("focus_next");
    assert("search_prev"@.len() == 11 && "focus_next"@.len() == 10);
    assert("search_prev"@ != "focus_next"@);
    reveal_strlit("zoom_pane");
    assert("search_prev"@.len() == 11 && "zoom_pane"@.len() == 9);
    assert("search_prev"@ != "zoom_pane"@);
    reveal_strlit("rotate_panes_forward");
    assert("search_prev"@.len() == 11 && "rotate_panes_forward"@.len() == 20);
    assert("search_prev"@ != "rotate_panes_forward"@);
    reveal_strlit("rotate_panes_backward");
    assert("search_prev"@.len() == 11 && "rotate_panes_backward"@.len() == 21);
    assert("search_prev"@ != "rotate_panes_backward"@);
    reveal_strlit("resize_pane_right");
    assert("search_prev"@.len() == 11 && "resize_pane_right"@.len() == 17);
    assert("search_prev"@ != "resize_pane_right"@);
    reveal_strlit("resize_pane_left");
    assert("search_prev"@.len() == 11 && "resize_pane_left"@.len() == 16);
    assert("search_prev"@ != "resize_pane_left"@);
    reveal_strlit("resize_pane_down");
    assert("search_prev"@.len() == 11 && "resize_pane_down"@.len() == 16);
    assert("search_prev"@ != "resize_pane_down"@);
    reveal_strlit("resize_pane_up");
    assert("search_prev"@.len() == 11 && "resize_pane_up"@.len() == 14);
    assert("search_prev"@ != "resize_pane_up"@);
    reveal_strlit("scroll_page_up");
    assert("search_prev"@.len() == 11 && "scroll_page_up"@.len() == 14);
    assert("search_prev"@ != "scroll_page_up"@);
    reveal_strlit("scroll_page_down");
    assert("search_prev"@.len() == 11 && "scroll_page_down"@.len() == 16);
    assert("search_prev"@ != "scroll_page_down"@);
    reveal_strlit("scroll_to_top");
    assert("search_prev"@.len() == 11 && "scroll_to_top"@.len() == 13);
    assert("search_prev"@ != "scroll_to_top"@);
    reveal_strlit("scroll_to_bottom");
    assert("search_prev"@.len() == 11 && "scroll_to_bottom"@.len() == 16);
    assert("search_prev"@ != "scroll_to_bottom"@);
    reveal_strlit("clear_scrollback");
    assert("search_prev"@.len() == 11 && "clear_scrollback"@.len() == 16);
    assert("search_prev"@ != "clear_scrollback"@);
    reveal_strlit("search_open");
    assert("search_prev"@[7] == 'p' && "search_open"@[7] == 'o');
    assert("search_prev"@ != "search_open"@);
    reveal_strlit("search_next");
    assert("search_prev"@[7] == 'p' && "search_next"@[7] == 'n');
    assert("search_prev"@ != "search_next"@);
}

proof fn lemma_resolves_increase_font_size(ctx: DispatchCtx)
    ensures
        registry_action("increase_font_size"@, ctx) == Some(Action::IncreaseFontSize),
{
    reveal_strlit("increase_font_size");
    reveal_strlit("paste");
    assert("increase_font_size"@.len() == 18 && "paste"@.len() == 5);
    assert("increase_font_size"@ != "paste"@);
    reveal_strlit("copy");
    assert("increase_font_size"@.len() == 18 && "copy"@.len() == 4);
    assert("increase_font_size"@ != "copy"@);
    reveal_strlit("new_tab");
    assert("increase_font_size"@.len() == 18 && "new_tab"@.len() == 7);
    assert("increase_font_size"@ != "new_tab"@);
    reveal_strlit("close_tab");
    assert("increase_font_size"@.len() == 18 && "close_tab"@.len() == 9);
    assert("increase_font_size"@ != "close_tab"@);
    reveal_strlit("next_tab");
    assert("increase_font_size"@.len() == 18 && "next_tab"@.len() == 8);
    assert("increase_font_size"@ != "next_tab"@);
    reveal_strlit("prev_tab");
    assert("increase_font_size"@.len() == 18 && "prev_tab"@.len() == 8);
    assert("increase_font_size"@ != "prev_tab"@);
    reveal_strlit("move_tab_left");
    assert("increase_font_size"@.len() == 18 && "move_tab_left"@.len() == 13);
    assert("increase_font_size"@ != "move_tab_left"@);
    reveal_strlit("move_tab_right");
    assert("increase_font_size"@.len() == 18 && "move_tab_right"@.len() == 14);
    assert("increase_font_size"@ != "move_tab_right"@);
    reveal_strlit("rename_tab");
    assert("increase_font_size"@.len() == 18 && "rename_tab"@.len() == 10);
    assert("increase_font_size"@ != "rename_tab"@);
    reveal_strlit("go_to_tab_1");
    assert("increase_font_size"@.len() == 18 && "go_to_tab_1"@.len() == 11);
    assert("increase_font_size"@ != "go_to_tab_1"@);
    reveal_strlit("go_to_tab_2");
    assert("increase_font_size"@.len() == 18 && "go_to_tab_2"@.len() == 11);
    assert("increase_font_size"@ != "go_to_tab_2"@);
    reveal_strlit("go_to_tab_3");
    assert("increase_font_size"@.len() == 18 && "go_to_tab_3"@.len() == 11);
    assert("increase_font_size"@ != "go_to_tab_3"@);
    reveal_strlit("go_to_tab_4");
    assert("increase_font_size"@.len() == 18 && "go_to_tab_4"@.len() == 11);
    assert("increase_font_size"@ != "go_to_tab_4"@);
    reveal_strlit("go_to_tab_5");
    assert("increase_font_size"@.len() == 18 && "go_to_tab_5"@.len() == 11);
    assert("increase_font_size"@ != "go_to_tab_5"@);
    reveal_strlit("go_to_tab_6");
    assert("increase_font_size"@.len() == 18 && "go_to_tab_6"@.len() == 11);
    assert("increase_font_size"@ != "go_to_tab_6"@);
    reveal_strlit("go_to_tab_7");
    assert("increase_font_size"@.len() == 18 && "go_to_tab_7"@.len() == 11);
    assert("increase_font_size"@ != "go_to_tab_7"@);
    reveal_strlit("go_to_tab_8");
    assert("increase_font_size"@.len() == 18 && "go_to_tab_8"@.len() == 11);
    assert("increase_font_size"@ != "go_to_tab_8"@);
    reveal_strlit("go_to_tab_9");
    assert("increase_font_size"@.len() == 18 && "go_to_tab_9"@.len() == 11);
    assert("increase_font_size"@ != "go_to_tab_9"@);
    reveal_strlit("split_horizontal");
    assert("increase_font_size"@.len() == 18 && "split_horizontal"@.len() == 16);
    assert("increase_font_size"@ != "split_horizontal"@);
    reveal_strlit("split_vertical");
    assert("increase_font_size"@.len() == 18 && "split_vertical"@.len() == 14);
    assert("increase_font_size"@ != "split_vertical"@);
    reveal_strlit("auto_split");
    assert("increase_font_size"@.len() == 18 && "auto_split"@.len() == 10);
    assert("increase_font_size"@ != "auto_split"@);
    reveal_strlit("close_pane");
    assert("increase_font_size"@.len() == 18 && "close_pane"@.len() == 10);
    assert("increase_font_size"@ != "close_pane"@);
    reveal_strlit("focus_left");
    assert("increase_font_size"@.len() == 18 && "focus_left"@.len() == 10);
    assert("increase_font_size"@ != "focus_left"@);
    reveal_strlit("focus_right");
    assert("increase_font_size"@.len() == 18 && "focus_right"@.len() == 11);
    assert("increase_font_size"@ != "focus_right"@);
    reveal_strlit("focus_up");
    assert("increase_font_size"@.len() == 18 && "focus_up"@.len() == 8);
    assert("increase_font_size"@ != "focus_up"@);
    reveal_strlit("focus_down");
    assert("increase_font_size"@.len() == 18 && "focus_down"@.len() == 10);
    assert("increase_font_size"@ != "focus_down"@);
    reveal_strlit("focus_next");
    assert("increase_font_size"@.len() == 18 && "focus_next"@.len() == 10);
    assert("increase_font_size"@ != "focus_next"@);
    reveal_strlit("zoom_pane");
    assert("increase_font_size"@.len() == 18 && "zoom_pane"@.len() == 9);
    assert("increase_font_size"@ != "zoom_pane"@);
    reveal_strlit("rotate_panes_forward");
    assert("increase_font_size"@.len() == 18 && "rotate_panes_forward"@.len() == 20);
    assert("increase_font_size"@ != "rotate_panes_forward"@);
    reveal_strlit("rotate_panes_backward");
    assert("increase_font_size"@.len() == 18 && "rotate_panes_backward"@.len() == 21);
    assert("increase_font_size"@ != "rotate_panes_backward"@);
    reveal_strlit("resize_pane_right");
    assert("increase_font_size"@.len() == 18 && "resize_pane_right"@.len() == 17);
    assert("increase_font_size"@ != "resize_pane_right"@);
    reveal_strlit("resize_pane_left");
    assert("increase_font_size"@.len() == 18 && "resize_pane_left"@.len() == 16);
    assert("increase_font_size"@ != "resize_pane_left"@);
    reveal_strlit("resize_pane_down");
    assert("increase_font_size"@.len() == 18 && "resize_pane_down"@.len() == 16);
    assert("increase_font_size"@ != "resize_pane_down"@);
    reveal_strlit("resize_pane_up");
    assert("increase_font_size"@.len() == 18 && "resize_pane_up"@.len() == 14);
    assert("increase_font_size"@ != "resize_pane_up"@);
    reveal_strlit("scroll_page_up");
    assert("increase_font_size"@.len() == 18 && "scroll_page_up"@.len() == 14);
    assert("increase_font_size"@ != "scroll_page_up"@);
    reveal_strlit("scroll_page_down");
    assert("increase_font_size"@.len() == 18 && "scroll_page_down"@.len() == 16);
    assert("increase_font_size"@ != "scroll_page_down"@);
    reveal_strlit("scroll_to_top");
    assert("increase_font_size"@.len() == 18 && "scroll_to_top"@.len() == 13);
    assert("increase_font_size"@ != "scroll_to_top"@);
    reveal_strlit("scroll_to_bottom");
    assert("increase_font_size"@.len() == 18 && "scroll_to_bottom"@.len() == 16);
    assert("increase_font_size"@ != "scroll_to_bottom"@);
    reveal_strlit("clear_scrollback");
    assert("increase_font_size"@.len() == 18 && "clear_scrollback"@.len() == 16);
    assert("increase_font_size"@ != "clear_scrollback"@);
    reveal_strlit("search_open");
    assert("increase_font_size"@.len() == 18 && "search_open"@.len() == 11);
    assert("increase_font_size"@ != "search_open"@);
    reveal_strlit("search_next");
    assert("increase_font_size"@.len() == 18 && "search_next"@.len() == 11);
    assert("increase_font_size"@ != "search_next"@);
    reveal_strlit("search_prev");
    assert("increase_font_size"@.len() == 18 && "search_prev"@.len() == 11);
    assert("increase_font_size"@ != "search_prev"@);
}

proof fn lemma_resolves_decrease_font_size(ctx: DispatchCtx)
    ensures
        registry_action("decrease_font_size"@, ctx) == Some(Action::DecreaseFontSize),
{
    reveal_strlit("decrease_font_size");
    reveal_strlit("paste");
    assert("decrease_font_size"@.len() == 18 && "paste"@.len() == 5);
    assert("decrease_font_size"@ != "paste"@);
    reveal_strlit("copy");
    assert("decrease_font_size"@.len() == 18 && "copy"@.len() == 4);
    assert("decrease_font_size"@ != "copy"@);
    reveal_strlit("new_tab");
    assert("decrease_font_size"@.len() == 18 && "new_tab"@.len() == 7);
    assert("decrease_font_size"@ != "new_tab"@);
    reveal_strlit("close_tab");
    assert("decrease_font_size"@.len() == 18 && "close_tab"@.len() == 9);
    assert("decrease_font_size"@ != "close_tab"@);
    reveal_strlit("next_tab");
    assert("decrease_font_size"@.len() == 18 && "next_tab"@.len() == 8);
    assert("decrease_font_size"@ != "next_tab"@);
    reveal_strlit("prev_tab");
    assert("decrease_font_size"@.len() == 18 && "prev_tab"@.len() == 8);
    assert("decrease_font_size"@ != "prev_tab"@);
    reveal_strlit("move_tab_left");
    assert("decrease_font_size"@.len() == 18 && "move_tab_left"@.len() == 13);
    assert("decrease_font_size"@ != "move_tab_left"@);
    reveal_strlit("move_tab_right");
    assert("decrease_font_size"@.len() == 18 && "move_tab_right"@.len() == 14);
    assert("decrease_font_size"@ != "move_tab_right"@);
    reveal_strlit("rename_tab");
    assert("decrease_font_size"@.len() == 18 && "rename_tab"@.len() == 10);
    assert("decrease_font_size"@ != "rename_tab"@);
    reveal_strlit("go_to_tab_1");
    assert("decrease_font_size"@.len() == 18 && "go_to_tab_1"@.len() == 11);
    assert("decrease_font_size"@ != "go_to_tab_1"@);
    reveal_strlit("go_to_tab_2");
    assert("decrease_font_size"@.len() == 18 && "go_to_tab_2"@.len() == 11);
    assert("decrease_font_size"@ != "go_to_tab_2"@);
    reveal_strlit("go_to_tab_3");
    assert("decrease_font_size"@.len() == 18 && "go_to_tab_3"@.len() == 11);
    assert("decrease_font_size"@ != "go_to_tab_3"@);
    reveal_strlit("go_to_tab_4");
    assert("decrease_font_size"@.len() == 18 && "go_to_tab_4"@.len() == 11);
    assert("decrease_font_size"@ != "go_to_tab_4"@);
    reveal_strlit("go_to_tab_5");
    assert("decrease_font_size"@.len() == 18 && "go_to_tab_5"@.len() == 11);
    assert("decrease_font_size"@ != "go_to_tab_5"@);
    reveal_strlit("go_to_tab_6");
    assert("decrease_font_size"@.len() == 18 && "go_to_tab_6"@.len() == 11);
    assert("decrease_font_size"@ != "go_to_tab_6"@);
    reveal_strlit("go_to_tab_7");
    assert("decrease_font_size"@.len() == 18 && "go_to_tab_7"@.len() == 11);
    assert("decrease_font_size"@ != "go_to_tab_7"@);
    reveal_strlit("go_to_tab_8");
    assert("decrease_font_size"@.len() == 18 && "go_to_tab_8"@.len() == 11);
    assert("decrease_font_size"@ != "go_to_tab_8"@);
    reveal_strlit("go_to_tab_9");
    assert("decrease_font_size"@.len() == 18 && "go_to_tab_9"@.len() == 11);
    assert("decrease_font_size"@ != "go_to_tab_9"@);
    reveal_strlit("split_horizontal");
    assert("decrease_font_size"@.len() == 18 && "split_horizontal"@.len() == 16);
    assert("decrease_font_size"@ != "split_horizontal"@);
    reveal_strlit("split_vertical");
    assert("decrease_font_size"@.len() == 18 && "split_vertical"@.len() == 14);
    assert("decrease_font_size"@ != "split_vertical"@);
    reveal_strlit("auto_split");
    assert("decrease_font_size"@.len() == 18 && "auto_split"@.len() == 10);
    assert("decrease_font_size"@ != "auto_split"@);
    reveal_strlit("close_pane");
    assert("decrease_font_size"@.len() == 18 && "close_pane"@.len() == 10);
    assert("decrease_font_size"@ != "close_pane"@);
    reveal_strlit("focus_left");
    assert("decrease_font_size"@.len() == 18 && "focus_left"@.len() == 10);
    assert("decrease_font_size"@ != "focus_left"@);
    reveal_strlit("focus_right");
    assert("decrease_font_size"@.len() == 18 && "focus_right"@.len() == 11);
    assert("decrease_font_size"@ != "focus_right"@);
    reveal_strlit("focus_up");
    assert("decrease_font_size"@.len() == 18 && "focus_up"@.len() == 8);
    assert("decrease_font_size"@ != "focus_up"@);
    reveal_strlit("focus_down");
    assert("decrease_font_size"@.len() == 18 && "focus_down"@.len() == 10);
    assert("decrease_font_size"@ != "focus_down"@);
    reveal_strlit("focus_next");
    assert("decrease_font_size"@.len() == 18 && "focus_next"@.len() == 10);
    assert("decrease_font_size"@ != "focus_next"@);
    reveal_strlit("zoom_pane");
    assert("decrease_font_size"@.len() == 18 && "zoom_pane"@.len() == 9);
    assert("decrease_font_size"@ != "zoom_pane"@);
    reveal_strlit("rotate_panes_forward");
    assert("decrease_font_size"@.len() == 18 && "rotate_panes_forward"@.len() == 20);
    assert("decrease_font_size"@ != "rotate_panes_forward"@);
    reveal_strlit("rotate_panes_backward");
    assert("decrease_font_size"@.len() == 18 && "rotate_panes_backward"@.len() == 21);
    assert("decrease_font_size"@ != "rotate_panes_backward"@);
    reveal_strlit("resize_pane_right");
    assert("decrease_font_size"@.len() == 18 && "resize_pane_right"@.len() == 17);
    assert("decrease_font_size"@ != "resize_pane_right"@);
    reveal_strlit("resize_pane_left");
    assert("decrease_font_size"@.len() == 18 && "resize_pane_left"@.len() == 16);
    assert("decrease_font_size"@ != "resize_pane_left"@);
    reveal_strlit("resize_pane_down");
    assert("decrease_font_size"@.len() == 18 && "resize_pane_down"@.len() == 16);
    assert("decrease_font_size"@ != "resize_pane_down"@);
    reveal_strlit("resize_pane_up");
    assert("decrease_font_size"@.len() == 18 && "resize_pane_up"@.len() == 14);
    assert("decrease_font_size"@ != "resize_pane_up"@);
    reveal_strlit("scroll_page_up");
    assert("decrease_font_size"@.len() == 18 && "scroll_page_up"@.len() == 14);
    assert("decrease_font_size"@ != "scroll_page_up"@);
    reveal_strlit("scroll_page_down");
    assert("decrease_font_size"@.len() == 18 && "scroll_page_down"@.len() == 16);
    assert("decrease_font_size"@ != "scroll_page_down"@);
    reveal_strlit("scroll_to_top");
    assert("decrease_font_size"@.len() == 18 && "scroll_to_top"@.len() == 13);
    assert("decrease_font_size"@ != "scroll_to_top"@);
    reveal_strlit("scroll_to_bottom");
    assert("decrease_font_size"@.len() == 18 && "scroll_to_bottom"@.len() == 16);
    assert("decrease_font_size"@ != "scroll_to_bottom"@);
    reveal_strlit("clear_scrollback");
    assert("decrease_font_size"@.len() == 18 && "clear_scrollback"@.len() == 16);
    assert("decrease_font_size"@ != "clear_scrollback"@);
    reveal_strlit("search_open");
    assert("decrease_font_size"@.len() == 18 && "search_open"@.len() == 11);
    assert("decrease_font_size"@ != "search_open"@);
    reveal_strlit("search_next");
    assert("decrease_font_size"@.len() == 18 && "search_next"@.len() == 11);
    assert("decrease_font_size"@ != "search_next"@);
    reveal_strlit("search_prev");
    assert("decrease_font_size"@.len() == 18 && "search_prev"@.len() == 11);
    assert("decrease_font_size"@ != "search_prev"@);
    reveal_strlit("increase_font_size");
    assert("decrease_font_size"@[0] == 'd' && "increase_font_size"@[0] == 'i');
    assert("decrease_font_size"@ != "increase_font_size"@);
}

proof fn lemma_resolves_reset_font_size(ctx: DispatchCtx)
    ensures
        registry_action("reset_font_size"@, ctx) == Some(Action::ResetFontSize),
{
    reveal_strlit("reset_font_size");
    reveal_strlit("paste");
    assert("reset_font_size"@.len() == 15 && "paste"@.len() == 5);
    assert("reset_font_size"@ != "paste"@);
    reveal_strlit("copy");
    assert("reset_font_size"@.len() == 15 && "copy"@.len() == 4);
    assert("reset_font_size"@ != "copy"@);
    reveal_strlit("new_tab");
    assert("reset_font_size"@.len() == 15 && "new_tab"@.len() == 7);
    assert("reset_font_size"@ != "new_tab"@);
    reveal_strlit("close_tab");
    assert("reset_font_size"@.len() == 15 && "close_tab"@.len() == 9);
    assert("reset_font_size"@ != "close_tab"@);
    reveal_strlit("next_tab");
    assert("reset_font_size"@.len() == 15 && "next_tab"@.len() == 8);
    assert("reset_font_size"@ != "next_tab"@);
    reveal_strlit("prev_tab");
    assert("reset_font_size"@.len() == 15 && "prev_tab"@.len() == 8);
    assert("reset_font_size"@ != "prev_tab"@);
    reveal_strlit("move_tab_left");
    assert("reset_font_size"@.len() == 15 && "move_tab_left"@.len() == 13);
    assert("reset_font_size"@ != "move_tab_left"@);
    reveal_strlit("move_tab_right");
    assert("reset_font_size"@.len() == 15 && "move_tab_right"@.len() == 14);
    assert("reset_font_size"@ != "move_tab_right"@);
    reveal_strlit("rename_tab");
    assert("reset_font_size"@.len() == 15 && "rename_tab"@.len() == 10);
    assert("reset_font_size"@ != "rename_tab"@);
    reveal_strlit("go_to_tab_1");
    assert("reset_font_size"@.len() == 15 && "go_to_tab_1"@.len() == 11);
    assert("reset_font_size"@ != "go_to_tab_1"@);
    reveal_strlit("go_to_tab_2");
    assert("reset_font_size"@.len() == 15 && "go_to_tab_2"@.len() == 11);
    assert("reset_font_size"@ != "go_to_tab_2"@);
    reveal_strlit("go_to_tab_3");
    assert("reset_font_size"@.len() == 15 && "go_to_tab_3"@.len() == 11);
    assert("reset_font_size"@ != "go_to_tab_3"@);
    reveal_strlit("go_to_tab_4");
    assert("reset_font_size"@.len() == 15 && "go_to_tab_4"@.len() == 11);
    assert("reset_font_size"@ != "go_to_tab_4"@);
    reveal_strlit("go_to_tab_5");
    assert("reset_font_size"@.len() == 15 && "go_to_tab_5"@.len() == 11);
    assert("reset_font_size"@ != "go_to_tab_5"@);
    reveal_strlit("go_to_tab_6");
    assert("reset_font_size"@.len() == 15 && "go_to_tab_6"@.len() == 11);
    assert("reset_font_size"@ != "go_to_tab_6"@);
    reveal_strlit("go_to_tab_7");
    assert("reset_font_size"@.len() == 15 && "go_to_tab_7"@.len() == 11);
    assert("reset_font_size"@ != "go_to_tab_7"@);
    reveal_strlit("go_to_tab_8");
    assert("reset_font_size"@.len() == 15 && "go_to_tab_8"@.len() == 11);
    assert("reset_font_size"@ != "go_to_tab_8"@);
    reveal_strlit("go_to_tab_9");
    assert("reset_font_size"@.len() == 15 && "go_to_tab_9"@.len() == 11);
    assert("reset_font_size"@ != "go_to_tab_9"@);
    reveal_strlit("split_horizontal");
    assert("reset_font_size"@.len() == 15 && "split_horizontal"@.len() == 16);
    assert("reset_font_size"@ != "split_horizontal"@);
    reveal_strlit("split_vertical");
    assert("reset_font_size"@.len() == 15 && "split_vertical"@.len() == 14);
    assert("reset_font_size"@ != "split_vertical"@);
    reveal_strlit("auto_split");
    assert("reset_font_size"@.len() == 15 && "auto_split"@.len() == 10);
    assert("reset_font_size"@ != "auto_split"@);
    reveal_strlit("close_pane");
    assert("reset_font_size"@.len() == 15 && "close_pane"@.len() == 10);
    assert("reset_font_size"@ != "close_pane"@);
    reveal_strlit("focus_left");
    assert("reset_font_size"@.len() == 15 && "focus_left"@.len() == 10);
    assert("reset_font_size"@ != "focus_left"@);
    reveal_strlit("focus_right");
    assert("reset_font_size"@.len() == 15 && "focus_right"@.len() == 11);
    assert("reset_font_size"@ != "focus_right"@);
    reveal_strlit("focus_up");
    assert("reset_font_size"@.len() == 15 && "focus_up"@.len() == 8);
    assert("reset_font_size"@ != "focus_up"@);
    reveal_strlit("focus_down");
    assert("reset_font_size"@.len() == 15 && "focus_down"@.len() == 10);
    assert("reset_font_size"@ != "focus_down"@);
    reveal_strlit("focus_next");
    assert("reset_font_size"@.len() == 15 && "focus_next"@.len() == 10);
    assert("reset_font_size"@ != "focus_next"@);
    reveal_strlit("zoom_pane");
    assert("reset_font_size"@.len() == 15 && "zoom_pane"@.len() == 9);
    assert("reset_font_size"@ != "zoom_pane"@);
    reveal_strlit("rotate_panes_forward");
    assert("reset_font_size"@.len() == 15 && "rotate_panes_forward"@.len() == 20);
    assert("reset_font_size"@ != "rotate_panes_forward"@);
    reveal_strlit("rotate_panes_backward");
    assert("reset_font_size"@.len() == 15 && "rotate_panes_backward"@.len() == 21);
    assert("reset_font_size"@ != "rotate_panes_backward"@);
    reveal_strlit("resize_pane_right");
    assert("reset_font_size"@.len() == 15 && "resize_pane_right"@.len() == 17);
    assert("reset_font_size"@ != "resize_pane_right"@);
    reveal_strlit("resize_pane_left");
    assert("reset_font_size"@.len() == 15 && "resize_pane_left"@.len() == 16);
    assert("reset_font_size"@ != "resize_pane_left"@);
    reveal_strlit("resize_pane_down");
    assert("reset_font_size"@.len() == 15 && "resize_pane_down"@.len() == 16);
    assert("reset_font_size"@ != "resize_pane_down"@);
    reveal_strlit("resize_pane_up");
    assert("reset_font_size"@.len() == 15 && "resize_pane_up"@.len() == 14);
    assert("reset_font_size"@ != "resize_pane_up"@);
    reveal_strlit("scroll_page_up");
    assert("reset_font_size"@.len() == 15 && "scroll_page_up"@.len() == 14);
    assert("reset_font_size"@ != "scroll_page_up"@);
    reveal_strlit("scroll_page_down");
    assert("reset_font_size"@.len() == 15 && "scroll_page_down"@.len() == 16);
    assert("reset_font_size"@ != "scroll_page_down"@);
    reveal_strlit("scroll_to_top");
    assert("reset_font_size"@.len() == 15 && "scroll_to_top"@.len() == 13);
    assert("reset_font_size"@ != "scroll_to_top"@);
    reveal_strlit("scroll_to_bottom");
    assert("reset_font_size"@.len() == 15 && "scroll_to_bottom"@.len() == 16);
    assert("reset_font_size"@ != "scroll_to_bottom"@);
    reveal_strlit("clear_scrollback");
    assert("reset_font_size"@.len() == 15 && "clear_scrollback"@.len() == 16);
    assert("reset_font_size"@ != "clear_scrollback"@);
    reveal_strlit("search_open");
    assert("reset_font_size"@.len() == 15 && "search_open"@.len() == 11);
    assert("reset_font_size"@ != "search_open"@);
    reveal_strlit("search_next");
    assert("reset_font_size"@.len() == 15 && "search_next"@.len() == 11);
    assert("reset_font_size"@ != "search_next"@);
    reveal_strlit("search_prev");
    assert("reset_font_size"@.len() == 15 && "search_prev"@.len() == 11);
    assert("reset_font_size"@ != "search_prev"@);
    reveal_strlit("increase_font_size");
    assert("reset_font_size"@.len() == 15 && "increase_font_size"@.len() == 18);
    assert("reset_font_size"@ != "increase_font_size"@);
    reveal_strlit("decrease_font_size");
    assert("reset_font_size"@.len() == 15 && "decrease_font_size"@.len() == 18);
    assert("reset_font_size"@ != "decrease_font_size"@);
}

proof fn lemma_resolves_open_config(ctx: DispatchCtx)
    ensures
        registry_action("open_config"@, ctx) == Some(Action::OpenConfig),
{
    reveal_strlit("open_config");
    reveal_strlit("paste");
    assert("open_config"@.len() == 11 && "paste"@.len() == 5);
    assert("open_config"@ != "paste"@);
    reveal_strlit("copy");
    assert("open_config"@.len() == 11 && "copy"@.len() == 4);
    assert("open_config"@ != "copy"@);
    reveal_strlit("new_tab");
    assert("open_config"@.len() == 11 && "new_tab"@.len() == 7);
    assert("open_config"@ != "new_tab"@);
    reveal_strlit("close_tab");
    assert("open_config"@.len() == 11 && "close_tab"@.len() == 9);
    assert("open_config"@ != "close_tab"@);
    reveal_strlit("next_tab");
    assert("open_config"@.len() == 11 && "next_tab"@.len() == 8);
    assert("open_config"@ != "next_tab"@);
    reveal_strlit("prev_tab");
    assert("open_config"@.len() == 11 && "prev_tab"@.len() == 8);
    assert("open_config"@ != "prev_tab"@);
    reveal_strlit("move_tab_left");
    assert("open_config"@.len() == 11 && "move_tab_left"@.len() == 13);
    assert("open_config"@ != "move_tab_left"@);
    reveal_strlit("move_tab_right");
    assert("open_config"@.len() == 11 && "move_tab_right"@.len() == 14);
    assert("open_config"@ != "move_tab_right"@);
    reveal_strlit("rename_tab");
    assert("open_config"@.len() == 11 && "rename_tab"@.len() == 10);
    assert("open_config"@ != "rename_tab"@);
    reveal_strlit("go_to_tab_1");
    assert("open_config"@[0] == 'o' && "go_to_tab_1"@[0] == 'g');
    assert("open_config"@ != "go_to_tab_1"@);
    reveal_strlit("go_to_tab_2");
    assert("open_config"@[0] == 'o' && "go_to_tab_2"@[0] == 'g');
    assert("open_config"@ != "go_to_tab_2"@);
    reveal_strlit("go_to_tab_3");
    assert("open_config"@[0] == 'o' && "go_to_tab_3"@[0] == 'g');
    assert("open_config"@ != "go_to_tab_3"@);
    reveal_strlit("go_to_tab_4");
    assert("open_config"@[0] == 'o' && "go_to_tab_4"@[0] == 'g');
    assert("open_config"@ != "go_to_tab_4"@);
    reveal_strlit("go_to_tab_5");
    assert("open_config"@[0] == 'o' && "go_to_tab_5"@[0] == 'g');
    assert("open_config"@ != "go_to_tab_5"@);
    reveal_strlit("go_to_tab_6");
    assert("open_config"@[0] == 'o' && "go_to_tab_6"@[0] == 'g');
    assert("open_config"@ != "go_to_tab_6"@);
    reveal_strlit("go_to_tab_7");
    assert("open_config"@[0] == 'o' && "go_to_tab_7"@[0] == 'g');
    assert("open_config"@ != "go_to_tab_7"@);
    reveal_strlit("go_to_tab_8");
    assert("open_config"@[0] == 'o' && "go_to_tab_8"@[0] == 'g');
    assert("open_config"@ != "go_to_tab_8"@);
    reveal_strlit("go_to_tab_9");
    assert("open_config"@[0] == 'o' && "go_to_tab_9"@[0] == 'g');
    assert("open_config"@ != "go_to_tab_9"@);
    reveal_strlit("split_horizontal");
    assert("open_config"@.len() == 11 && "split_horizontal"@.len() == 16);
    assert("open_config"@ != "split_horizontal"@);
    reveal_strlit("split_vertical");
    assert("open_config"@.len() == 11 && "split_vertical"@.len() == 14);
    assert("open_config"@ != "split_vertical"@);
    reveal_strlit("auto_split");
    assert("open_config"@.len() == 11 && "auto_split"@.len() == 10);
    assert("open_config"@ != "auto_split"@);
    reveal_strlit("close_pane");
    assert("open_config"@.len() == 11 && "close_pane"@.len() == 10);
    assert("open_config"@ != "close_pane"@);
    reveal_strlit("focus_left");
    assert("open_config"@.len() == 11 && "focus_left"@.len() == 10);
    assert("open_config"@ != "focus_left"@);
    reveal_strlit("focus_right");
    assert("open_config"@[0] == 'o' && "focus_right"@[0] == 'f');
    assert("open_config"@ != "focus_right"@);
    reveal_strlit("focus_up");
    assert("open_config"@.len() == 11 && "focus_up"@.len() == 8);
    assert("open_config"@ != "focus_up"@);
    reveal_strlit("focus_down");
    assert("open_config"@.len() == 11 && "focus_down"@.len() == 10);
    assert("open_config"@ != "focus_down"@);
    reveal_strlit("focus_next");
    assert("open_config"@.len() == 11 && "focus_next"@.len() == 10);
    assert("open_config"@ != "focus_next"@);
    reveal_strlit("zoom_pane");
    assert("open_config"@.len() == 11 && "zoom_pane"@.len() == 9);
    assert("open_config"@ != "zoom_pane"@);
    reveal_strlit("rotate_panes_forward");
    assert("open_config"@.len() == 11 && "rotate_panes_forward"@.len() == 20);
    assert("open_config"@ != "rotate_panes_forward"@);
    reveal_strlit("rotate_panes_backward");
    assert("open_config"@.len() == 11 && "rotate_panes_backward"@.len() == 21);
    assert("open_config"@ != "rotate_panes_backward"@);
    reveal_strlit("resize_pane_right");
    assert("open_config"@.len() == 11 && "resize_pane_right"@.len() == 17);
    assert("open_config"@ != "resize_pane_right"@);
    reveal_strlit("resize_pane_left");
    assert("open_config"@.len() == 11 && "resize_pane_left"@.len() == 16);
    assert("open_config"@ != "resize_pane_left"@);
    reveal_strlit("resize_pane_down");
    assert("open_config"@.len() == 11 && "resize_pane_down"@.len() == 16);
    assert("open_config"@ != "resize_pane_down"@);
    reveal_strlit("resize_pane_up");
    assert("open_config"@.len() == 11 && "resize_pane_up"@.len() == 14);
    assert("open_config"@ != "resize_pane_up"@);
    reveal_strlit("scroll_page_up");
    assert("open_config"@.len() == 11 && "scroll_page_up"@.len() == 14);
    assert("open_config"@ != "scroll_page_up"@);
    reveal_strlit("scroll_page_down");
    assert("open_config"@.len() == 11 && "scroll_page_down"@.len() == 16);
    assert("open_config"@ != "scroll_page_down"@);
    reveal_strlit("scroll_to_top");
    assert("open_config"@.len() == 11 && "scroll_to_top"@.len() == 13);
    assert("open_config"@ != "scroll_to_top"@);
    reveal_strlit("scroll_to_bottom");
    assert("open_config"@.len() == 11 && "scroll_to_bottom"@.len() == 16);
    assert("open_config"@ != "scroll_to_bottom"@);
    reveal_strlit("clear_scrollback");
    assert("open_config"@.len() == 11 && "clear_scrollback"@.len() == 16);
    assert("open_config"@ != "clear_scrollback"@);
    reveal_strlit("search_open");
    assert("open_config"@[0] == 'o' && "search_open"@[0] == 's');
    assert("open_config"@ != "search_open"@);
    reveal_strlit("search_next");
    assert("open_config"@[0] == 'o' && "search_next"@[0] == 's');
    assert("open_config"@ != "search_next"@);
    reveal_strlit("search_prev");
    assert("open_config"@[0] == 'o' && "search_prev"@[0] == 's');
    assert("open_config"@ != "search_prev"@);
    reveal_strlit("increase_font_size");
    assert("open_config"@.len() == 11 && "increase_font_size"@.len() == 18);
    assert("open_config"@ != "increase_font_size"@);
    reveal_strlit("decrease_font_size");
    assert("open_config"@.len() == 11 && "decrease_font_size"@.len() == 18);
    assert("open_config"@ != "decrease_font_size"@);
    reveal_strlit("reset_font_size");
    assert("open_config"@.len() == 11 && "reset_font_size"@.len() == 15);
    assert("open_config"@ != "reset_font_size"@);
}

proof fn lemma_resolves_open_command_palette(ctx: DispatchCtx)
    ensures
        registry_action("open_command_palette"@, ctx) == Some(Action::OpenCommandPalette),
{
    reveal_strlit("open_command_palette");
    reveal_strlit("paste");
    assert("open_command_palette"@.len() == 20 && "paste"@.len() == 5);
    assert("open_command_palette"@ != "paste"@);
    reveal_strlit("copy");
    assert("open_command_palette"@.len() == 20 && "copy"@.len() == 4);
    assert("open_command_palette"@ != "copy"@);
    reveal_strlit("new_tab");
    assert("open_command_palette"@.len() == 20 && "new_tab"@.len() == 7);
    assert("open_command_palette"@ != "new_tab"@);
    reveal_strlit("close_tab");
    assert("open_command_palette"@.len() == 20 && "close_tab"@.len() == 9);
    assert("open_command_palette"@ != "close_tab"@);
    reveal_strlit("next_tab");
    assert("open_command_palette"@.len() == 20 && "next_tab"@.len() == 8);
    assert("open_command_palette"@ != "next_tab"@);
    reveal_strlit("prev_tab");
    assert("open_command_palette"@.len() == 20 && "prev_tab"@.len() == 8);
    assert("open_command_palette"@ != "prev_tab"@);
    reveal_strlit("move_tab_left");
    assert("open_command_palette"@.len() == 20 && "move_tab_left"@.len() == 13);
    assert("open_command_palette"@ != "move_tab_left"@);
    reveal_strlit("move_tab_right");
    assert("open_command_palette"@.len() == 20 && "move_tab_right"@.len() == 14);
    assert("open_command_palette"@ != "move_tab_right"@);
    reveal_strlit("rename_tab");
    assert("open_command_palette"@.len() == 20 && "rename_tab"@.len() == 10);
    assert("open_command_palette"@ != "rename_tab"@);
    reveal_strlit("go_to_tab_1");
    assert("open_command_palette"@.len() == 20 && "go_to_tab_1"@.len() == 11);
    assert("open_command_palette"@ != "go_to_tab_1"@);
    reveal_strlit("go_to_tab_2");
    assert("open_command_palette"@.len() == 20 && "go_to_tab_2"@.len() == 11);
    assert("open_command_palette"@ != "go_to_tab_2"@);
    reveal_strlit("go_to_tab_3");
    assert("open_command_palette"@.len() == 20 && "go_to_tab_3"@.len() == 11);
    assert("open_command_palette"@ != "go_to_tab_3"@);
    reveal_strlit("go_to_tab_4");
    assert("open_command_palette"@.len() == 20 && "go_to_tab_4"@.len() == 11);
    assert("open_command_palette"@ != "go_to_tab_4"@);
    reveal_strlit("go_to_tab_5");
    assert("open_command_palette"@.len() == 20 && "go_to_tab_5"@.len() == 11);
    assert("open_command_palette"@ != "go_to_tab_5"@);
    reveal_strlit("go_to_tab_6");
    assert("open_command_palette"@.len() == 20 && "go_to_tab_6"@.len() == 11);
    assert("open_command_palette"@ != "go_to_tab_6"@);
    reveal_strlit("go_to_tab_7");
    assert("open_command_palette"@.len() == 20 && "go_to_tab_7"@.len() == 11);
    assert("open_command_palette"@ != "go_to_tab_7"@);
    reveal_strlit("go_to_tab_8");
    assert("open_command_palette"@.len() == 20 && "go_to_tab_8"@.len() == 11);
    assert("open_command_palette"@ != "go_to_tab_8"@);
    reveal_strlit("go_to_tab_9");
    assert("open_command_palette"@.len() == 20 && "go_to_tab_9"@.len() == 11);
    assert("open_command_palette"@ != "go_to_tab_9"@);
    reveal_strlit("split_horizontal");
    assert("open_command_palette"@.len() == 20 && "split_horizontal"@.len() == 16);
    assert("open_command_palette"@ != "split_horizontal"@);
    reveal_strlit("split_vertical");
    assert("open_command_palette"@.len() == 20 && "split_vertical"@.len() == 14);
    assert("open_command_palette"@ != "split_vertical"@);
    reveal_strlit("auto_split");
    assert("open_command_palette"@.len() == 20 && "auto_split"@.len() == 10);
    assert("open_command_palette"@ != "auto_split"@);
    reveal_strlit("close_pane");
    assert("open_command_palette"@.len() == 20 && "close_pane"@.len() == 10);
    assert("open_command_palette"@ != "close_pane"@);
    reveal_strlit("focus_left");
    assert("open_command_palette"@.len() == 20 && "focus_left"@.len() == 10);
    assert("open_command_palette"@ != "focus_left"@);
    reveal_strlit("focus_right");
    assert("open_command_palette"@.len() == 20 && "focus_right"@.len() == 11);
    assert("open_command_palette"@ != "focus_right"@);
    reveal_strlit("focus_up");
    assert("open_command_palette"@.len() == 20 && "focus_up"@.len() == 8);
    assert("open_command_palette"@ != "focus_up"@);
    reveal_strlit("focus_down");
    assert("open_command_palette"@.len() == 20 && "focus_down"@.len() == 10);
    assert("open_command_palette"@ != "focus_down"@);
    reveal_strlit("focus_next");
    assert("open_command_palette"@.len() == 20 && "focus_next"@.len() == 10);
    assert("open_command_palette"@ != "focus_next"@);
    reveal_strlit("zoom_pane");
    assert("open_command_palette"@.len() == 20 && "zoom_pane"@.len() == 9);
    assert("open_command_palette"@ != "zoom_pane"@);
    reveal_strlit("rotate_panes_forward");
    assert("open_command_palette"@[0] == 'o' && "rotate_panes_forward"@[0] == 'r');
    assert("open_command_palette"@ != "rotate_panes_forward"@);
    reveal_strlit("rotate_panes_backward");
    assert("open_command_palette"@.len() == 20 && "rotate_panes_backward"@.len() == 21);
    assert("open_command_palette"@ != "rotate_panes_backward"@);
    reveal_strlit("resize_pane_right");
    assert("open_command_palette"@.len() == 20 && "resize_pane_right"@.len() == 17);
    assert("open_command_palette"@ != "resize_pane_right"@);
    reveal_strlit("resize_pane_left");
    assert("open_command_palette"@.len() == 20 && "resize_pane_left"@.len() == 16);
    assert("open_command_palette"@ != "resize_pane_left"@);
    reveal_strlit("resize_pane_down");
    assert("open_command_palette"@.len() == 20 && "resize_pane_down"@.len() == 16);
    assert("open_command_palette"@ != "resize_pane_down"@);
    reveal_strlit("resize_pane_up");
    assert("open_command_palette"@.len() == 20 && "resize_pane_up"@.len() == 14);
    assert("open_command_palette"@ != "resize_pane_up"@);
    reveal_strlit("scroll_page_up");
    assert("open_command_palette"@.len() == 20 && "scroll_page_up"@.len() == 14);
    assert("open_command_palette"@ != "scroll_page_up"@);
    reveal_strlit("scroll_page_down");
    assert("open_command_palette"@.len() == 20 && "scroll_page_down"@.len() == 16);
    assert("open_command_palette"@ != "scroll_page_down"@);
    reveal_strlit("scroll_to_top");
    assert("open_command_palette"@.len() == 20 && "scroll_to_top"@.len() == 13);
    assert("open_command_palette"@ != "scroll_to_top"@);
    reveal_strlit("scroll_to_bottom");
    assert("open_command_palette"@.len() == 20 && "scroll_to_bottom"@.len() == 16);
    assert("open_command_palette"@ != "scroll_to_bottom"@);
    reveal_strlit("clear_scrollback");
    assert("open_command_palette"@.len() == 20 && "clear_scrollback"@.len() == 16);
    assert("open_command_palette"@ != "clear_scrollback"@);
    reveal_strlit("search_open");
    assert("open_command_palette"@.len() == 20 && "search_open"@.len() == 11);
    assert("open_command_palette"@ != "search_open"@);
    reveal_strlit("search_next");
    assert("open_command_palette"@.len() == 20 && "search_next"@.len() == 11);
    assert("open_command_palette"@ != "search_next"@);
    reveal_strlit("search_prev");
    assert("open_command_palette"@.len() == 20 && "search_prev"@.len() == 11);
    assert("open_command_palette"@ != "search_prev"@);
    reveal_strlit("increase_font_size");
    assert("open_command_palette"@.len() == 20 && "increase_font_size"@.len() == 18);
    assert("open_command_palette"@ != "increase_font_size"@);
    reveal_strlit("decrease_font_size");
    assert("open_command_palette"@.len() == 20 && "decrease_font_size"@.len() == 18);
    assert("open_command_palette"@ != "decrease_font_size"@);
    reveal_strlit("reset_font_size");
    assert("open_command_palette"@.len() == 20 && "reset_font_size"@.len() == 15);
    assert("open_command_palette"@ != "reset_font_size"@);
    reveal_strlit("open_config");
    assert("open_command_palette"@.len() == 20 && "open_config"@.len() == 11);
    assert("open_command_palette"@ != "open_config"@);
}

proof fn lemma_resolves_toggle_fullscreen(ctx: DispatchCtx)
    ensures
        registry_action("toggle_fullscreen"@, ctx) == Some(Action::ToggleFullscreen),
{
    reveal_strlit("toggle_fullscreen");
    reveal_strlit("paste");
    assert("toggle_fullscreen"@.len() == 17 && "paste"@.len() == 5);
    assert("toggle_fullscreen"@ != "paste"@);
    reveal_strlit("copy");
    assert("toggle_fullscreen"@.len() == 17 && "copy"@.len() == 4);
    assert("toggle_fullscreen"@ != "copy"@);
    reveal_strlit("new_tab");
    assert("toggle_fullscreen"@.len() == 17 && "new_tab"@.len() == 7);
    assert("toggle_fullscreen"@ != "new_tab"@);
    reveal_strlit("close_tab");
    assert("toggle_fullscreen"@.len() == 17 && "close_tab"@.len() == 9);
    assert("toggle_fullscreen"@ != "close_tab"@);
    reveal_strlit("next_tab");
    assert("toggle_fullscreen"@.len() == 17 && "next_tab"@.len() == 8);
    assert("toggle_fullscreen"@ != "next_tab"@);
    reveal_strlit("prev_tab");
    assert("toggle_fullscreen"@.len() == 17 && "prev_tab"@.len() == 8);
    assert("toggle_fullscreen"@ != "prev_tab"@);
    reveal_strlit("move_tab_left");
    assert("toggle_fullscreen"@.len() == 17 && "move_tab_left"@.len() == 13);
    assert("toggle_fullscreen"@ != "move_tab_left"@);
    reveal_strlit("move_tab_right");
    assert("toggle_fullscreen"@.len() == 17 && "move_tab_right"@.len() == 14);
    assert("toggle_fullscreen"@ != "move_tab_right"@);
    reveal_strlit("rename_tab");
    assert("toggle_fullscreen"@.len() == 17 && "rename_tab"@.len() == 10);
    assert("toggle_fullscreen"@ != "rename_tab"@);
    reveal_strlit("go_to_tab_1");
    assert("toggle_fullscreen"@.len() == 17 && "go_to_tab_1"@.len() == 11);
    assert("toggle_fullscreen"@ != "go_to_tab_1"@);
    reveal_strlit("go_to_tab_2");
    assert("toggle_fullscreen"@.len() == 17 && "go_to_tab_2"@.len() == 11);
    assert("toggle_fullscreen"@ != "go_to_tab_2"@);
    reveal_strlit("go_to_tab_3");
    assert("toggle_fullscreen"@.len() == 17 && "go_to_tab_3"@.len() == 11);
    assert("toggle_fullscreen"@ != "go_to_tab_3"@);
    reveal_strlit("go_to_tab_4");
    assert("toggle_fullscreen"@.len() == 17 && "go_to_tab_4"@.len() == 11);
    assert("toggle_fullscreen"@ != "go_to_tab_4"@);
    reveal_strlit("go_to_tab_5");
    assert("toggle_fullscreen"@.len() == 17 && "go_to_tab_5"@.len() == 11);
    assert("toggle_fullscreen"@ != "go_to_tab_5"@);
    reveal_strlit("go_to_tab_6");
    assert("toggle_fullscreen"@.len() == 17 && "go_to_tab_6"@.len() == 11);
    assert("toggle_fullscreen"@ != "go_to_tab_6"@);
    reveal_strlit("go_to_tab_7");
    assert("toggle_fullscreen"@.len() == 17 && "go_to_tab_7"@.len() == 11);
    assert("toggle_fullscreen"@ != "go_to_tab_7"@);
    reveal_strlit("go_to_tab_8");
    assert("toggle_fullscreen"@.len() == 17 && "go_to_tab_8"@.len() == 11);
    assert("toggle_fullscreen"@ != "go_to_tab_8"@);
    reveal_strlit("go_to_tab_9");
    assert("toggle_fullscreen"@.len() == 17 && "go_to_tab_9"@.len() == 11);
    assert("toggle_fullscreen"@ != "go_to_tab_9"@);
    reveal_strlit("split_horizontal");
    assert("toggle_fullscreen"@.len() == 17 && "split_horizontal"@.len() == 16);
    assert("toggle_fullscreen"@ != "split_horizontal"@);
    reveal_strlit("split_vertical");
    assert("toggle_fullscreen"@.len() == 17 && "split_vertical"@.len() == 14);
    assert("toggle_fullscreen"@ != "split_vertical"@);
    reveal_strlit("auto_split");
    assert("toggle_fullscreen"@.len() == 17 && "auto_split"@.len() == 10);
    assert("toggle_fullscreen"@ != "auto_split"@);
    reveal_strlit("close_pane");
    assert("toggle_fullscreen"@.len() == 17 && "close_pane"@.len() == 10);
    assert("toggle_fullscreen"@ != "close_pane"@);
    reveal_strlit("focus_left");
    assert("toggle_fullscreen"@.len() == 17 && "focus_left"@.len() == 10);
    assert("toggle_fullscreen"@ != "focus_left"@);
    reveal_strlit("focus_right");
    assert("toggle_fullscreen"@.len() == 17 && "focus_right"@.len() == 11);
    assert("toggle_fullscreen"@ != "focus_right"@);
    reveal_strlit("focus_up");
    assert("toggle_fullscreen"@.len() == 17 && "focus_up"@.len() == 8);
    assert("toggle_fullscreen"@ != "focus_up"@);
    reveal_strlit("focus_down");
    assert("toggle_fullscreen"@.len() == 17 && "focus_down"@.len() == 10);
    assert("toggle_fullscreen"@ != "focus_down"@);
    reveal_strlit("focus_next");
    assert("toggle_fullscreen"@.len() == 17 && "focus_next"@.len() == 10);
    assert("toggle_fullscreen"@ != "focus_next"@);
    reveal_strlit("zoom_pane");
    assert("toggle_fullscreen"@.len() == 17 && "zoom_pane"@.len() == 9);
    assert("toggle_fullscreen"@ != "zoom_pane"@);
    reveal_strlit("rotate_panes_forward");
    assert("toggle_fullscreen"@.len() == 17 && "rotate_panes_forward"@.len() == 20);
    assert("toggle_fullscreen"@ != "rotate_panes_forward"@);
    reveal_strlit("rotate_panes_backward");
    assert("toggle_fullscreen"@.len() == 17 && "rotate_panes_backward"@.len() == 21);
    assert("toggle_fullscreen"@ != "rotate_panes_backward"@);
    reveal_strlit("resize_pane_right");
    assert("toggle_fullscreen"@[0] == 't' && "resize_pane_right"@[0] == 'r');
    assert("toggle_fullscreen"@ != "resize_pane_right"@);
    reveal_strlit("resize_pane_left");
    assert("toggle_fullscreen"@.len() == 17 && "resize_pane_left"@.len() == 16);
    assert("toggle_fullscreen"@ != "resize_pane_left"@);
    reveal_strlit("resize_pane_down");
    assert("toggle_fullscreen"@.len() == 17 && "resize_pane_down"@.len() == 16);
    assert("toggle_fullscreen"@ != "resize_pane_down"@);
    reveal_strlit("resize_pane_up");
    assert("toggle_fullscreen"@.len() == 17 && "resize_pane_up"@.len() == 14);
    assert("toggle_fullscreen"@ != "resize_pane_up"@);
    reveal_strlit("scroll_page_up");
    assert("toggle_fullscreen"@.len() == 17 && "scroll_page_up"@.len() == 14);
    assert("toggle_fullscreen"@ != "scroll_page_up"@);
    reveal_strlit("scroll_page_down");
    assert("toggle_fullscreen"@.len() == 17 && "scroll_page_down"@.len() == 16);
    assert("toggle_fullscreen"@ != "scroll_page_down"@);
    reveal_strlit("scroll_to_top");
    assert("toggle_fullscreen"@.len() == 17 && "scroll_to_top"@.len() == 13);
    assert("toggle_fullscreen"@ != "scroll_to_top"@);
    reveal_strlit("scroll_to_bottom");
    assert("toggle_fullscreen"@.len() == 17 && "scroll_to_bottom"@.len() == 16);
    assert("toggle_fullscreen"@ != "scroll_to_bottom"@);
    reveal_strlit("clear_scrollback");
    assert("toggle_fullscreen"@.len() == 17 && "clear_scrollback"@.len() == 16);
    assert("toggle_fullscreen"@ != "clear_scrollback"@);
    reveal_strlit("search_open");
    assert("toggle_fullscreen"@.len() == 17 && "search_open"@.len() == 11);
    assert("toggle_fullscreen"@ != "search_open"@);
    reveal_strlit("search_next");
    assert("toggle_fullscreen"@.len() == 17 && "search_next"@.len() == 11);
    assert("toggle_fullscreen"@ != "search_next"@);
    reveal_strlit("search_prev");
    assert("toggle_fullscreen"@.len() == 17 && "search_prev"@.len() == 11);
    assert("toggle_fullscreen"@ != "search_prev"@);
    reveal_strlit("increase_font_size");
    assert("toggle_fullscreen"@.len() == 17 && "increase_font_size"@.len() == 18);
    assert("toggle_fullscreen"@ != "increase_font_size"@);
    reveal_strlit("decrease_font_size");
    assert("toggle_fullscreen"@.len() == 17 && "decrease_font_size"@.len() == 18);
    assert("toggle_fullscreen"@ != "decrease_font_size"@);
    reveal_strlit("reset_font_size");
    assert("toggle_fullscreen"@.len() == 17 && "reset_font_size"@.len() == 15);
    assert("toggle_fullscreen"@ != "reset_font_size"@);
    reveal_strlit("open_config");
    assert("toggle_fullscreen"@.len() == 17 && "open_config"@.len() == 11);
    assert("toggle_fullscreen"@ != "open_config"@);
    reveal_strlit("open_command_palette");
    assert("toggle_fullscreen"@.len() == 17 && "open_command_palette"@.len() == 20);
    assert("toggle_fullscreen"@ != "open_command_palette"@);
}

proof fn lemma_resolves_toggle_log(ctx: DispatchCtx)
    ensures
        registry_action("toggle_log"@, ctx) == Some(Action::ToggleLog),
{
    reveal_strlit("toggle_log");
    reveal_strlit("paste");
    assert("toggle_log"@.len() == 10 && "paste"@.len() == 5);
    assert("toggle_log"@ != "paste"@);
    reveal_strlit("copy");
    assert("toggle_log"@.len() == 10 && "copy"@.len() == 4);
    assert("toggle_log"@ != "copy"@);
    reveal_strlit("new_tab");
    assert("toggle_log"@.len() == 10 && "new_tab"@.len() == 7);
    assert("toggle_log"@ != "new_tab"@);
    reveal_strlit("close_tab");
    assert("toggle_log"@.len() == 10 && "close_tab"@.len() == 9);
    assert("toggle_log"@ != "close_tab"@);
    reveal_strlit("next_tab");
    assert("toggle_log"@.len() == 10 && "next_tab"@.len() == 8);
    assert("toggle_log"@ != "next_tab"@);
    reveal_strlit("prev_tab");
    assert("toggle_log"@.len() == 10 && "prev_tab"@.len() == 8);
    assert("toggle_log"@ != "prev_tab"@);
    reveal_strlit("move_tab_left");
    assert("toggle_log"@.len() == 10 && "move_tab_left"@.len() == 13);
    assert("toggle_log"@ != "move_tab_left"@);
    reveal_strlit("move_tab_right");
    assert("toggle_log"@.len() == 10 && "move_tab_right"@.len() == 14);
    assert("toggle_log"@ != "move_tab_right"@);
    reveal_strlit("rename_tab");
    assert("toggle_log"@[0] == 't' && "rename_tab"@[0] == 'r');
    assert("toggle_log"@ != "rename_tab"@);
    reveal_strlit("go_to_tab_1");
    assert("toggle_log"@.len() == 10 && "go_to_tab_1"@.len() == 11);
    assert("toggle_log"@ != "go_to_tab_1"@);
    reveal_strlit("go_to_tab_2");
    assert("toggle_log"@.len() == 10 && "go_to_tab_2"@.len() == 11);
    assert("toggle_log"@ != "go_to_tab_2"@);
    reveal_strlit("go_to_tab_3");
    assert("toggle_log"@.len() == 10 && "go_to_tab_3"@.len() == 11);
    assert("toggle_log"@ != "go_to_tab_3"@);
    reveal_strlit("go_to_tab_4");
    assert("toggle_log"@.len() == 10 && "go_to_tab_4"@.len() == 11);
    assert("toggle_log"@ != "go_to_tab_4"@);
    reveal_strlit("go_to_tab_5");
    assert("toggle_log"@.len() == 10 && "go_to_tab_5"@.len() == 11);
    assert("toggle_log"@ != "go_to_tab_5"@);
    reveal_strlit("go_to_tab_6");
    assert("toggle_log"@.len() == 10 && "go_to_tab_6"@.len() == 11);
    assert("toggle_log"@ != "go_to_tab_6"@);
    reveal_strlit("go_to_tab_7");
    assert("toggle_log"@.len() == 10 && "go_to_tab_7"@.len() == 11);
    assert("toggle_log"@ != "go_to_tab_7"@);
    reveal_strlit("go_to_tab_8");
    assert("toggle_log"@.len() == 10 && "go_to_tab_8"@.len() == 11);
    assert("toggle_log"@ != "go_to_tab_8"@);
    reveal_strlit("go_to_tab_9");
    assert("toggle_log"@.len() == 10 && "go_to_tab_9"@.len() == 11);
    assert("toggle_log"@ != "go_to_tab_9"@);
    reveal_strlit("split_horizontal");
    assert("toggle_log"@.len() == 10 && "split_horizontal"@.len() == 16);
    assert("toggle_log"@ != "split_horizontal"@);
    reveal_strlit("split_vertical");
    assert("toggle_log"@.len() == 10 && "split_vertical"@.len() == 14);
    assert("toggle_log"@ != "split_vertical"@);
    reveal_strlit("auto_split");
    assert("toggle_log"@[0] == 't' && "auto_split"@[0] == 'a');
    assert("toggle_log"@ != "auto_split"@);
    reveal_strlit("close_pane");
    assert("toggle_log"@[0] == 't' && "close_pane"@[0] == 'c');
    assert("toggle_log"@ != "close_pane"@);
    reveal_strlit("focus_left");
    assert("toggle_log"@[0] == 't' && "focus_left"@[0] == 'f');
    assert("toggle_log"@ != "focus_left"@);
    reveal_strlit("focus_right");
    assert("toggle_log"@.len() == 10 && "focus_right"@.len() == 11);
    assert("toggle_log"@ != "focus_right"@);
    reveal_strlit("focus_up");
    assert("toggle_log"@.len() == 10 && "focus_up"@.len() == 8);
    assert("toggle_log"@ != "focus_up"@);
    reveal_strlit("focus_down");
    assert("toggle_log"@[0] == 't' && "focus_down"@[0] == 'f');
    assert("toggle_log"@ != "focus_down"@);
    reveal_strlit("focus_next");
    assert("toggle_log"@[0] == 't' && "focus_next"@[0] == 'f');
    assert("toggle_log"@ != "focus_next"@);
    reveal_strlit("zoom_pane");
    assert("toggle_log"@.len() == 10 && "zoom_pane"@.len() == 9);
    assert("toggle_log"@ != "zoom_pane"@);
    reveal_strlit("rotate_panes_forward");
    assert("toggle_log"@.len() == 10 && "rotate_panes_forward"@.len() == 20);
    assert("toggle_log"@ != "rotate_panes_forward"@);
    reveal_strlit("rotate_panes_backward");
    assert("toggle_log"@.len() == 10 && "rotate_panes_backward"@.len() == 21);
    assert("toggle_log"@ != "rotate_panes_backward"@);
    reveal_strlit("resize_pane_right");
    assert("toggle_log"@.len() == 10 && "resize_pane_right"@.len() == 17);
    assert("toggle_log"@ != "resize_pane_right"@);
    reveal_strlit("resize_pane_left");
    assert("toggle_log"@.len() == 10 && "resize_pane_left"@.len() == 16);
    assert("toggle_log"@ != "resize_pane_left"@);
    reveal_strlit("resize_pane_down");
    assert("toggle_log"@.len() == 10 && "resize_pane_down"@.len() == 16);
    assert("toggle_log"@ != "resize_pane_down"@);
    reveal_strlit("resize_pane_up");
    assert("toggle_log"@.len() == 10 && "resize_pane_up"@.len() == 14);
    assert("toggle_log"@ != "resize_pane_up"@);
    reveal_strlit("scroll_page_up");
    assert("toggle_log"@.len() == 10 && "scroll_page_up"@.len() == 14);
    assert("toggle_log"@ != "scroll_page_up"@);
    reveal_strlit("scroll_page_down");
    assert("toggle_log"@.len() == 10 && "scroll_page_down"@.len() == 16);
    assert("toggle_log"@ != "scroll_page_down"@);
    reveal_strlit("scroll_to_top");
    assert("toggle_log"@.len() == 10 && "scroll_to_top"@.len() == 13);
    assert("toggle_log"@ != "scroll_to_top"@);
    reveal_strlit("scroll_to_bottom");
    assert("toggle_log"@.len() == 10 && "scroll_to_bottom"@.len() == 16);
    assert("toggle_log"@ != "scroll_to_bottom"@);
    reveal_strlit("clear_scrollback");
    assert("toggle_log"@.len() == 10 && "clear_scrollback"@.len() == 16);
    assert("toggle_log"@ != "clear_scrollback"@);
    reveal_strlit("search_open");
    assert("toggle_log"@.len() == 10 && "search_open"@.len() == 11);
    assert("toggle_log"@ != "search_open"@);
    reveal_strlit("search_next");
    assert("toggle_log"@.len() == 10 && "search_next"@.len() == 11);
    assert("toggle_log"@ != "search_next"@);
    reveal_strlit("search_prev");
    assert("toggle_log"@.len() == 10 && "search_prev"@.len() == 11);
    assert("toggle_log"@ != "search_prev"@);
    reveal_strlit("increase_font_size");
    assert("toggle_log"@.len() == 10 && "increase_font_size"@.len() == 18);
    assert("toggle_log"@ != "increase_font_size"@);
    reveal_strlit("decrease_font_size");
    assert("toggle_log"@.len() == 10 && "decrease_font_size"@.len() == 18);
    assert("toggle_log"@ != "decrease_font_size"@);
    reveal_strlit("reset_font_size");
    assert("toggle_log"@.len() == 10 && "reset_font_size"@.len() == 15);
    assert("toggle_log"@ != "reset_font_size"@);
    reveal_strlit("open_config");
    assert("toggle_log"@.len() == 10 && "open_config"@.len() == 11);
    assert("toggle_log"@ != "open_config"@);
    reveal_strlit("open_command_palette");
    assert("toggle_log"@.len() == 10 && "open_command_palette"@.len() == 20);
    assert("toggle_log"@ != "open_command_palette"@);
    reveal_strlit("toggle_fullscreen");
    assert("toggle_log"@.len() == 10 && "toggle_fullscreen"@.len() == 17);
    assert("toggle_log"@ != "toggle_fullscreen"@);
}

proof fn lemma_resolves_toggle_passthrough(ctx: DispatchCtx)
    ensures
        registry_action("toggle_passthrough"@, ctx) == Some(Action::TogglePassthrough),
{
    reveal_strlit("toggle_passthrough");
    reveal_strlit("paste");
    assert("toggle_passthrough"@.len() == 18 && "paste"@.len() == 5);
    assert("toggle_passthrough"@ != "paste"@);
    reveal_strlit("copy");
    assert("toggle_passthrough"@.len() == 18 && "copy"@.len() == 4);
    assert("toggle_passthrough"@ != "copy"@);
    reveal_strlit("new_tab");
    assert("toggle_passthrough"@.len() == 18 && "new_tab"@.len() == 7);
    assert("toggle_passthrough"@ != "new_tab"@);
    reveal_strlit("close_tab");
    assert("toggle_passthrough"@.len() == 18 && "close_tab"@.len() == 9);
    assert("toggle_passthrough"@ != "close_tab"@);
    reveal_strlit("next_tab");
    assert("toggle_passthrough"@.len() == 18 && "next_tab"@.len() == 8);
    assert("toggle_passthrough"@ != "next_tab"@);
    reveal_strlit("prev_tab");
    assert("toggle_passthrough"@.len() == 18 && "prev_tab"@.len() == 8);
    assert("toggle_passthrough"@ != "prev_tab"@);
    reveal_strlit("move_tab_left");
    assert("toggle_passthrough"@.len() == 18 && "move_tab_left"@.len() == 13);
    assert("toggle_passthrough"@ != "move_tab_left"@);
    reveal_strlit("move_tab_right");
    assert("toggle_passthrough"@.len() == 18 && "move_tab_right"@.len() == 14);
    assert("toggle_passthrough"@ != "move_tab_right"@);
    reveal_strlit("rename_tab");
    assert("toggle_passthrough"@.len() == 18 && "rename_tab"@.len() == 10);
    assert("toggle_passthrough"@ != "rename_tab"@);
    reveal_strlit("go_to_tab_1");
    assert("toggle_passthrough"@.len() == 18 && "go_to_tab_1"@.len() == 11);
    assert("toggle_passthrough"@ != "go_to_tab_1"@);
    reveal_strlit("go_to_tab_2");
    assert("toggle_passthrough"@.len() == 18 && "go_to_tab_2"@.len() == 11);
    assert("toggle_passthrough"@ != "go_to_tab_2"@);
    reveal_strlit("go_to_tab_3");
    assert("toggle_passthrough"@.len() == 18 && "go_to_tab_3"@.len() == 11);
    assert("toggle_passthrough"@ != "go_to_tab_3"@);
    reveal_strlit("go_to_tab_4");
    assert("toggle_passthrough"@.len() == 18 && "go_to_tab_4"@.len() == 11);
    assert("toggle_passthrough"@ != "go_to_tab_4"@);
    reveal_strlit("go_to_tab_5");
    assert("toggle_passthrough"@.len() == 18 && "go_to_tab_5"@.len() == 11);
    assert("toggle_passthrough"@ != "go_to_tab_5"@);
    reveal_strlit("go_to_tab_6");
    assert("toggle_passthrough"@.len() == 18 && "go_to_tab_6"@.len() == 11);
    assert("toggle_passthrough"@ != "go_to_tab_6"@);
    reveal_strlit("go_to_tab_7");
    assert("toggle_passthrough"@.len() == 18 && "go_to_tab_7"@.len() == 11);
    assert("toggle_passthrough"@ != "go_to_tab_7"@);
    reveal_strlit("go_to_tab_8");
    assert("toggle_passthrough"@.len() == 18 && "go_to_tab_8"@.len() == 11);
    assert("toggle_passthrough"@ != "go_to_tab_8"@);
    reveal_strlit("go_to_tab_9");
    assert("toggle_passthrough"@.len() == 18 && "go_to_tab_9"@.len() == 11);
    assert("toggle_passthrough"@ != "go_to_tab_9"@);
    reveal_strlit("split_horizontal");
    assert("toggle_passthrough"@.len() == 18 && "split_horizontal"@.len() == 16);
    assert("toggle_passthrough"@ != "split_horizontal"@);
    reveal_strlit("split_vertical");
    assert("toggle_passthrough"@.len() == 18 && "split_vertical"@.len() == 14);
    assert("toggle_passthrough"@ != "split_vertical"@);
    reveal_strlit("auto_split");
    assert("toggle_passthrough"@.len() == 18 && "auto_split"@.len() == 10);
    assert("toggle_passthrough"@ != "auto_split"@);
    reveal_strlit("close_pane");
    assert("toggle_passthrough"@.len() == 18 && "close_pane"@.len() == 10);
    assert("toggle_passthrough"@ != "close_pane"@);
    reveal_strlit("focus_left");
    assert("toggle_passthrough"@.len() == 18 && "focus_left"@.len() == 10);
    assert("toggle_passthrough"@ != "focus_left"@);
    reveal_strlit("focus_right");
    assert("toggle_passthrough"@.len() == 18 && "focus_right"@.len() == 11);
    assert("toggle_passthrough"@ != "focus_right"@);
    reveal_strlit("focus_up");
    assert("toggle_passthrough"@.len() == 18 && "focus_up"@.len() == 8);
    assert("toggle_passthrough"@ != "focus_up"@);
    reveal_strlit("focus_down");
    assert("toggle_passthrough"@.len() == 18 && "focus_down"@.len() == 10);
    assert("toggle_passthrough"@ != "focus_down"@);
    reveal_strlit("focus_next");
    assert("toggle_passthrough"@.len() == 18 && "focus_next"@.len() == 10);
    assert("toggle_passthrough"@ != "focus_next"@);
    reveal_strlit("zoom_pane");
    assert("toggle_passthrough"@.len() == 18 && "zoom_pane"@.len() == 9);
    assert("toggle_passthrough"@ != "zoom_pane"@);
    reveal_strlit("rotate_panes_forward");
    assert("toggle_passthrough"@.len() == 18 && "rotate_panes_forward"@.len() == 20);
    assert("toggle_passthrough"@ != "rotate_panes_forward"@);
    reveal_strlit("rotate_panes_backward");
    assert("toggle_passthrough"@.len() == 18 && "rotate_panes_backward"@.len() == 21);
    assert("toggle_passthrough"@ != "rotate_panes_backward"@);
    reveal_strlit("resize_pane_right");
    assert("toggle_passthrough"@.len() == 18 && "resize_pane_right"@.len() == 17);
    assert("toggle_passthrough"@ != "resize_pane_right"@);
    reveal_strlit("resize_pane_left");
    assert("toggle_passthrough"@.len() == 18 && "resize_pane_left"@.len() == 16);
    assert("toggle_passthrough"@ != "resize_pane_left"@);
    reveal_strlit("resize_pane_down");
    assert("toggle_passthrough"@.len() == 18 && "resize_pane_down"@.len() == 16);
    assert("toggle_passthrough"@ != "resize_pane_down"@);
    reveal_strlit("resize_pane_up");
    assert("toggle_passthrough"@.len() == 18 && "resize_pane_up"@.len() == 14);
    assert("toggle_passthrough"@ != "resize_pane_up"@);
    reveal_strlit("scroll_page_up");
    assert("toggle_passthrough"@.len() == 18 && "scroll_page_up"@.len() == 14);
    assert("toggle_passthrough"@ != "scroll_page_up"@);
    reveal_strlit("scroll_page_down");
    assert("toggle_passthrough"@.len() == 18 && "scroll_page_down"@.len() == 16);
    assert("toggle_passthrough"@ != "scroll_page_down"@);
    reveal_strlit("scroll_to_top");
    assert("toggle_passthrough"@.len() == 18 && "scroll_to_top"@.len() == 13);
    assert("toggle_passthrough"@ != "scroll_to_top"@);
    reveal_strlit("scroll_to_bottom");
    assert("toggle_passthrough"@.len() == 18 && "scroll_to_bottom"@.len() == 16);
    assert("toggle_passthrough"@ != "scroll_to_bottom"@);
    reveal_strlit("clear_scrollback");
    assert("toggle_passthrough"@.len() == 18 && "clear_scrollback"@.len() == 16);
    assert("toggle_passthrough"@ != "clear_scrollback"@);
    reveal_strlit("search_open");
    assert("toggle_passthrough"@.len() == 18 && "search_open"@.len() == 11);
    assert("toggle_passthrough"@ != "search_open"@);
    reveal_strlit("search_next");
    assert("toggle_passthrough"@.len() == 18 && "search_next"@.len() == 11);
    assert("toggle_passthrough"@ != "search_next"@);
    reveal_strlit("search_prev");
    assert("toggle_passthrough"@.len() == 18 && "search_prev"@.len() == 11);
    assert("toggle_passthrough"@ != "search_prev"@);
    reveal_strlit("increase_font_size");
    assert("toggle_passthrough"@[0] == 't' && "increase_font_size"@[0] == 'i');
    assert("toggle_passthrough"@ != "increase_font_size"@);
    reveal_strlit("decrease_font_size");
    assert("toggle_passthrough"@[0] == 't' && "decrease_font_size"@[0] == 'd');
    assert("toggle_passthrough"@ != "decrease_font_size"@);
    reveal_strlit("reset_font_size");
    assert("toggle_passthrough"@.len() == 18 && "reset_font_size"@.len() == 15);
    assert("toggle_passthrough"@ != "reset_font_size"@);
    reveal_strlit("open_config");
    assert("toggle_passthrough"@.len() == 18 && "open_config"@.len() == 11);
    assert("toggle_passthrough"@ != "open_config"@);
    reveal_strlit("open_command_palette");
    assert("toggle_passthrough"@.len() == 18 && "open_command_palette"@.len() == 20);
    assert("toggle_passthrough"@ != "open_command_palette"@);
    reveal_strlit("toggle_fullscreen");
    assert("toggle_passthrough"@.len() == 18 && "toggle_fullscreen"@.len() == 17);
    assert("toggle_passthrough"@ != "toggle_fullscreen"@);
    reveal_strlit("toggle_log");
    assert("toggle_passthrough"@.len() == 18 && "toggle_log"@.len() == 10);
    assert("toggle_passthrough"@ != "toggle_log"@);
}

proof fn lemma_resolves_screenshot_open(ctx: DispatchCtx)
    ensures
        registry_action("screenshot_open"@, ctx) == Some(Action::ScreenshotOpen),
{
    reveal_strlit("screenshot_open");
    reveal_strlit("paste");
    assert("screenshot_open"@.len() == 15 && "paste"@.len() == 5);
    assert("screenshot_open"@ != "paste"@);
    reveal_strlit("copy");
    assert("screenshot_open"@.len() == 15 && "copy"@.len() == 4);
    assert("screenshot_open"@ != "copy"@);
    reveal_strlit("new_tab");
    assert("screenshot_open"@.len() == 15 && "new_tab"@.len() == 7);
    assert("screenshot_open"@ != "new_tab"@);
    reveal_strlit("close_tab");
    assert("screenshot_open"@.len() == 15 && "close_tab"@.len() == 9);
    assert("screenshot_open"@ != "close_tab"@);
    reveal_strlit("next_tab");
    assert("screenshot_open"@.len() == 15 && "next_tab"@.len() == 8);
    assert("screenshot_open"@ != "next_tab"@);
    reveal_strlit("prev_tab");
    assert("screenshot_open"@.len() == 15 && "prev_tab"@.len() == 8);
    assert("screenshot_open"@ != "prev_tab"@);
    reveal_strlit("move_tab_left");
    assert("screenshot_open"@.len() == 15 && "move_tab_left"@.len() == 13);
    assert("screenshot_open"@ != "move_tab_left"@);
    reveal_strlit("move_tab_right");
    assert("screenshot_open"@.len() == 15 && "move_tab_right"@.len() == 14);
    assert("screenshot_open"@ != "move_tab_right"@);
    reveal_strlit("rename_tab");
    assert("screenshot_open"@.len() == 15 && "rename_tab"@.len() == 10);
    assert("screenshot_open"@ != "rename_tab"@);
    reveal_strlit("go_to_tab_1");
    assert("screenshot_open"@.len() == 15 && "go_to_tab_1"@.len() == 11);
    assert("screenshot_open"@ != "go_to_tab_1"@);
    reveal_strlit("go_to_tab_2");
    assert("screenshot_open"@.len() == 15 && "go_to_tab_2"@.len() == 11);
    assert("screenshot_open"@ != "go_to_tab_2"@);
    reveal_strlit("go_to_tab_3");
    assert("screenshot_open"@.len() == 15 && "go_to_tab_3"@.len() == 11);
    assert("screenshot_open"@ != "go_to_tab_3"@);
    reveal_strlit("go_to_tab_4");
    assert("screenshot_open"@.len() == 15 && "go_to_tab_4"@.len() == 11);
    assert("screenshot_open"@ != "go_to_tab_4"@);
    reveal_strlit("go_to_tab_5");
    assert("screenshot_open"@.len() == 15 && "go_to_tab_5"@.len() == 11);
    assert("screenshot_open"@ != "go_to_tab_5"@);
    reveal_strlit("go_to_tab_6");
    assert("screenshot_open"@.len() == 15 && "go_to_tab_6"@.len() == 11);
    assert("screenshot_open"@ != "go_to_tab_6"@);
    reveal_strlit("go_to_tab_7");
    assert("screenshot_open"@.len() == 15 && "go_to_tab_7"@.len() == 11);
    assert("screenshot_open"@ != "go_to_tab_7"@);
    reveal_strlit("go_to_tab_8");
    assert("screenshot_open"@.len() == 15 && "go_to_tab_8"@.len() == 11);
    assert("screenshot_open"@ != "go_to_tab_8"@);
    reveal_strlit("go_to_tab_9");
    assert("screenshot_open"@.len() == 15 && "go_to_tab_9"@.len() == 11);
    assert("screenshot_open"@ != "go_to_tab_9"@);
    reveal_strlit("split_horizontal");
    assert("screenshot_open"@.len() == 15 && "split_horizontal"@.len() == 16);
    assert("screenshot_open"@ != "split_horizontal"@);
    reveal_strlit("split_vertical");
    assert("screenshot_open"@.len() == 15 && "split_vertical"@.len() == 14);
    assert("screenshot_open"@ != "split_vertical"@);
    reveal_strlit("auto_split");
    assert("screenshot_open"@.len() == 15 && "auto_split"@.len() == 10);
    assert("screenshot_open"@ != "auto_split"@);
    reveal_strlit("close_pane");
    assert("screenshot_open"@.len() == 15 && "close_pane"@.len() == 10);
    assert("screenshot_open"@ != "close_pane"@);
    reveal_strlit("focus_left");
    assert("screenshot_open"@.len() == 15 && "focus_left"@.len() == 10);
    assert("screenshot_open"@ != "focus_left"@);
    reveal_strlit("focus_right");
    assert("screenshot_open"@.len() == 15 && "focus_right"@.len() == 11);
    assert("screenshot_open"@ != "focus_right"@);
    reveal_strlit("focus_up");
    assert("screenshot_open"@.len() == 15 && "focus_up"@.len() == 8);
    assert("screenshot_open"@ != "focus_up"@);
    reveal_strlit("focus_down");
    assert("screenshot_open"@.len() == 15 && "focus_down"@.len() == 10);
    assert("screenshot_open"@ != "focus_down"@);
    reveal_strlit("focus_next");
    assert("screenshot_open"@.len() == 15 && "focus_next"@.len() == 10);
    assert("screenshot_open"@ != "focus_next"@);
    reveal_strlit("zoom_pane");
    assert("screenshot_open"@.len() == 15 && "zoom_pane"@.len() == 9);
    assert("screenshot_open"@ != "zoom_pane"@);
    reveal_strlit("rotate_panes_forward");
    assert("screenshot_open"@.len() == 15 && "rotate_panes_forward"@.len() == 20);
    assert("screenshot_open"@ != "rotate_panes_forward"@);
    reveal_strlit("rotate_panes_backward");
    assert("screenshot_open"@.len() == 15 && "rotate_panes_backward"@.len() == 21);
    assert("screenshot_open"@ != "rotate_panes_backward"@);
    reveal_strlit("resize_pane_right");
    assert("screenshot_open"@.len() == 15 && "resize_pane_right"@.len() == 17);
    assert("screenshot_open"@ != "resize_pane_right"@);
    reveal_strlit("resize_pane_left");
    assert("screenshot_open"@.len() == 15 && "resize_pane_left"@.len() == 16);
    assert("screenshot_open"@ != "resize_pane_left"@);
    reveal_strlit("resize_pane_down");
    assert("screenshot_open"@.len() == 15 && "resize_pane_down"@.len() == 16);
    assert("screenshot_open"@ != "resize_pane_down"@);
    reveal_strlit("resize_pane_up");
    assert("screenshot_open"@.len() == 15 && "resize_pane_up"@.len() == 14);
    assert("screenshot_open"@ != "resize_pane_up"@);
    reveal_strlit("scroll_page_up");
    assert("screenshot_open"@.len() == 15 && "scroll_page_up"@.len() == 14);
    assert("screenshot_open"@ != "scroll_page_up"@);
    reveal_strlit("scroll_page_down");
    assert("screenshot_open"@.len() == 15 && "scroll_page_down"@.len() == 16);
    assert("screenshot_open"@ != "scroll_page_down"@);
    reveal_strlit("scroll_to_top");
    assert("screenshot_open"@.len() == 15 && "scroll_to_top"@.len() == 13);
    assert("screenshot_open"@ != "scroll_to_top"@);
    reveal_strlit("scroll_to_bottom");
    assert("screenshot_open"@.len() == 15 && "scroll_to_bottom"@.len() == 16);
    assert("screenshot_open"@ != "scroll_to_bottom"@);
    reveal_strlit("clear_scrollback");
    assert("screenshot_open"@.len() == 15 && "clear_scrollback"@.len() == 16);
    assert("screenshot_open"@ != "clear_scrollback"@);
    reveal_strlit("search_open");
    assert("screenshot_open"@.len() == 15 && "search_open"@.len() == 11);
    assert("screenshot_open"@ != "search_open"@);
    reveal_strlit("search_next");
    assert("screenshot_open"@.len() == 15 && "search_next"@.len() == 11);
    assert("screenshot_open"@ != "search_next"@);
    reveal_strlit("search_prev");
    assert("screenshot_open"@.len() == 15 && "search_prev"@.len() == 11);
    assert("screenshot_open"@ != "search_prev"@);
    reveal_strlit("increase_font_size");
    assert("screenshot_open"@.len() == 15 && "increase_font_size"@.len() == 18);
    assert("screenshot_open"@ != "increase_font_size"@);
    reveal_strlit("decrease_font_size");
    assert("screenshot_open"@.len() == 15 && "decrease_font_size"@.len() == 18);
    assert("screenshot_open"@ != "decrease_font_size"@);
    reveal_strlit("reset_font_size");
    assert("screenshot_open"@[0] == 's' && "reset_font_size"@[0] == 'r');
    assert("screenshot_open"@ != "reset_font_size"@);
    reveal_strlit("open_config");
    assert("screenshot_open"@.len() == 15 && "open_config"@.len() == 11);
    assert("screenshot_open"@ != "open_config"@);
    reveal_strlit("open_command_palette");
    assert("screenshot_open"@.len() == 15 && "open_command_palette"@.len() == 20);
    assert("screenshot_open"@ != "open_command_palette"@);
    reveal_strlit("toggle_fullscreen");
    assert("screenshot_open"@.len() == 15 && "toggle_fullscreen"@.len() == 17);
    assert("screenshot_open"@ != "toggle_fullscreen"@);
    reveal_strlit("toggle_log");
    assert("screenshot_open"@.len() == 15 && "toggle_log"@.len() == 10);
    assert("screenshot_open"@ != "toggle_log"@);
    reveal_strlit("toggle_passthrough");
    assert("screenshot_open"@.len() == 15 && "toggle_passthrough"@.len() == 18);
    assert("screenshot_open"@ != "toggle_passthrough"@);
}

proof fn lemma_resolves_quit(ctx: DispatchCtx)
    ensures
        registry_action("quit"@, ctx) == Some(Action::Quit),
{
    reveal_strlit("quit");
    reveal_strlit("paste");
    assert("quit"@.len() == 4 && "paste"@.len() == 5);
    assert("quit"@ != "paste"@);
    reveal_strlit("copy");
    assert("quit"@[0] == 'q' && "copy"@[0] == 'c');
    assert("quit"@ != "copy"@);
    reveal_strlit("new_tab");
    assert("quit"@.len() == 4 && "new_tab"@.len() == 7);
    assert("quit"@ != "new_tab"@);
    reveal_strlit("close_tab");
    assert("quit"@.len() == 4 && "close_tab"@.len() == 9);
    assert("quit"@ != "close_tab"@);
    reveal_strlit("next_tab");
    assert("quit"@.len() == 4 && "next_tab"@.len() == 8);
    assert("quit"@ != "next_tab"@);
    reveal_strlit("prev_tab");
    assert("quit"@.len() == 4 && "prev_tab"@.len() == 8);
    assert("quit"@ != "prev_tab"@);
    reveal_strlit("move_tab_left");
    assert("quit"@.len() == 4 && "move_tab_left"@.len() == 13);
    assert("quit"@ != "move_tab_left"@);
    reveal_strlit("move_tab_right");
    assert("quit"@.len() == 4 && "move_tab_right"@.len() == 14);
    assert("quit"@ != "move_tab_right"@);
    reveal_strlit("rename_tab");
    assert("quit"@.len() == 4 && "rename_tab"@.len() == 10);
    assert("quit"@ != "rename_tab"@);
    reveal_strlit("go_to_tab_1");
    assert("quit"@.len() == 4 && "go_to_tab_1"@.len() == 11);
    assert("quit"@ != "go_to_tab_1"@);
    reveal_strlit("go_to_tab_2");
    assert("quit"@.len() == 4 && "go_to_tab_2"@.len() == 11);
    assert("quit"@ != "go_to_tab_2"@);
    reveal_strlit("go_to_tab_3");
    assert("quit"@.len() == 4 && "go_to_tab_3"@.len() == 11);
    assert("quit"@ != "go_to_tab_3"@);
    reveal_strlit("go_to_tab_4");
    assert("quit"@.len() == 4 && "go_to_tab_4"@.len() == 11);
    assert("quit"@ != "go_to_tab_4"@);
    reveal_strlit("go_to_tab_5");
    assert("quit"@.len() == 4 && "go_to_tab_5"@.len() == 11);
    assert("quit"@ != "go_to_tab_5"@);
    reveal_strlit("go_to_tab_6");
    assert("quit"@.len() == 4 && "go_to_tab_6"@.len() == 11);
    assert("quit"@ != "go_to_tab_6"@);
    reveal_strlit("go_to_tab_7");
    assert("quit"@.len() == 4 && "go_to_tab_7"@.len() == 11);
    assert("quit"@ != "go_to_tab_7"@);
    reveal_strlit("go_to_tab_8");
    assert("quit"@.len() == 4 && "go_to_tab_8"@.len() == 11);
    assert("quit"@ != "go_to_tab_8"@);
    reveal_strlit("go_to_tab_9");
    assert("quit"@.len() == 4 && "go_to_tab_9"@.len() == 11);
    assert("quit"@ != "go_to_tab_9"@);
    reveal_strlit("split_horizontal");
    assert("quit"@.len() == 4 && "split_horizontal"@.len() == 16);
    assert("quit"@ != "split_horizontal"@);
    reveal_strlit("split_vertical");
    assert("quit"@.len() == 4 && "split_vertical"@.len() == 14);
    assert("quit"@ != "split_vertical"@);
    reveal_strlit("auto_split");
    assert("quit"@.len() == 4 && "auto_split"@.len() == 10);
    assert("quit"@ != "auto_split"@);
    reveal_strlit("close_pane");
    assert("quit"@.len() == 4 && "close_pane"@.len() == 10);
    assert("quit"@ != "close_pane"@);
    reveal_strlit("focus_left");
    assert("quit"@.len() == 4 && "focus_left"@.len() == 10);
    assert("quit"@ != "focus_left"@);
    reveal_strlit("focus_right");
    assert("quit"@.len() == 4 && "focus_right"@.len() == 11);
    assert("quit"@ != "focus_right"@);
    reveal_strlit("focus_up");
    assert("quit"@.len() == 4 && "focus_up"@.len() == 8);
    assert("quit"@ != "focus_up"@);
    reveal_strlit("focus_down");
    assert("quit"@.len() == 4 && "focus_down"@.len() == 10);
    assert("quit"@ != "focus_down"@);
    reveal_strlit("focus_next");
    assert("quit"@.len() == 4 && "focus_next"@.len() == 10);
    assert("quit"@ != "focus_next"@);
    reveal_strlit("zoom_pane");
    assert("quit"@.len() == 4 && "zoom_pane"@.len() == 9);
    assert("quit"@ != "zoom_pane"@);
    reveal_strlit("rotate_panes_forward");
    assert("quit"@.len() == 4 && "rotate_panes_forward"@.len() == 20);
    assert("quit"@ != "rotate_panes_forward"@);
    reveal_strlit("rotate_panes_backward");
    assert("quit"@.len() == 4 && "rotate_panes_backward"@.len() == 21);
    assert("quit"@ != "rotate_panes_backward"@);
    reveal_strlit("resize_pane_right");
    assert("quit"@.len() == 4 && "resize_pane_right"@.len() == 17);
    assert("quit"@ != "resize_pane_right"@);
    reveal_strlit("resize_pane_left");
    assert("quit"@.len() == 4 && "resize_pane_left"@.len() == 16);
    assert("quit"@ != "resize_pane_left"@);
    reveal_strlit("resize_pane_down");
    assert("quit"@.len() == 4 && "resize_pane_down"@.len() == 16);
    assert("quit"@ != "resize_pane_down"@);
    reveal_strlit("resize_pane_up");
    assert("quit"@.len() == 4 && "resize_pane_up"@.len() == 14);
    assert("quit"@ != "resize_pane_up"@);
    reveal_strlit("scroll_page_up");
    assert("quit"@.len() == 4 && "scroll_page_up"@.len() == 14);
    assert("quit"@ != "scroll_page_up"@);
    reveal_strlit("scroll_page_down");
    assert("quit"@.len() == 4 && "scroll_page_down"@.len() == 16);
    assert("quit"@ != "scroll_page_down"@);
    reveal_strlit("scroll_to_top");
    assert("quit"@.len() == 4 && "scroll_to_top"@.len() == 13);
    assert("quit"@ != "scroll_to_top"@);
    reveal_strlit("scroll_to_bottom");
    assert("quit"@.len() == 4 && "scroll_to_bottom"@.len() == 16);
    assert("quit"@ != "scroll_to_bottom"@);
    reveal_strlit("clear_scrollback");
    assert("quit"@.len() == 4 && "clear_scrollback"@.len() == 16);
    assert("quit"@ != "clear_scrollback"@);
    reveal_strlit("search_open");
    assert("quit"@.len() == 4 && "search_open"@.len() == 11);
    assert("quit"@ != "search_open"@);
    reveal_strlit("search_next");
    assert("quit"@.len() == 4 && "search_next"@.len() == 11);
    assert("quit"@ != "search_next"@);
    reveal_strlit("search_prev");
    assert("quit"@.len() == 4 && "search_prev"@.len() == 11);
    assert("quit"@ != "search_prev"@);
    reveal_strlit("increase_font_size");
    assert("quit"@.len() == 4 && "increase_font_size"@.len() == 18);
    assert("quit"@ != "increase_font_size"@);
    reveal_strlit("decrease_font_size");
    assert("quit"@.len() == 4 && "decrease_font_size"@.len() == 18);
    assert("quit"@ != "decrease_font_size"@);
    reveal_strlit("reset_font_size");
    assert("quit"@.len() == 4 && "reset_font_size"@.len() == 15);
    assert("quit"@ != "reset_font_size"@);
    reveal_strlit("open_config");
    assert("quit"@.len() == 4 && "open_config"@.len() == 11);
    assert("quit"@ != "open_config"@);
    reveal_strlit("open_command_palette");
    assert("quit"@.len() == 4 && "open_command_palette"@.len() == 20);
    assert("quit"@ != "open_command_palette"@);
    reveal_strlit("toggle_fullscreen");
    assert("quit"@.len() == 4 && "toggle_fullscreen"@.len() == 17);
    assert("quit"@ != "toggle_fullscreen"@);
    reveal_strlit("toggle_log");
    assert("quit"@.len() == 4 && "toggle_log"@.len() == 10);
    assert("quit"@ != "toggle_log"@);
    reveal_strlit("toggle_passthrough");
    assert("quit"@.len() == 4 && "toggle_passthrough"@.len() == 18);
    assert("quit"@ != "toggle_passthrough"@);
    reveal_strlit("screenshot_open");
    assert("quit"@.len() == 4 && "screenshot_open"@.len() == 15);
    assert("quit"@ != "screenshot_open"@);
}

proof fn lemma_resolves_ctrl_w_prefix(ctx: DispatchCtx)
    ensures
        registry_action("ctrl_w_prefix"@, ctx) == Some(Action::CtrlWPrefix),
{
    reveal_strlit("ctrl_w_prefix");
    reveal_strlit("paste");
    assert("ctrl_w_prefix"@.len() == 13 && "paste"@.len() == 5);
    assert("ctrl_w_prefix"@ != "paste"@);
    reveal_strlit("copy");
    assert("ctrl_w_prefix"@.len() == 13 && "copy"@.len() == 4);
    assert("ctrl_w_prefix"@ != "copy"@);
    reveal_strlit("new_tab");
    assert("ctrl_w_prefix"@.len() == 13 && "new_tab"@.len() == 7);
    assert("ctrl_w_prefix"@ != "new_tab"@);
    reveal_strlit("close_tab");
    assert("ctrl_w_prefix"@.len() == 13 && "close_tab"@.len() == 9);
    assert("ctrl_w_prefix"@ != "close_tab"@);
    reveal_strlit("next_tab");
    assert("ctrl_w_prefix"@.len() == 13 && "next_tab"@.len() == 8);
    assert("ctrl_w_prefix"@ != "next_tab"@);
    reveal_strlit("prev_tab");
    assert("ctrl_w_prefix"@.len() == 13 && "prev_tab"@.len() == 8);
    assert("ctrl_w_prefix"@ != "prev_tab"@);
    reveal_strlit("move_tab_left");
    assert("ctrl_w_prefix"@[0] == 'c' && "move_tab_left"@[0] == 'm');
    assert("ctrl_w_prefix"@ != "move_tab_left"@);
    reveal_strlit("move_tab_right");
    assert("ctrl_w_prefix"@.len() == 13 && "move_tab_right"@.len() == 14);
    assert("ctrl_w_prefix"@ != "move_tab_right"@);
    reveal_strlit("rename_tab");
    assert("ctrl_w_prefix"@.len() == 13 && "rename_tab"@.len() == 10);
    assert("ctrl_w_prefix"@ != "rename_tab"@);
    reveal_strlit("go_to_tab_1");
    assert("ctrl_w_prefix"@.len() == 13 && "go_to_tab_1"@.len() == 11);
    assert("ctrl_w_prefix"@ != "go_to_tab_1"@);
    reveal_strlit("go_to_tab_2");
    assert("ctrl_w_prefix"@.len() == 13 && "go_to_tab_2"@.len() == 11);
    assert("ctrl_w_prefix"@ != "go_to_tab_2"@);
    reveal_strlit("go_to_tab_3");
    assert("ctrl_w_prefix"@.len() == 13 && "go_to_tab_3"@.len() == 11);
    assert("ctrl_w_prefix"@ != "go_to_tab_3"@);
    reveal_strlit("go_to_tab_4");
    assert("ctrl_w_prefix"@.len() == 13 && "go_to_tab_4"@.len() == 11);
    assert("ctrl_w_prefix"@ != "go_to_tab_4"@);
    reveal_strlit("go_to_tab_5");
    assert("ctrl_w_prefix"@.len() == 13 && "go_to_tab_5"@.len() == 11);
    assert("ctrl_w_prefix"@ != "go_to_tab_5"@);
    reveal_strlit("go_to_tab_6");
    assert("ctrl_w_prefix"@.len() == 13 && "go_to_tab_6"@.len() == 11);
    assert("ctrl_w_prefix"@ != "go_to_tab_6"@);
    reveal_strlit("go_to_tab_7");
    assert("ctrl_w_prefix"@.len() == 13 && "go_to_tab_7"@.len() == 11);
    assert("ctrl_w_prefix"@ != "go_to_tab_7"@);
    reveal_strlit("go_to_tab_8");
    assert("ctrl_w_prefix"@.len() == 13 && "go_to_tab_8"@.len() == 11);
    assert("ctrl_w_prefix"@ != "go_to_tab_8"@);
    reveal_strlit("go_to_tab_9");
    assert("ctrl_w_prefix"@.len() == 13 && "go_to_tab_9"@.len() == 11);
    assert("ctrl_w_prefix"@ != "go_to_tab_9"@);
    reveal_strlit("split_horizontal");
    assert("ctrl_w_prefix"@.len() == 13 && "split_horizontal"@.len() == 16);
    assert("ctrl_w_prefix"@ != "split_horizontal"@);
    reveal_strlit("split_vertical");
    assert("ctrl_w_prefix"@.len() == 13 && "split_vertical"@.len() == 14);
    assert("ctrl_w_prefix"@ != "split_vertical"@);
    reveal_strlit("auto_split");
    assert("ctrl_w_prefix"@.len() == 13 && "auto_split"@.len() == 10);
    assert("ctrl_w_prefix"@ != "auto_split"@);
    reveal_strlit("close_pane");
    assert("ctrl_w_prefix"@.len() == 13 && "close_pane"@.len() == 10);
    assert("ctrl_w_prefix"@ != "close_pane"@);
    reveal_strlit("focus_left");
    assert("ctrl_w_prefix"@.len() == 13 && "focus_left"@.len() == 10);
    assert("ctrl_w_prefix"@ != "focus_left"@);
    reveal_strlit("focus_right");
    assert("ctrl_w_prefix"@.len() == 13 && "focus_right"@.len() == 11);
    assert("ctrl_w_prefix"@ != "focus_right"@);
    reveal_strlit("focus_up");
    assert("ctrl_w_prefix"@.len() == 13 && "focus_up"@.len() == 8);
    assert("ctrl_w_prefix"@ != "focus_up"@);
    reveal_strlit("focus_down");
    assert("ctrl_w_prefix"@.len() == 13 && "focus_down"@.len() == 10);
    assert("ctrl_w_prefix"@ != "focus_down"@);
    reveal_strlit("focus_next");
    assert("ctrl_w_prefix"@.len() == 13 && "focus_next"@.len() == 10);
    assert("ctrl_w_prefix"@ != "focus_next"@);
    reveal_strlit("zoom_pane");
    assert("ctrl_w_prefix"@.len() == 13 && "zoom_pane"@.len() == 9);
    assert("ctrl_w_prefix"@ != "zoom_pane"@);
    reveal_strlit("rotate_panes_forward");
    assert("ctrl_w_prefix"@.len() == 13 && "rotate_panes_forward"@.len() == 20);
    assert("ctrl_w_prefix"@ != "rotate_panes_forward"@);
    reveal_strlit("rotate_panes_backward");
    assert("ctrl_w_prefix"@.len() == 13 && "rotate_panes_backward"@.len() == 21);
    assert("ctrl_w_prefix"@ != "rotate_panes_backward"@);
    reveal_strlit("resize_pane_right");
    assert("ctrl_w_prefix"@.len() == 13 && "resize_pane_right"@.len() == 17);
    assert("ctrl_w_prefix"@ != "resize_pane_right"@);
    reveal_strlit("resize_pane_left");
    assert("ctrl_w_prefix"@.len() == 13 && "resize_pane_left"@.len() == 16);
    assert("ctrl_w_prefix"@ != "resize_pane_left"@);
    reveal_strlit("resize_pane_down");
    assert("ctrl_w_prefix"@.len() == 13 && "resize_pane_down"@.len() == 16);
    assert("ctrl_w_prefix"@ != "resize_pane_down"@);
    reveal_strlit("resize_pane_up");
    assert("ctrl_w_prefix"@.len() == 13 && "resize_pane_up"@.len() == 14);
    assert("ctrl_w_prefix"@ != "resize_pane_up"@);
    reveal_strlit("scroll_page_up");
    assert("ctrl_w_prefix"@.len() == 13 && "scroll_page_up"@.len() == 14);
    assert("ctrl_w_prefix"@ != "scroll_page_up"@);
    reveal_strlit("scroll_page_down");
    assert("ctrl_w_prefix"@.len() == 13 && "scroll_page_down"@.len() == 16);
    assert("ctrl_w_prefix"@ != "scroll_page_down"@);
    reveal_strlit("scroll_to_top");
    assert("ctrl_w_prefix"@[0] == 'c' && "scroll_to_top"@[0] == 's');
    assert("ctrl_w_prefix"@ != "scroll_to_top"@);
    reveal_strlit("scroll_to_bottom");
    assert("ctrl_w_prefix"@.len() == 13 && "scroll_to_bottom"@.len() == 16);
    assert("ctrl_w_prefix"@ != "scroll_to_bottom"@);
    reveal_strlit("clear_scrollback");
    assert("ctrl_w_prefix"@.len() == 13 && "clear_scrollback"@.len() == 16);
    assert("ctrl_w_prefix"@ != "clear_scrollback"@);
    reveal_strlit("search_open");
    assert("ctrl_w_prefix"@.len() == 13 && "search_open"@.len() == 11);
    assert("ctrl_w_prefix"@ != "search_open"@);
    reveal_strlit("search_next");
    assert("ctrl_w_prefix"@.len() == 13 && "search_next"@.len() == 11);
    assert("ctrl_w_prefix"@ != "search_next"@);
    reveal_strlit("search_prev");
    assert("ctrl_w_prefix"@.len() == 13 && "search_prev"@.len() == 11);
    assert("ctrl_w_prefix"@ != "search_prev"@);
    reveal_strlit("increase_font_size");
    assert("ctrl_w_prefix"@.len() == 13 && "increase_font_size"@.len() == 18);
    assert("ctrl_w_prefix"@ != "increase_font_size"@);
    reveal_strlit("decrease_font_size");
    assert("ctrl_w_prefix"@.len() == 13 && "decrease_font_size"@.len() == 18);
    assert("ctrl_w_prefix"@ != "decrease_font_size"@);
    reveal_strlit("reset_font_size");
    assert("ctrl_w_prefix"@.len() == 13 && "reset_font_size"@.len() == 15);
    assert("ctrl_w_prefix"@ != "reset_font_size"@);
    reveal_strlit("open_config");
    assert("ctrl_w_prefix"@.len() == 13 && "open_config"@.len() == 11);
    assert("ctrl_w_prefix"@ != "open_config"@);
    reveal_strlit("open_command_palette");
    assert("ctrl_w_prefix"@.len() == 13 && "open_command_palette"@.len() == 20);
    assert("ctrl_w_prefix"@ != "open_command_palette"@);
    reveal_strlit("toggle_fullscreen");
    assert("ctrl_w_prefix"@.len() == 13 && "toggle_fullscreen"@.len() == 17);
    assert("ctrl_w_prefix"@ != "toggle_fullscreen"@);
    reveal_strlit("toggle_log");
    assert("ctrl_w_prefix"@.len() == 13 && "toggle_log"@.len() == 10);
    assert("ctrl_w_prefix"@ != "toggle_log"@);
    reveal_strlit("toggle_passthrough");
    assert("ctrl_w_prefix"@.len() == 13 && "toggle_passthrough"@.len() == 18);
    assert("ctrl_w_prefix"@ != "toggle_passthrough"@);
    reveal_strlit("screenshot_open");
    assert("ctrl_w_prefix"@.len() == 13 && "screenshot_open"@.len() == 15);
    assert("ctrl_w_prefix"@ != "screenshot_open"@);
    reveal_strlit("quit");
    assert("ctrl_w_prefix"@.len() == 13 && "quit"@.len() == 4);
    assert("ctrl_w_prefix"@ != "quit"@);
    reveal_strlit("cycle_mode");
    assert("ctrl_w_prefix"@.len() == 13 && "cycle_mode"@.len() == 10);
    assert("ctrl_w_prefix"@ != "cycle_mode"@);
    reveal_strlit("enter_normal_mode");
    assert("ctrl_w_prefix"@.len() == 13 && "enter_normal_mode"@.len() == 17);
    assert("ctrl_w_prefix"@ != "enter_normal_mode"@);
}


} // verus!
