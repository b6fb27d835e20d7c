use mmterm::command_palette::{entry_code, filter};
use mmterm::keys::{Key, NamedKey};
use mmterm::mode::InputMode;
use mmterm::overlay_keys::{command_palette_key, rename_key, screenshot_name_key, search_key, SearchKeyOutcome};

fn ch(s: &str) -> Key {
    Key::Character(s.to_string())
}

fn palette(q: &str, sel: usize) -> InputMode {
    InputMode::CommandPalette { query: q.to_string(), selected: sel }
}

#[test]
fn palette_typing_filters_and_resets_selection() {
    let r = command_palette_key(&palette("ta", 3), &ch("b"));
    assert!(matches!(r.mode, InputMode::CommandPalette { ref query, selected: 0 } if query == "tab"));
    assert!(r.run.is_none());
    let r = command_palette_key(&palette("tab", 2), &Key::Named(NamedKey::Backspace));
    assert!(matches!(r.mode, InputMode::CommandPalette { ref query, selected: 0 } if query == "ta"));
    let r = command_palette_key(&palette("", 0), &Key::Named(NamedKey::Backspace));
    assert!(matches!(r.mode, InputMode::CommandPalette { ref query, selected: 0 } if query.is_empty()));
}

#[test]
fn palette_selection_moves_and_enter_runs_it() {
    let n = filter("tab").len();
    assert!(n >= 3);
    let r = command_palette_key(&palette("tab", 0), &Key::Named(NamedKey::ArrowDown));
    assert!(matches!(r.mode, InputMode::CommandPalette { selected: 1, .. }));
    let r = command_palette_key(&palette("tab", n - 1), &Key::Named(NamedKey::ArrowDown));
    assert!(matches!(r.mode, InputMode::CommandPalette { selected, .. } if selected == n - 1));
    let r = command_palette_key(&palette("tab", 0), &Key::Named(NamedKey::ArrowUp));
    assert!(matches!(r.mode, InputMode::CommandPalette { selected: 0, .. }));
    let r = command_palette_key(&palette("New Tab", 0), &Key::Named(NamedKey::Enter));
    assert!(matches!(r.mode, InputMode::Insert));
    assert_eq!(entry_code(r.run.unwrap()), "NewTab");
    let r = command_palette_key(&palette("xyznotexist", 0), &Key::Named(NamedKey::Enter));
    assert!(matches!(r.mode, InputMode::Insert));
    assert!(r.run.is_none());
    let r = command_palette_key(&palette("tab", 1), &Key::Named(NamedKey::Escape));
    assert!(matches!(r.mode, InputMode::Insert));
    let r = command_palette_key(&InputMode::Normal, &ch("x"));
    assert!(matches!(r.mode, InputMode::Normal));
}

#[test]
fn rename_field_edits_and_commits_trimmed_name() {
    let m = InputMode::RenameTab { buf: "  work ".to_string() };
    let r = rename_key(&m, &Key::Named(NamedKey::Enter));
    assert!(matches!(r.mode, InputMode::Insert));
    assert_eq!(r.rename, Some(Some("work".to_string())));
    let r = rename_key(&InputMode::RenameTab { buf: "   ".to_string() }, &Key::Named(NamedKey::Enter));
    assert_eq!(r.rename, Some(None));
    let r = rename_key(&m, &ch("x"));
    assert!(matches!(r.mode, InputMode::RenameTab { ref buf } if buf == "  work x"));
    assert!(r.rename.is_none());
    let r = rename_key(&m, &Key::Named(NamedKey::Escape));
    assert!(matches!(r.mode, InputMode::Insert));
    assert!(r.rename.is_none());
}

#[test]
fn screenshot_name_enter_crops_to_screen() {
    let m = InputMode::ScreenshotName { cx: 700, cy: 50, half_w: 200, half_h: 100, name: " shot ".to_string() };
    let r = screenshot_name_key(&m, &Key::Named(NamedKey::Enter), 800, 600);
    assert!(matches!(r.mode, InputMode::Insert));
    let (crop, name) = r.save.unwrap();
    assert_eq!(crop, [500, 0, 300, 200]);
    assert_eq!(name, "shot");
    let r = screenshot_name_key(&m, &Key::Named(NamedKey::Backspace), 800, 600);
    assert!(matches!(r.mode, InputMode::ScreenshotName { ref name, cx: 700, .. } if name == " shot"));
    assert!(r.save.is_none());
}

fn search_mode(q: &str) -> InputMode {
    InputMode::Search { query: q.to_string(), history_pos: None }
}

#[test]
fn search_key_escape_exits() {
    assert!(matches!(search_key(&search_mode("foo"), &Key::Named(NamedKey::Escape), 3, 0), SearchKeyOutcome::Exit));
}

#[test]
fn search_key_enter_goes_to_next_match_wrapping() {
    assert!(matches!(search_key(&search_mode("foo"), &Key::Named(NamedKey::Enter), 3, 0), SearchKeyOutcome::JumpTo(1)));
    assert!(matches!(search_key(&search_mode("foo"), &Key::Named(NamedKey::Enter), 3, 2), SearchKeyOutcome::JumpTo(0)));
    assert!(matches!(search_key(&search_mode("foo"), &Key::Named(NamedKey::Enter), 0, 0), SearchKeyOutcome::Ignore));
}

#[test]
fn search_key_edits_query() {
    match search_key(&search_mode("foo"), &Key::Named(NamedKey::Backspace), 3, 0) {
        SearchKeyOutcome::Requery(q) => assert_eq!(q, "fo"),
        _ => panic!("expected a new query"),
    }
    match search_key(&search_mode("fo"), &Key::Character("x".to_string()), 0, 0) {
        SearchKeyOutcome::Requery(q) => assert_eq!(q, "fox"),
        _ => panic!("expected a new query"),
    }
    match search_key(&search_mode(""), &Key::Named(NamedKey::Backspace), 0, 0) {
        SearchKeyOutcome::Requery(q) => assert_eq!(q, ""),
        _ => panic!("expected a new query"),
    }
}

#[test]
fn search_key_c_and_ctrl_c_copy() {
    assert!(matches!(search_key(&search_mode("foo"), &Key::Character("c".to_string()), 1, 0), SearchKeyOutcome::CopyMatch));
    assert!(matches!(search_key(&search_mode("foo"), &Key::Character("\x03".to_string()), 1, 0), SearchKeyOutcome::CopyMatch));
    assert!(matches!(search_key(&search_mode("foo"), &Key::Character("cc".to_string()), 1, 0), SearchKeyOutcome::Requery(_)));
}

#[test]
fn search_key_outside_search_is_ignored() {
    assert!(matches!(search_key(&InputMode::Normal, &Key::Named(NamedKey::Escape), 1, 0), SearchKeyOutcome::Ignore));
    assert!(matches!(search_key(&search_mode("a"), &Key::Named(NamedKey::Tab), 1, 0), SearchKeyOutcome::Ignore));
}
