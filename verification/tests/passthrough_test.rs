use mmterm::action::Action;
use mmterm::keybindings::{handle_key_passthrough, KeyEvent};
use mmterm::keymap::Mods;
use mmterm::keys::{Key, NamedKey};

fn press(k: Key) -> KeyEvent {
    KeyEvent { pressed: true, logical_key: k }
}

fn no_mods() -> Mods {
    Mods { ctrl: false, shift: false, alt: false, cmd: false }
}

#[test]
fn passthrough_sends_text_and_keys_raw() {
    let a = handle_key_passthrough(&press(Key::Character("q".to_string())), &no_mods(), false);
    assert!(matches!(a, Action::SendToPty(ref b) if b == b"q"));
    let a = handle_key_passthrough(&press(Key::Named(NamedKey::Escape)), &no_mods(), false);
    assert!(matches!(a, Action::SendToPty(ref b) if b == b"\x1b"));
    let a = handle_key_passthrough(&press(Key::Named(NamedKey::ArrowUp)), &no_mods(), true);
    assert!(matches!(a, Action::SendToPty(ref b) if b == b"\x1bOA"));
}

#[test]
fn passthrough_ignores_release() {
    let ev = KeyEvent { pressed: false, logical_key: Key::Character("a".to_string()) };
    assert!(matches!(handle_key_passthrough(&ev, &no_mods(), false), Action::Nothing));
}

#[test]
fn passthrough_sends_ctrl_keys_as_control_bytes() {
    let mods = Mods { ctrl: true, shift: false, alt: false, cmd: false };
    let a = handle_key_passthrough(&press(Key::Character("c".to_string())), &mods, false);
    assert!(matches!(a, Action::SendToPty(ref b) if b == &[3u8]));
}
