use mmterm::app_event::{forward_click_to_pty, palette_move_selection};

#[test]
fn click_is_forwarded_when_application_enabled_mouse_reporting() {
    assert!(forward_click_to_pty(1000, 0, false));
    assert!(forward_click_to_pty(1002, 1, false));
    assert!(forward_click_to_pty(1006, 2, false));
}

#[test]
fn click_is_handled_locally_without_mouse_reporting() {
    assert!(!forward_click_to_pty(0, 0, false));
}

#[test]
fn shift_click_bypasses_mouse_reporting() {
    assert!(!forward_click_to_pty(1000, 0, true));
    assert!(!forward_click_to_pty(1002, 1, true));
    assert!(!forward_click_to_pty(1006, 2, true));
}

#[test]
fn buttons_beyond_right_are_never_forwarded() {
    assert!(!forward_click_to_pty(1000, 3, false));
    assert!(!forward_click_to_pty(1000, 3, true));
}

#[test]
fn palette_selection_moves_within_the_list() {
    assert_eq!(palette_move_selection(0, 0, false), 0);
    assert_eq!(palette_move_selection(3, 0, true), 0);
    assert_eq!(palette_move_selection(0, 5, true), 0);
    assert_eq!(palette_move_selection(2, 5, true), 1);
    assert_eq!(palette_move_selection(2, 5, false), 3);
    assert_eq!(palette_move_selection(4, 5, false), 4);
    assert_eq!(palette_move_selection(9, 5, false), 4);
}
