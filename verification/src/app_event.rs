//! Decisions taken on window events before anything is drawn or sent.
use vstd::prelude::*;

verus! {

/// The command-palette selection after one step up or down in a list of
/// `filtered_len` entries: clamped to the list, the first entry for an
/// empty list.
pub fn palette_move_selection(selected: usize, filtered_len: usize, up: bool) -> (r: usize)
    requires
        !up && filtered_len > 0 ==> selected < usize::MAX,
    ensures
        r == if filtered_len == 0 {
            0
        } else if up {
            if selected > 0 { selected - 1 } else { 0 }
        } else if selected + 1 < filtered_len - 1 {
            selected + 1
        } else {
            filtered_len - 1
        },
{
    if filtered_len == 0 {
        0
    } else if up {
        selected.saturating_sub(1)
    } else {
        let next = selected + 1;
        if next < filtered_len - 1 { next } else { filtered_len - 1 }
    }
}

/// Whether a click goes to the program in the terminal: only while it has
/// enabled mouse reporting (`mouse_mode` non-zero), only for the left,
/// middle and right buttons (0 to 2), and never with Shift held, which
/// keeps the terminal's own selection and link handling reachable.
pub fn forward_click_to_pty(mouse_mode: u16, button: u8, shift: bool) -> (r: bool)
    ensures
        r == (mouse_mode != 0 && button < 3 && !shift),
{
    mouse_mode != 0 && button < 3 && !shift
}

} // verus!
