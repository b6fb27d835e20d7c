use mmterm::mode::InputMode;
use mmterm::visual::{
    adjust_visual_scroll_down, adjust_visual_scroll_up, screenshot_capture, screenshot_edge_resize, screenshot_move,
    set_mode, set_visual_anchor, swap_visual_anchor, visual_boundary_scroll_down, visual_boundary_scroll_up, visual_start_pos,
};

fn visual(sc: usize, sr: usize, cc: usize, cr: usize, anchored: bool) -> InputMode {
    InputMode::Visual { start_col: sc, start_row: sr, cur_col: cc, cur_row: cr, anchored }
}

fn fields(m: &InputMode) -> (usize, usize, usize, usize, bool) {
    match m {
        InputMode::Visual { start_col, start_row, cur_col, cur_row, anchored } => {
            (*start_col, *start_row, *cur_col, *cur_row, *anchored)
        }
        _ => panic!("not visual"),
    }
}

fn region(m: &InputMode) -> (u32, u32, u32, u32) {
    match m {
        InputMode::Screenshot { cx, cy, half_w, half_h } => (*cx, *cy, *half_w, *half_h),
        _ => panic!("not a screenshot region"),
    }
}

#[test]
fn visual_starts_at_cursor_or_origin() {
    assert_eq!(visual_start_pos(0, 4, 7), (4, 7));
    assert_eq!(visual_start_pos(3, 4, 7), (0, 0));
}

#[test]
fn scrolling_moves_anchor_and_cursor() {
    let mut m = visual(1, 2, 3, 4, true);
    adjust_visual_scroll_up(&mut m, 3, 24);
    assert_eq!(fields(&m), (1, 5, 3, 7, true));
    adjust_visual_scroll_down(&mut m, 3);
    assert_eq!(fields(&m), (1, 2, 3, 4, true));
    adjust_visual_scroll_up(&mut m, 30, 24);
    assert_eq!(fields(&m), (1, 32, 3, 23, true));
    adjust_visual_scroll_down(&mut m, 100);
    assert_eq!(fields(&m), (1, 0, 3, 0, true));
    let mut n = InputMode::Normal;
    adjust_visual_scroll_up(&mut n, 3, 24);
    assert!(matches!(n, InputMode::Normal));
}

#[test]
fn anchor_swap_and_set() {
    let mut m = visual(1, 2, 3, 4, false);
    swap_visual_anchor(&mut m, 24);
    assert_eq!(fields(&m), (3, 4, 1, 2, false));
    swap_visual_anchor(&mut m, 24);
    assert_eq!(fields(&m), (1, 2, 3, 4, false));
    let mut far = visual(0, 40, 0, 1, false);
    swap_visual_anchor(&mut far, 24);
    assert_eq!(fields(&far), (0, 1, 0, 23, false));
    set_visual_anchor(&mut m);
    assert_eq!(fields(&m), (3, 4, 3, 4, true));
}

#[test]
fn boundary_scrolls_pin_the_cursor() {
    let mut m = visual(1, 2, 3, 0, true);
    visual_boundary_scroll_up(&mut m, 2);
    assert_eq!(fields(&m), (1, 4, 3, 0, true));
    visual_boundary_scroll_down(&mut m, 10, 24);
    assert_eq!(fields(&m), (1, 0, 3, 23, true));
}

#[test]
fn screenshot_region_moves_and_resizes() {
    let mut m = InputMode::Screenshot { cx: 400, cy: 300, half_w: 100, half_h: 100 };
    screenshot_move(&mut m, -500, 20);
    assert_eq!(region(&m), (0, 320, 100, 100));
    let mut m = InputMode::Screenshot { cx: 400, cy: 300, half_w: 100, half_h: 100 };
    screenshot_edge_resize(&mut m, 1, -1);
    assert_eq!(region(&m), (410, 290, 110, 90));
    screenshot_edge_resize(&mut m, -100, -100);
    assert_eq!(region(&m), (320, 220, 20, 20));
    assert!(screenshot_capture(&mut m));
    assert!(matches!(m, InputMode::ScreenshotName { cx: 320, cy: 220, half_w: 20, half_h: 20, ref name } if name.is_empty()));
    let mut n = InputMode::Insert;
    assert!(!screenshot_capture(&mut n));
}

#[test]
fn entering_visual_mode_starts_at_the_given_position() {
    let m = set_mode(&InputMode::Insert, visual(9, 9, 9, 9, true), (3, 4));
    assert_eq!(fields(&m), (3, 4, 3, 4, false));
    let m = set_mode(&visual(1, 1, 1, 1, false), visual(9, 9, 8, 8, true), (3, 4));
    assert_eq!(fields(&m), (9, 9, 8, 8, true));
    assert!(matches!(set_mode(&visual(1, 1, 1, 1, false), InputMode::Normal, (0, 0)), InputMode::Normal));
}
