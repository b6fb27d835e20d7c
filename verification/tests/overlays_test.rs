use mmterm::overlays::{badge_pixel, collapse_indicator, hint_text_y, palette_count_text, palette_query_text, palette_window, config_panel_layout};

#[test]
fn hint_text_y_places_below_rect_when_room() {
    let y = hint_text_y(100, 200, 20, 400);
    assert_eq!(y, 204);
}

#[test]
fn hint_text_y_places_above_rect_when_below_clips() {
    let y = hint_text_y(50, 380, 20, 400);
    assert_eq!(y, 26);
}

#[test]
fn hint_text_y_fallback_when_neither_above_nor_below_fits() {
    let y = hint_text_y(5, 390, 20, 400);
    assert_eq!(y, 376);
}

#[test]
fn collapse_indicator_collapsed_returns_plus() {
    assert_eq!(collapse_indicator(true), "[+]");
}

#[test]
fn collapse_indicator_expanded_returns_minus() {
    assert_eq!(collapse_indicator(false), "[-]");
}

#[test]
fn hint_text_y_on_a_tiny_screen_is_zero() {
    assert_eq!(hint_text_y(5, 10, 20, 12), 0);
}

#[test]
fn badge_pixel_stays_on_screen() {
    let mut buf = vec![0u32; 6];
    badge_pixel(&mut buf, 3, 2, 2, 1, 8);
    badge_pixel(&mut buf, 3, 2, 3, 0, 9);
    badge_pixel(&mut buf, 3, 2, 0, 2, 9);
    assert_eq!(buf, vec![0, 0, 0, 0, 0, 8]);
}

#[test]
fn palette_window_starts_at_top() {
    assert_eq!(palette_window(32, 0), (0, 10));
    assert_eq!(palette_window(32, 9), (0, 10));
    assert_eq!(palette_window(4, 2), (0, 4));
    assert_eq!(palette_window(0, 0), (0, 0));
}

#[test]
fn palette_window_slides_with_selection() {
    assert_eq!(palette_window(32, 10), (1, 11));
    assert_eq!(palette_window(32, 31), (22, 32));
    assert_eq!(palette_window(12, 11), (2, 12));
}

#[test]
fn palette_window_past_the_list_is_empty() {
    assert_eq!(palette_window(3, 20), (11, 11));
}

#[test]
fn palette_texts() {
    assert_eq!(palette_query_text("sp"), "> sp_");
    assert_eq!(palette_query_text(""), "> _");
    assert_eq!(palette_count_text(3, 32), "3/32");
}

#[test]
fn config_panel_layout_fits_rows_and_centres() {
    // 600 high, rows of 20, status bar 22: (600 - 102) / 20 = 24 rows.
    let l = config_panel_layout(600, 20, 22, &[0, 1, 2, 5, 6], 5);
    assert_eq!(l.max_visible, 24);
    assert_eq!(l.panel_h, 20 * 28);
    assert_eq!(l.py, 20);
    assert_eq!(l.sel_pos, 3);
    assert_eq!(l.scroll_start, 0);
}

#[test]
fn config_panel_layout_keeps_at_least_four_rows_and_scrolls() {
    let vis: Vec<usize> = (0..40).collect();
    let l = config_panel_layout(100, 20, 22, &vis, 30);
    assert_eq!(l.max_visible, 4);
    assert_eq!(l.panel_h, 160);
    assert_eq!(l.py, 0);
    assert_eq!(l.sel_pos, 30);
    assert_eq!(l.scroll_start, 27);
    // A hidden selection counts as the first row.
    let h = config_panel_layout(600, 20, 22, &[1, 2], 9);
    assert_eq!((h.sel_pos, h.scroll_start), (0, 0));
}
