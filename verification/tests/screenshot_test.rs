use mmterm::render::{blit_pixel, is_cell_cursor, CellSize, PaneView};
use mmterm::draw::CursorShape;
use mmterm::grid::{Color, Grid, GridColors};
use mmterm::mode::InputMode;
use mmterm::screenshot::{crop_rgb, pixel_to_rgb, sanitize_screenshot_name, screenshot_file_name};
use mmterm::views::search_args;
use mmterm::glyph::GlyphKey;

#[test]
fn pixel_bytes_are_split_out() {
    assert_eq!(pixel_to_rgb(0xff_12_34_56), [0x12, 0x34, 0x56]);
    assert_eq!(pixel_to_rgb(0), [0, 0, 0]);
}

#[test]
fn screenshot_names_are_cleaned() {
    assert_eq!(sanitize_screenshot_name("a/b\\c:d*e?f\"g<h>i|j k"), "a-b-c-d-e-f-g-h-i-j-k");
    assert_eq!(sanitize_screenshot_name("plain-name_1"), "plain-name_1");
    assert_eq!(sanitize_screenshot_name("été"), "été");
}

#[test]
fn search_arguments_only_for_the_active_searching_pane() {
    let m = vec![(1, 2, 3)];
    let (a, c) = search_args(true, true, &m, 0);
    assert_eq!(a, &m[..]);
    assert_eq!(c, Some(0));
    let (a, c) = search_args(false, true, &m, 0);
    assert!(a.is_empty());
    assert_eq!(c, None);
}

#[test]
fn cursor_and_pixel_placement() {
    let mut g = Grid::with_colors(
        4,
        2,
        GridColors { fg: Color::white(), bg: Color::black(), cursor: Color::cursor(), selection: Color::selection(), palette: [Color::black(); 16] },
        10,
    );
    g.cursor_col = 2;
    g.cursor_row = 1;
    let pane = PaneView {
        grid: &g,
        rect: [0, 0, 40, 20],
        scroll_offset: 0,
        is_active: true,
        show_cursor: true,
        blink_visible: true,
        search_matches: &[],
        search_current: None,
        hovered_url: None,
        cursor_shape: CursorShape::Block,
    };
    assert!(is_cell_cursor(&pane, &InputMode::Insert, 2, 1, &g));
    assert!(!is_cell_cursor(&pane, &InputMode::Insert, 1, 1, &g));
    let v = InputMode::Visual { start_col: 0, start_row: 0, cur_col: 1, cur_row: 0, anchored: false };
    assert!(is_cell_cursor(&pane, &v, 1, 0, &g));
    assert!(!is_cell_cursor(&pane, &v, 2, 1, &g));
    let mut buf = vec![0u32; 8];
    blit_pixel(&mut buf, 4, 1, 1, [0, 0, 2, 2], 5);
    blit_pixel(&mut buf, 4, 2, 1, [0, 0, 2, 2], 6);
    assert_eq!(buf, vec![0, 0, 0, 0, 0, 5, 0, 0]);
    let cs = CellSize { cell_width: 8, cell_height: 16 };
    assert_eq!(cs.grid_size_for(800, 600), (100, 37));
    assert_eq!(cs.grid_size_for(1, 1), (1, 1));
    let k = GlyphKey { c: 'a', px: 16, bold: false, italic: true };
    assert_eq!(k, GlyphKey { c: 'a', px: 16, bold: false, italic: true });
}

#[test]
fn screenshot_file_name_uses_custom_name() {
    assert_eq!(screenshot_file_name("screenshot-evidence", "20240102T030405"), "screenshot-evidence.png");
}

#[test]
fn screenshot_file_name_sanitizes_name() {
    assert_eq!(screenshot_file_name("my shot/bad:name", "20240102T030405"), "my-shot-bad-name.png");
}

#[test]
fn screenshot_file_name_trims_surrounding_whitespace() {
    assert_eq!(screenshot_file_name("  shot one \t", "20240102T030405"), "shot-one.png");
}

#[test]
fn screenshot_file_name_blank_falls_back_to_timestamp() {
    assert_eq!(screenshot_file_name("", "20240102T030405"), "mmterm-20240102T030405.png");
    assert_eq!(screenshot_file_name("   ", "20240102T030405"), "mmterm-20240102T030405.png");
    assert_eq!(screenshot_file_name("\n\t ", "X"), "mmterm-X.png");
}

#[test]
fn crop_rgb_reads_rows_of_the_crop() {
    // A 3x2 buffer; crop the right two columns of both rows.
    let buf = [0x00_010203u32, 0x00_040506, 0x00_070809, 0xFF_0A0B0C, 0xFF_0D0E0F, 0xFF_101112];
    let rgb = crop_rgb(&buf, 3, 1, 0, 2, 2);
    assert_eq!(rgb, vec![4, 5, 6, 7, 8, 9, 13, 14, 15, 16, 17, 18]);
}

#[test]
fn crop_rgb_past_the_buffer_is_black() {
    let buf = [0x00_FFFFFFu32];
    assert_eq!(crop_rgb(&buf, 1, 0, 0, 2, 1), vec![255, 255, 255, 0, 0, 0]);
    assert!(crop_rgb(&buf, 1, 0, 0, 0, 5).is_empty());
    assert!(crop_rgb(&buf, 1, 0, 0, 5, 0).is_empty());
}
