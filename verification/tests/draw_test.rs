use mmterm::draw::{
    color_u32, cell_out_of_pane_bounds, dim_buffer, draw_clipped_hline, draw_clipped_vline, draw_rect_border,
    fill_pane_background, fill_rect, get_cell, is_cell_selected, mode_style, resolve_bg_color, resolve_cell_colors,
    search_highlight, should_draw_glyph, write_pixel, CursorShape, ResolvedTheme,
};
use mmterm::grid::{make_plain_cell, Color, Grid, GridColors};
use mmterm::mode::InputMode;

fn default_colors() -> GridColors {
    GridColors {
        fg: Color::white(),
        bg: Color::black(),
        cursor: Color::rgb(0, 128, 255),
        selection: Color::rgb(64, 64, 128),
        palette: [Color::black(); 16],
    }
}

fn theme() -> ResolvedTheme {
    let mut palette = [Color::black(); 16];
    for (i, p) in palette.iter_mut().enumerate() {
        *p = Color::rgb(i as u8, 0, 0);
    }
    ResolvedTheme {
        palette,
        search_match: Color::rgb(1, 2, 3),
        search_current: Color::rgb(4, 5, 6),
        scrollbar: Color::rgb(7, 8, 9),
    }
}

#[test]
fn color_u32_packs_rgb() {
    let c = Color::rgb(0x12, 0x34, 0x56);
    assert_eq!(color_u32(c), 0xFF_12_34_56);
}

#[test]
fn fill_rect_writes_color_in_bounds() {
    let mut buf = vec![0u32; 10 * 10];
    fill_rect(&mut buf, 10, 1, 1, 3, 3, 0xFF_FF_FF_FF);
    assert_eq!(buf[1 * 10 + 1], 0xFF_FF_FF_FF);
    assert_eq!(buf[3 * 10 + 3], 0xFF_FF_FF_FF);
    assert_eq!(buf[0], 0);
}

#[test]
fn get_cell_live_view_no_scroll() {
    let mut g = Grid::with_colors(4, 4, default_colors(), 100);
    g.cursor_col = 0;
    g.cursor_row = 0;
    g.write_char('A');
    let cell = get_cell(&g, 0, 0, 0);
    assert_eq!(cell.c, 'A');
}

#[test]
fn search_highlight_finds_match_on_row() {
    let matches = vec![(5, 2, 3)];
    let (in_m, is_cur) = search_highlight(&matches, Some(0), 5, 2, 0);
    assert!(in_m);
    assert!(is_cur);
}

#[test]
fn search_highlight_misses_different_row() {
    let matches = vec![(5, 2, 3)];
    let (in_m, _) = search_highlight(&matches, Some(0), 6, 2, 0);
    assert!(!in_m);
}

#[test]
fn is_cell_selected_inside_range() {
    assert!(is_cell_selected(Some((1, 0, 1, 5)), 1, 3));
}

#[test]
fn is_cell_selected_outside_range() {
    assert!(!is_cell_selected(Some((1, 0, 1, 5)), 1, 6));
}

#[test]
fn selection_is_symmetric_in_its_endpoints() {
    for col in 0..6 {
        for row in 0..6 {
            assert_eq!(is_cell_selected(Some((4, 1, 2, 3)), col, row), is_cell_selected(Some((2, 3, 4, 1)), col, row));
        }
    }
    assert!(is_cell_selected(Some((4, 1, 2, 3)), 4, 1));
    assert!(is_cell_selected(Some((4, 1, 2, 3)), 2, 3));
    assert!(!is_cell_selected(None, 0, 0));
}

#[test]
fn fill_rect_skips_pixels_past_the_buffer() {
    let mut buf = vec![0u32; 12];
    fill_rect(&mut buf, 4, 2, 2, 5, 5, 7);
    assert_eq!(buf, vec![0, 0, 0, 0, 0, 0, 0, 0, 0, 0, 7, 7]);
}

#[test]
fn fill_pane_background_paints_the_rect() {
    let mut buf = vec![0u32; 16];
    fill_pane_background(&mut buf, 4, [1, 1, 2, 2], 9);
    assert_eq!(buf, vec![0, 0, 0, 0, 0, 9, 9, 0, 0, 9, 9, 0, 0, 0, 0, 0]);
}

#[test]
fn dim_buffer_thirds_every_channel() {
    let mut buf = vec![0x00_90_60_30u32, 0xff_ff_ff_ff];
    dim_buffer(&mut buf);
    assert_eq!(buf, vec![0xff_30_20_10, 0xff_55_55_55]);
}

#[test]
fn write_pixel_ignores_out_of_range() {
    let mut buf = vec![0u32; 2];
    write_pixel(&mut buf, 1, 5);
    write_pixel(&mut buf, 2, 6);
    assert_eq!(buf, vec![0, 5]);
}

#[test]
fn draw_rect_border_draws_outline_only() {
    let mut buf = vec![0u32; 16];
    draw_rect_border(&mut buf, 4, 0, 0, 3, 3, 1);
    assert_eq!(buf, vec![1, 1, 1, 0, 1, 0, 1, 0, 1, 1, 1, 0, 0, 0, 0, 0]);
}

#[test]
fn clipped_lines_stop_at_the_clip() {
    let mut buf = vec![0u32; 16];
    draw_clipped_hline(&mut buf, 4, 1, 0, 4, [0, 0, 3, 4], 2);
    assert_eq!(&buf[4..8], &[2, 2, 2, 0]);
    let mut buf = vec![0u32; 16];
    draw_clipped_vline(&mut buf, 4, 1, 0, 4, [0, 1, 4, 2], 3);
    assert_eq!(buf, vec![0, 0, 0, 0, 0, 3, 0, 0, 0, 3, 0, 0, 0, 0, 0, 0]);
    let mut buf = vec![0u32; 16];
    draw_clipped_hline(&mut buf, 4, 3, 0, 4, [0, 0, 4, 2], 2);
    assert_eq!(buf, vec![0u32; 16]);
}

#[test]
fn bounds_and_glyph_decisions() {
    assert!(cell_out_of_pane_bounds(95, 0, 10, 10, 0, 0, 100, 100, 4));
    assert!(!cell_out_of_pane_bounds(80, 80, 10, 10, 0, 0, 100, 100, 4));
    let mut cell = make_plain_cell('a', Color::white(), Color::black());
    assert!(should_draw_glyph(&cell, false));
    cell.blink = true;
    assert!(!should_draw_glyph(&cell, false));
    assert!(should_draw_glyph(&cell, true));
    let space = make_plain_cell(' ', Color::white(), Color::black());
    assert!(!should_draw_glyph(&space, true));
}

#[test]
fn mode_labels_and_colours() {
    let t = theme();
    assert_eq!(mode_style(&InputMode::Normal, false, &t), ("NORMAL", 0xff_04_00_00));
    assert_eq!(mode_style(&InputMode::Insert, true, &t), ("INSERT PASS", 0xff_02_00_00));
    assert_eq!(mode_style(&InputMode::QuitSave, false, &t), ("INSERT", 0xff_02_00_00));
    assert_eq!(mode_style(&InputMode::CommandPalette { query: String::new(), selected: 0 }, false, &t).0, "PALETTE");
}

#[test]
fn cell_colour_priorities() {
    let t = theme();
    let cur = Color::rgb(0, 128, 255);
    let sel = Color::rgb(64, 64, 128);
    let bg = Color::rgb(9, 9, 9);
    assert_eq!(resolve_bg_color(true, CursorShape::Block, true, true, true, bg, cur, sel, &t), 0xff_00_80_ff);
    assert_eq!(resolve_bg_color(true, CursorShape::Bar, true, true, true, bg, cur, sel, &t), 0xff_40_40_80);
    assert_eq!(resolve_bg_color(false, CursorShape::Block, false, true, true, bg, cur, sel, &t), 0xff_04_05_06);
    assert_eq!(resolve_bg_color(false, CursorShape::Block, false, false, true, bg, cur, sel, &t), 0xff_01_02_03);
    assert_eq!(resolve_bg_color(false, CursorShape::Block, false, false, false, bg, cur, sel, &t), 0xff_09_09_09);
    let mut cell = make_plain_cell('x', Color::rgb(200, 101, 3), Color::rgb(10, 20, 30));
    cell.dim = true;
    let (b, f) = resolve_cell_colors(&cell, false, false, false, false, CursorShape::Block, cur, sel, &t);
    assert_eq!(b, 0xff_0a_14_1e);
    assert_eq!(f, Color::rgb(100, 50, 1));
    cell.dim = false;
    cell.reverse = true;
    let (b, f) = resolve_cell_colors(&cell, false, false, false, false, CursorShape::Block, cur, sel, &t);
    assert_eq!(b, 0xff_c8_65_03);
    assert_eq!(f, Color::rgb(10, 20, 30));
    let (_, f) = resolve_cell_colors(&cell, false, false, true, false, CursorShape::Block, cur, sel, &t);
    assert_eq!(f, Color::rgb(0x11, 0x11, 0x1d));
}
