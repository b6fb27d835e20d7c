use mmterm::draw::{cell_url_hovered, color_u32, get_cell, mode_style, ResolvedTheme};
use mmterm::mode::InputMode;
use mmterm::grid::{Color, Grid, GridColors};

fn make_grid(cols: usize, rows: usize) -> Grid {
    Grid::with_colors(
        cols,
        rows,
        GridColors {
            fg: Color::white(),
            bg: Color::black(),
            cursor: Color::cursor(),
            selection: Color::selection(),
            palette: [Color::black(); 16],
        },
        10_000,
    )
}

#[test]
fn color_u32_packs_rgb_correctly() {
    let c = Color::rgb(0x12, 0x34, 0x56);
    let u = color_u32(c);
    assert_eq!((u >> 24) & 0xFF, 0xFF);
    assert_eq!((u >> 16) & 0xFF, 0x12);
    assert_eq!((u >> 8) & 0xFF, 0x34);
    assert_eq!(u & 0xFF, 0x56);
}

#[test]
fn get_cell_from_live_grid() {
    let grid = make_grid(80, 24);
    let cell = get_cell(&grid, 0, 0, 0);
    assert_eq!(cell.c, ' ');
}

#[test]
fn get_cell_out_of_bounds_returns_blank() {
    let grid = make_grid(80, 24);
    let cell = get_cell(&grid, 9999, 9999, 0);
    assert_eq!(cell.c, ' ');
}

#[test]
fn get_cell_reads_scrollback_and_pads_short_lines() {
    let mut grid = make_grid(3, 2);
    grid.write_char('a');
    grid.scroll_up(1);
    grid.write_char('b');
    assert_eq!(grid.scrollback.len(), 1);
    assert_eq!(get_cell(&grid, 1, 0, 0).c, 'a');
    assert_eq!(get_cell(&grid, 1, 1, 1).c, 'b');
    assert_eq!(get_cell(&grid, 1, 0, 7).c, ' ');
    assert_eq!(get_cell(&grid, 0, 0, 1).c, 'b');
}

#[test]
fn url_hovered_matches_same_url() {
    assert!(cell_url_hovered(Some("https://example.com"), Some("https://example.com")));
}

#[test]
fn url_hovered_no_match_when_different_url() {
    assert!(!cell_url_hovered(Some("https://example.com"), Some("https://other.com")));
}

#[test]
fn url_hovered_no_match_when_hovered_none() {
    assert!(!cell_url_hovered(Some("https://example.com"), None));
}

#[test]
fn url_hovered_no_match_when_cell_has_no_url() {
    assert!(!cell_url_hovered(None, Some("https://example.com")));
}

#[test]
fn url_hovered_no_match_when_both_none() {
    assert!(!cell_url_hovered(None, None));
}

#[test]
fn get_cell_scrollback_col_out_of_bounds_returns_blank() {
    let mut grid = make_grid(80, 24);
    grid.scroll_up(1);
    if !grid.scrollback.is_empty() {
        let cell = get_cell(&grid, 1, 0, 9999);
        assert_eq!(cell.c, ' ');
    }
}

fn default_theme() -> ResolvedTheme {
    ResolvedTheme {
        palette: [Color::rgb(0x80, 0x80, 0x80); 16],
        search_match: Color::rgb(0xe5, 0xc0, 0x7b),
        search_current: Color::rgb(0xd1, 0x9a, 0x66),
        scrollbar: Color::rgb(0x44, 0x44, 0x44),
    }
}

#[test]
fn mode_style_returns_badge_for_each_mode() {
    let theme = default_theme();
    let (label, _) = mode_style(&InputMode::Insert, false, &theme);
    assert_eq!(label, "INSERT");
    let (label, _) = mode_style(&InputMode::Insert, true, &theme);
    assert_eq!(label, "INSERT PASS");
    let (label, _) = mode_style(&InputMode::Normal, false, &theme);
    assert_eq!(label, "NORMAL");
    let (label, _) = mode_style(
        &InputMode::Visual { start_col: 0, start_row: 0, cur_col: 0, cur_row: 0, anchored: false },
        false,
        &theme,
    );
    assert_eq!(label, "VISUAL");
    let (label, _) = mode_style(&InputMode::RenameTab { buf: String::new() }, false, &theme);
    assert_eq!(label, "RENAME");
    let (label, _) = mode_style(&InputMode::Search { query: String::new(), history_pos: None }, false, &theme);
    assert_eq!(label, "SEARCH");
}
