use mmterm::geometry::cell_url_at_scroll;
use mmterm::grid::{Color, Grid, GridColors};

fn make_grid(cols: usize, rows: usize) -> Grid {
    Grid::with_colors(
        cols,
        rows,
        GridColors {
            fg: Color::white(),
            bg: Color::black(),
            cursor: Color::cursor(),
            selection: Color::selection(),
            palette: [Color::black(); 16],
        },
        1000,
    )
}

#[test]
fn cell_without_url_returns_none() {
    let mut g = make_grid(10, 3);
    g.write_char('X');
    assert!(cell_url_at_scroll(&g, 0, 0, 0).is_none());
}

#[test]
fn row_out_of_bounds_with_scroll_returns_none() {
    let g = make_grid(10, 3);
    assert!(cell_url_at_scroll(&g, 1, 0, 999).is_none());
}

#[test]
fn url_found_live_and_in_scrollback() {
    let mut g = make_grid(4, 2);
    g.write_char('L');
    g.cells[0].url = Some("https://example.com".to_string());
    assert_eq!(cell_url_at_scroll(&g, 0, 0, 0).as_deref(), Some("https://example.com"));
    // Scroll the linked line into the scrollback and look at it scrolled back.
    g.scroll_up(1);
    assert_eq!(g.scrollback.len(), 1);
    assert_eq!(cell_url_at_scroll(&g, 1, 0, 0).as_deref(), Some("https://example.com"));
    // Past the end of the scrollback line there is nothing.
    assert!(cell_url_at_scroll(&g, 1, 99, 0).is_none());
    // Row 1 of the scrolled-back view is live row 0, blank now.
    assert!(cell_url_at_scroll(&g, 1, 0, 1).is_none());
}

#[test]
fn cell_url_live_grid_no_scroll() {
    let mut g = make_grid(10, 3);
    g.write_char('L');
    g.cells[0].url = Some("https://example.com".to_string());
    let url = cell_url_at_scroll(&g, 0, 0, 0).unwrap();
    assert_eq!(url.as_str(), "https://example.com");
}

#[test]
fn col_out_of_bounds_in_scrollback_returns_none() {
    let mut g = make_grid(5, 2);
    for _ in 0..10 {
        g.write_char(' ');
    }
    if !g.scrollback.is_empty() {
        assert!(cell_url_at_scroll(&g, 1, 999, 0).is_none());
    }
}

#[test]
fn out_of_bounds_without_scroll_returns_none() {
    let mut g = make_grid(4, 2);
    g.cells[0].url = Some("https://example.com".to_string());
    assert!(cell_url_at_scroll(&g, 0, 4, 0).is_none());
    assert!(cell_url_at_scroll(&g, 0, 0, 2).is_none());
    assert!(cell_url_at_scroll(&g, 0, 999, 999).is_none());
}

#[test]
fn live_column_out_of_bounds_with_scroll_returns_none() {
    let mut g = make_grid(4, 2);
    g.write_char('L');
    g.scroll_up(1);
    // Row 1 of the view scrolled back by one is live row 0; column 7 is past the grid.
    assert!(cell_url_at_scroll(&g, 1, 7, 1).is_none());
}
