use mmterm::grid::{Color, Grid, GridColors};
use mmterm::motion::{char_at, is_word, step_back, step_forward, word_backward, word_end, word_forward};

fn make_grid(text: &str) -> Grid {
    let cols = text.len().max(10);
    let mut g = Grid::with_colors(
        cols,
        5,
        GridColors {
            fg: Color::white(),
            bg: Color::black(),
            cursor: Color::white(),
            selection: Color::white(),
            palette: [Color::black(); 16],
        },
        100,
    );
    for c in text.chars() {
        g.write_char(c);
    }
    g
}

#[test]
fn word_forward_skips_to_next_word() {
    let g = make_grid("hello world");
    assert_eq!(word_forward(&g, 0, 0, 0), (6, 0));
}

#[test]
fn word_forward_from_space_skips_to_word() {
    let g = make_grid("hello world");
    assert_eq!(word_forward(&g, 0, 5, 0), (6, 0));
}

#[test]
fn word_backward_lands_on_word_start() {
    let g = make_grid("hello world");
    assert_eq!(word_backward(&g, 0, 8, 0), (6, 0));
}

#[test]
fn word_backward_from_start_of_word_jumps_to_prev_word() {
    let g = make_grid("hello world");
    assert_eq!(word_backward(&g, 0, 6, 0), (0, 0));
}

#[test]
fn word_end_finds_end_of_current_word() {
    let g = make_grid("hello world");
    assert_eq!(word_end(&g, 0, 0, 0), (4, 0));
}

#[test]
fn word_end_from_space_finds_end_of_next_word() {
    let g = make_grid("hello world");
    assert_eq!(word_end(&g, 0, 5, 0), (10, 0));
}

#[test]
fn punctuation_is_its_own_run() {
    let g = make_grid("foo.bar baz");
    assert_eq!(word_forward(&g, 0, 0, 0), (3, 0));
    assert_eq!(word_forward(&g, 0, 3, 0), (4, 0));
    assert!(is_word('_'));
    assert!(is_word('é'));
    assert!(!is_word('.'));
}

#[test]
fn word_forward_wraps_to_the_next_row() {
    let g = make_grid("hello world");
    // From the last word of row 0 the rest of the screen is blank: the
    // motion runs to the last cell.
    assert_eq!(word_forward(&g, 0, 6, 0), (10, 4));
}

#[test]
fn steps_wrap_and_undo_each_other() {
    assert_eq!(step_forward(9, 0, 10, 5), Some((0, 1)));
    assert_eq!(step_back(0, 1, 10), Some((9, 0)));
    assert_eq!(step_forward(9, 4, 10, 5), None);
    assert_eq!(step_back(0, 0, 10), None);
    for row in 0..5 {
        for col in 0..10 {
            if let Some((c, r)) = step_forward(col, row, 10, 5) {
                assert_eq!(step_back(c, r, 10), Some((col, row)));
            }
        }
    }
}

#[test]
fn char_at_outside_the_grid_is_a_space() {
    let g = make_grid("hello world");
    assert_eq!(char_at(&g, 0, 0, 4), 'o');
    assert_eq!(char_at(&g, 0, 0, 99), ' ');
    assert_eq!(char_at(&g, 0, 99, 0), ' ');
    assert_eq!(char_at(&g, 3, 0, 0), 'h');
}

#[test]
fn word_backward_at_origin_stays_at_origin() {
    let g = make_grid("hello");
    let (c, r) = word_backward(&g, 0, 0, 0);
    assert_eq!((c, r), (0, 0));
}

#[test]
fn word_end_at_end_of_word_advances_to_next() {
    let g = make_grid("hello world");
    let (c, r) = word_end(&g, 0, 4, 0);
    assert_eq!(r, 0);
    assert_eq!(c, 10);
}

#[test]
fn word_forward_at_last_cell_stays() {
    let g = make_grid("hi");
    let cols = g.cols;
    let (c, r) = word_forward(&g, 0, cols - 1, g.rows - 1);
    assert_eq!(r, g.rows - 1);
    assert_eq!(c, cols - 1);
}

#[test]
fn char_at_col_out_of_bounds_returns_space() {
    let g = make_grid("hi");
    assert_eq!(char_at(&g, 0, 0, g.cols + 10), ' ');
}

#[test]
fn char_at_row_out_of_bounds_returns_space() {
    let g = make_grid("hi");
    assert_eq!(char_at(&g, 0, g.rows + 5, 0), ' ');
}

#[test]
fn word_forward_with_scroll_offset_reads_scrollback() {
    let mut g = make_grid("hello world and more text here now ");
    for _ in 0..g.rows + 2 {
        for c in "next line     ".chars() {
            g.write_char(c);
        }
    }
    assert!(!g.scrollback.is_empty());
    let (_, _) = word_forward(&g, 1, 0, 0);
}
