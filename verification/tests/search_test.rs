use mmterm::grid::{Color, Grid, GridColors};
use mmterm::search::{compute_scroll_offset, compute_search_matches, matches_in_line};
use mmterm::search_state::{next_match_index, prev_match_index, SearchState};

#[test]
fn scroll_offset_for_live_row_is_zero() {
    assert_eq!(compute_scroll_offset(120, 100, 24), 0);
}

#[test]
fn scroll_offset_centres_the_match() {
    assert_eq!(compute_scroll_offset(50, 100, 24), 62);
    // Near the top of the scrollback the view cannot go further back.
    assert_eq!(compute_scroll_offset(3, 100, 24), 100);
}

#[test]
fn match_indices_wrap() {
    assert_eq!(next_match_index(2, 3), 0);
    assert_eq!(next_match_index(0, 3), 1);
    assert_eq!(prev_match_index(0, 3), 2);
    assert_eq!(prev_match_index(2, 3), 1);
    for i in 0..7 {
        assert_eq!(prev_match_index(next_match_index(i, 7), 7), i);
    }
}

fn state(h: &[&str]) -> SearchState {
    SearchState {
        search_history: h.iter().map(|s| s.to_string()).collect(),
        search_before_history: "typed".to_string(),
        search_matches: vec![],
        search_current: 0,
    }
}

#[test]
fn committing_empty_query_changes_nothing() {
    let mut s = state(&["a"]);
    s.push_search_history(String::new());
    assert_eq!(s.search_history, vec!["a".to_string()]);
    assert_eq!(s.search_before_history, "typed");
}

#[test]
fn committing_repeat_moves_it_last() {
    let mut s = state(&["a", "b", "c"]);
    s.push_search_history("a".to_string());
    assert_eq!(s.search_history, vec!["b".to_string(), "c".to_string(), "a".to_string()]);
    assert!(s.search_before_history.is_empty());
}

#[test]
fn committing_to_full_history_drops_oldest() {
    let names: Vec<String> = (0..50).map(|i| format!("q{i}")).collect();
    let refs: Vec<&str> = names.iter().map(|s| s.as_str()).collect();
    let mut s = state(&refs);
    s.push_search_history("new".to_string());
    assert_eq!(s.search_history.len(), 50);
    assert_eq!(s.search_history[0], "q1");
    assert_eq!(s.search_history[49], "new");
}

fn make_state() -> SearchState {
    SearchState {
        search_history: Vec::new(),
        search_before_history: String::new(),
        search_matches: Vec::new(),
        search_current: 0,
    }
}

#[test]
fn push_search_history_ignores_empty_query() {
    let mut s = make_state();
    s.push_search_history(String::new());
    assert!(s.search_history.is_empty());
}

#[test]
fn push_search_history_appends_in_order() {
    let mut s = make_state();
    s.push_search_history("foo".into());
    s.push_search_history("bar".into());
    assert_eq!(s.search_history, vec!["foo".to_string(), "bar".to_string()]);
}

#[test]
fn push_search_history_dedupes_moving_existing_to_end() {
    let mut s = make_state();
    s.push_search_history("foo".into());
    s.push_search_history("bar".into());
    s.push_search_history("foo".into());
    assert_eq!(s.search_history, vec!["bar".to_string(), "foo".to_string()]);
}

#[test]
fn push_search_history_caps_at_50_entries_dropping_oldest() {
    let mut s = make_state();
    for i in 0..60 {
        s.push_search_history(format!("q{i}"));
    }
    assert_eq!(s.search_history.len(), 50, "history is capped at 50 entries");
    assert_eq!(s.search_history.first().unwrap(), "q10");
    assert_eq!(s.search_history.last().unwrap(), "q59");
}

#[test]
fn push_search_history_clears_pending_before_buffer() {
    let mut s = make_state();
    s.search_before_history = "draft".into();
    s.push_search_history("committed".into());
    assert!(s.search_before_history.is_empty(), "committing a search must clear the saved in-progress query");
}

#[test]
fn search_history_saves_nonempty_query() {
    let mut s = make_state();
    s.push_search_history("error".to_string());
    assert_eq!(s.search_history, vec!["error"]);
}

#[test]
fn search_history_ignores_empty_query() {
    let mut s = make_state();
    s.push_search_history(String::new());
    assert!(s.search_history.is_empty());
}

#[test]
fn search_history_dedup_moves_to_end() {
    let mut s = make_state();
    s.push_search_history("foo".to_string());
    s.push_search_history("bar".to_string());
    s.push_search_history("foo".to_string());
    assert_eq!(s.search_history, vec!["bar", "foo"]);
}

#[test]
fn search_history_cap_at_50() {
    let mut s = make_state();
    for i in 0..55usize {
        s.push_search_history(format!("query{i}"));
    }
    assert_eq!(s.search_history.len(), 50);
    assert_eq!(s.search_history[0], "query5");
    assert_eq!(s.search_history[49], "query54");
}

#[test]
fn search_history_clears_before_history_on_push() {
    let mut s = make_state();
    s.search_before_history = "draft".to_string();
    s.push_search_history("committed".to_string());
    assert!(s.search_before_history.is_empty());
}

fn grid_with(lines: &[&str], cols: usize) -> Grid {
    let mut g = Grid::with_colors(
        cols,
        2,
        GridColors { fg: Color::white(), bg: Color::black(), cursor: Color::cursor(), selection: Color::selection(), palette: [Color::black(); 16] },
        100,
    );
    for (i, l) in lines.iter().enumerate() {
        if i > 0 {
            g.cursor_col = 0;
            g.line_feed();
        }
        for c in l.chars() {
            g.write_char(c);
        }
    }
    g
}

#[test]
fn search_finds_matches_in_scrollback_and_live_rows() {
    let g = grid_with(&["foo bar", "xfoo", "héllo foo"], 10);
    assert_eq!(g.scrollback.len(), 1);
    let m = compute_search_matches(&g, "fo+");
    assert_eq!(m, vec![(0, 0, 3), (1, 1, 3), (2, 6, 3)]);
    let m = compute_search_matches(&g, "llo");
    assert_eq!(m, vec![(2, 2, 3)]);
}

#[test]
fn search_with_empty_or_invalid_query_finds_nothing() {
    let g = grid_with(&["foo"], 10);
    assert!(compute_search_matches(&g, "").is_empty());
    assert!(compute_search_matches(&g, "(").is_empty());
    assert!(compute_search_matches(&g, "zzz").is_empty());
}

#[test]
fn byte_spans_become_character_columns() {
    let line: Vec<char> = "aé€😀b".chars().collect();
    // a:0..1 é:1..3 €:3..6 😀:6..10 b:10..11
    let m = matches_in_line(4, &line, &[(1, 6), (10, 11), (11, 11)]);
    assert_eq!(m, vec![(4, 1, 2), (4, 4, 1), (4, 5, 0)]);
}

#[test]
fn matches_on_one_row_come_left_to_right() {
    let g = grid_with(&["ab ab ab"], 10);
    let m = compute_search_matches(&g, "ab");
    assert_eq!(m, vec![(0, 0, 2), (0, 3, 2), (0, 6, 2)]);
    for w in m.windows(2) {
        assert!(w[0].0 < w[1].0 || (w[0].0 == w[1].0 && w[0].1 < w[1].1));
    }
    // Empty matches move on by at least one character.
    let e = compute_search_matches(&g, "x*");
    for w in e.windows(2) {
        assert!(w[0].0 < w[1].0 || w[0].1 < w[1].1);
    }
}
