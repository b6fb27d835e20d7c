use mmterm::mode::InputMode;
use mmterm::status_bar::{search_info, status_layout, REC_LABEL_BYTES};

fn search(query: &str, history_pos: Option<(usize, usize)>) -> InputMode {
    InputMode::Search { query: query.to_string(), history_pos }
}

#[test]
fn search_info_empty_query_is_slash() {
    assert_eq!(search_info(&search("", None), 0, 0).as_deref(), Some("/"));
    assert_eq!(search_info(&search("", None), 7, 3).as_deref(), Some("/"));
}

#[test]
fn search_info_reports_no_matches() {
    assert_eq!(search_info(&search("foo", None), 0, 0).as_deref(), Some("/foo  [no matches]"));
}

#[test]
fn search_info_counts_from_one() {
    assert_eq!(search_info(&search("foo", None), 5, 1).as_deref(), Some("/foo  [2/5]"));
    assert_eq!(search_info(&search("a b", None), 12, 11).as_deref(), Some("/a b  [12/12]"));
}

#[test]
fn search_info_shows_history_position() {
    assert_eq!(search_info(&search("foo", Some((0, 3))), 5, 1).as_deref(), Some("/foo  [2/5]  [hist 1/3]"));
    assert_eq!(search_info(&search("", Some((2, 3))), 0, 0).as_deref(), Some("/  [hist 3/3]"));
}

#[test]
fn search_info_outside_search_is_none() {
    assert!(search_info(&InputMode::Normal, 5, 1).is_none());
    assert!(search_info(&InputMode::Insert, 0, 0).is_none());
}

#[test]
fn rec_label_byte_length() {
    assert_eq!("\u{25cf} REC".len() as u32, REC_LABEL_BYTES);
}

#[test]
fn status_layout_places_every_part() {
    let l = status_layout(800, 600, "NORMAL", 8, true, true, &InputMode::Normal, Some("vim"), Some("~/src"));
    assert_eq!(l.bar_y, 578);
    assert_eq!((l.badge_x, l.badge_y, l.badge_w, l.badge_h), (8, 580, 64, 18));
    assert_eq!(l.search_x, 82);
    assert_eq!(l.text_y, 582);
    assert_eq!(l.rec, Some((80, 72)));
    assert_eq!(l.bell_x, Some(76));
    assert_eq!(l.title_x, Some(388));
    assert_eq!(l.right_x, Some(750));
}

#[test]
fn status_layout_hides_inactive_parts() {
    let l = status_layout(800, 600, "SEARCH", 8, false, false, &search("x", None), Some("vim"), None);
    assert_eq!(l.rec, None);
    assert_eq!(l.bell_x, None);
    assert_eq!(l.title_x, None);
    assert_eq!(l.right_x, None);
}

#[test]
fn status_layout_drops_texts_that_do_not_fit() {
    let l = status_layout(40, 10, "INSERT", 8, false, false, &InputMode::Insert, Some("title"), Some("long text"));
    assert_eq!(l.bar_y, 0);
    assert_eq!(l.badge_y, 2);
    assert_eq!(l.title_x, None);
    assert_eq!(l.right_x, None);
    let fits = status_layout(100, 10, "INSERT", 8, false, false, &InputMode::Insert, Some("ab"), Some("abcdefghi"));
    assert_eq!(fits.title_x, Some(42));
    assert_eq!(fits.right_x, Some(18));
}

#[test]
fn status_layout_measures_bytes() {
    // "é" is two bytes in UTF-8.
    let l = status_layout(100, 30, "NORMAL", 10, false, false, &InputMode::Normal, Some("é"), None);
    assert_eq!(l.title_x, Some(40));
}
