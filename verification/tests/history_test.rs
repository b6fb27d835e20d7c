use mmterm::history::{load_search_history, save_search_history, MAX_ENTRIES};

#[test]
fn history_lines_are_parsed_and_deduplicated() {
    let raw = ": 1:0;foo\n: 2:0;bar\nnot a history line\n: 3:0;foo\n: 4:0;\n: 5:0;a;b\r\n";
    assert_eq!(load_search_history(raw), vec!["bar".to_string(), "foo".to_string(), "a;b".to_string()]);
}

#[test]
fn history_of_empty_file_is_empty() {
    assert!(load_search_history("").is_empty());
    assert!(load_search_history("\n\n").is_empty());
}

#[test]
fn history_keeps_the_first_fifty() {
    let mut raw = String::new();
    for i in 0..60 {
        raw.push_str(&format!(": 0:0;q{i}\n"));
    }
    let h = load_search_history(&raw);
    assert_eq!(h.len(), 50);
    assert_eq!(h[0], "q0");
    assert_eq!(h[49], "q49");
}

#[test]
fn saved_history_has_one_line_per_query() {
    let h = vec!["foo".to_string(), "bar".to_string()];
    assert_eq!(save_search_history(&h, 1700000000), ": 1700000000:0;foo\n: 1700000000:0;bar\n");
    assert_eq!(save_search_history(&[], 5), "\n");
}

#[test]
fn saved_history_reads_back() {
    let h: Vec<String> = (0..50).map(|i| format!("query {i}; with semicolon")).collect();
    let saved = save_search_history(&h, 42);
    assert_eq!(load_search_history(&saved), h);
    let long: Vec<String> = (0..70).map(|i| format!("q{i}")).collect();
    assert_eq!(load_search_history(&save_search_history(&long, 1)), long[..50].to_vec());
}

#[test]
fn load_missing_file_returns_empty() {
    assert!(load_search_history("").is_empty());
}

#[test]
fn load_parses_valid_lines() {
    let h = load_search_history(": 1749240000:0;error\n: 1749240060:0;panic\n");
    assert_eq!(h, vec!["error", "panic"]);
}

#[test]
fn load_skips_malformed_lines() {
    let h = load_search_history("not a history line\n: 1749240000:0;good\ngarbage\n");
    assert_eq!(h, vec!["good"]);
}

#[test]
fn load_dedup_keeps_last_occurrence() {
    let h = load_search_history(": 1000:0;foo\n: 2000:0;bar\n: 3000:0;foo\n");
    assert_eq!(h, vec!["bar", "foo"]);
}

#[test]
fn round_trip_single_entry() {
    let saved = save_search_history(&["regex_test".to_string()], 1749240000);
    assert_eq!(load_search_history(&saved), vec!["regex_test"]);
}

#[test]
fn round_trip_preserves_order() {
    let history = vec!["alpha".to_string(), "beta".to_string(), "gamma".to_string()];
    let saved = save_search_history(&history, 1749240000);
    assert_eq!(load_search_history(&saved), history);
}

#[test]
fn save_caps_at_max_entries() {
    let history: Vec<String> = (0..60).map(|i| format!("q{i}")).collect();
    let loaded = load_search_history(&save_search_history(&history, 7));
    assert_eq!(loaded.len(), MAX_ENTRIES);
    assert_eq!(loaded[0], "q0");
    assert_eq!(loaded[49], "q49");
}

#[test]
fn load_skips_empty_query() {
    let h = load_search_history(": 1000:0;\n: 2000:0;valid\n");
    assert_eq!(h, vec!["valid"]);
}
