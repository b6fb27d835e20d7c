use mmterm::action::Action;
use mmterm::command_palette::{entry_action, entry_code, entry_label, entry_shortcut, filter, filter_lowered, total};

#[test]
fn entry_action_returns_correct_variant() {
    let idx = filter("New Tab")[0];
    assert!(matches!(entry_action(idx), Action::NewTab));
}

#[test]
fn filter_tab_matches_tab_actions() {
    let codes: Vec<&str> = filter("tab").iter().map(|&i| entry_code(i)).collect();
    assert!(codes.contains(&"NewTab"));
    assert!(codes.contains(&"NextTab"));
    assert!(codes.contains(&"CloseTab"));
}

#[test]
fn all_entry_actions_can_be_constructed() {
    for i in 0..total() {
        let _ = entry_action(i);
    }
}

#[test]
fn empty_query_returns_all() {
    assert_eq!(filter("").len(), total());
}

#[test]
fn filter_matches_human_label() {
    let res = filter("split");
    assert!(res.len() >= 3);
    for i in &res {
        let label = entry_label(*i).to_lowercase();
        let code = entry_code(*i).to_lowercase();
        assert!(label.contains("split") || code.contains("split"));
    }
}

#[test]
fn filter_matches_internal_code() {
    let res = filter("splitv");
    assert!(!res.is_empty());
    assert!(res.iter().any(|&i| entry_code(i) == "SplitV"));
}

#[test]
fn filter_no_match_returns_empty() {
    assert!(filter("xyznotexist").is_empty());
}

#[test]
fn all_entries_have_shortcut() {
    for i in 0..total() {
        assert!(!entry_shortcut(i).is_empty(), "entry {} has no shortcut", i);
    }
}

#[test]
fn labels_and_codes_are_non_empty() {
    for i in 0..total() {
        assert!(!entry_label(i).is_empty());
        assert!(!entry_code(i).is_empty());
    }
}

#[test]
fn filter_is_case_insensitive() {
    assert_eq!(filter("NEW TAB"), filter("new tab"));
    assert_eq!(filter("SPLITV"), filter("splitv"));
}

fn lowered(l: &str, c: &str) -> (Vec<char>, Vec<char>) {
    (l.chars().collect(), c.chars().collect())
}

#[test]
fn filter_lowered_matches_label_or_code() {
    let entries = vec![lowered("new tab", "newtab"), lowered("split pane", "splitv"), lowered("quit", "quit")];
    let q: Vec<char> = "tab".chars().collect();
    assert_eq!(filter_lowered(&q, &entries), vec![0]);
    let q: Vec<char> = "splitv".chars().collect();
    assert_eq!(filter_lowered(&q, &entries), vec![1]);
    assert_eq!(filter_lowered(&[], &entries), vec![0, 1, 2]);
    let q: Vec<char> = "zzz".chars().collect();
    assert!(filter_lowered(&q, &entries).is_empty());
}
