use mmterm::cli::{debug_requested, help_requested, help_text, list_scopes_requested, scope_from_args, version_requested};

fn str_args(v: &[&str]) -> Vec<String> {
    v.iter().map(|s| s.to_string()).collect()
}

#[test]
fn version_flag_long_detected() {
    assert!(version_requested(&str_args(&["mmterm", "--version"])));
}

#[test]
fn version_flag_short_detected() {
    assert!(version_requested(&str_args(&["mmterm", "-V"])));
}

#[test]
fn version_flag_absent() {
    assert!(!version_requested(&str_args(&["mmterm", "--debug"])));
    assert!(!version_requested(&str_args(&["mmterm"])));
}

#[test]
fn help_flag_long_detected() {
    assert!(help_requested(&str_args(&["mmterm", "--help"])));
}

#[test]
fn help_flag_short_detected() {
    assert!(help_requested(&str_args(&["mmterm", "-h"])));
}

#[test]
fn help_flag_absent() {
    assert!(!help_requested(&str_args(&["mmterm", "--debug"])));
    assert!(!help_requested(&str_args(&["mmterm"])));
}

#[test]
fn help_output_contains_all_flags() {
    let version = "1.4.2";
    let text = help_text(version);
    assert!(text.contains("--version"));
    assert!(text.contains("-V"));
    assert!(text.contains("--help"));
    assert!(text.contains("-h"));
    assert!(text.contains("--debug"));
    assert!(text.contains("--scope"));
    assert!(text.contains("--list-scopes"));
    assert!(text.contains(version));
}

#[test]
fn scope_from_args_none_when_absent() {
    assert_eq!(scope_from_args(&str_args(&["mmterm"])), None);
}

#[test]
fn scope_from_args_long_form_space() {
    assert_eq!(scope_from_args(&str_args(&["mmterm", "--scope", "work"])), Some("work".to_string()));
}

#[test]
fn scope_from_args_long_form_equals() {
    assert_eq!(scope_from_args(&str_args(&["mmterm", "--scope=my-project"])), Some("my-project".to_string()));
}

#[test]
fn scope_from_args_short_form() {
    assert_eq!(scope_from_args(&str_args(&["mmterm", "-s", "proj"])), Some("proj".to_string()));
}

#[test]
fn scope_from_args_no_value_after_flag_returns_none() {
    assert_eq!(scope_from_args(&str_args(&["mmterm", "--scope"])), None);
}

#[test]
fn scope_from_args_flags_before_scope() {
    assert_eq!(scope_from_args(&str_args(&["mmterm", "--debug", "--scope", "dev"])), Some("dev".to_string()));
}

#[test]
fn scope_from_args_first_value_wins() {
    assert_eq!(
        scope_from_args(&str_args(&["mmterm", "--scope", "first", "--scope", "second"])),
        Some("first".to_string())
    );
}

#[test]
fn scope_from_args_unrelated_flags_only() {
    assert_eq!(scope_from_args(&str_args(&["mmterm", "--debug", "--version"])), None);
}

#[test]
fn list_scopes_requested_absent() {
    assert!(!list_scopes_requested(&str_args(&["mmterm"])));
    assert!(!list_scopes_requested(&str_args(&["mmterm", "--debug"])));
}

#[test]
fn list_scopes_requested_present() {
    assert!(list_scopes_requested(&str_args(&["mmterm", "--list-scopes"])));
}

#[test]
fn list_scopes_requested_with_other_flags() {
    assert!(list_scopes_requested(&str_args(&["mmterm", "--scope", "x", "--list-scopes"])));
}

#[test]
fn debug_flag_detected_anywhere() {
    let v = |a: &[&str]| a.iter().map(|s| s.to_string()).collect::<Vec<String>>();
    assert!(debug_requested(&v(&["mmterm", "--debug"])));
    assert!(debug_requested(&v(&["mmterm", "--scope", "x", "--debug"])));
    assert!(!debug_requested(&v(&["mmterm"])));
    assert!(!debug_requested(&v(&["mmterm", "--debugx", "-d"])));
}
