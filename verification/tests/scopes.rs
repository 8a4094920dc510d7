use auth_server::oauth::scopes::{is_subset_of, parse};

#[test]
fn parse_space_and_comma_separated() {
    let s = parse(Some("openid profile,email"));
    assert!(s.contains("openid"));
    assert!(s.contains("profile"));
    assert!(s.contains("email"));
}

#[test]
fn subset_passes_when_all_requested_are_allowed() {
    assert!(is_subset_of(Some("openid email"), Some("openid email profile")));
}

#[test]
fn subset_fails_when_extra_scope_requested() {
    assert!(!is_subset_of(Some("openid admin"), Some("openid email")));
}

#[test]
fn empty_requested_is_always_subset() {
    assert!(is_subset_of(None, Some("openid")));
    assert!(is_subset_of(Some(""), Some("openid")));
}

#[test]
fn empty_allowed_means_no_scopes_are_allowed() {
    assert!(!is_subset_of(Some("openid"), None));
    assert!(!is_subset_of(Some("openid"), Some("")));
}

#[test]
fn parse_collapses_repeats_and_separator_runs() {
    let s = parse(Some("  openid,,openid \t email  "));
    assert_eq!(s.len(), 2);
    assert!(s.contains("openid"));
    assert!(s.contains("email"));
    assert!(!s.contains(""));
}

#[test]
fn parse_of_absent_or_blank_is_empty() {
    assert!(parse(None).is_empty());
    assert!(parse(Some("   ")).is_empty());
    assert!(parse(Some(" , ,")).is_empty());
}

#[test]
fn subset_is_reflexive_and_ignores_order_and_separators() {
    assert!(is_subset_of(Some("email openid"), Some("openid,email")));
    assert!(is_subset_of(Some("a b c"), Some("a b c")));
    assert!(is_subset_of(Some("  "), None));
}
