use auth_server::common::web::bearer_token;
use auth_server::common::order::{sorted_items, str_lt};
use auth_server::common::strset::StringSet;
use auth_server::common::text::{
    eq_ignore_ascii_case, is_whitespace, starts_with_ignore_ascii_case, join_with_space, push_i64, str_eq,
    trim_str,
};
use auth_server::common::time::{plus_seconds, secs_between};
use auth_server::common::url::build_redirect;

#[test]
fn whitespace_agrees_with_std() {
    for c in ['\t', '\n', ' ', '\u{85}', '\u{a0}', '\u{2003}', '\u{3000}', 'a', '-', '\u{200b}', '\u{feff}'] {
        assert_eq!(is_whitespace(c), c.is_whitespace(), "{:?}", c);
    }
}

#[test]
fn trim_agrees_with_std() {
    for s in ["", "   ", " a b ", "\u{3000}x\u{a0}", "no-trim", "\t\n"] {
        assert_eq!(trim_str(s), s.trim());
    }
}

#[test]
fn comparisons() {
    assert!(str_eq("abc", "abc"));
    assert!(!str_eq("abc", "abd"));
    assert!(eq_ignore_ascii_case("S256", "s256"));
    assert!(!eq_ignore_ascii_case("S256", "S25"));
    assert!(str_lt("email", "openid"));
    assert!(str_lt("open", "openid"));
    assert!(!str_lt("openid", "openid"));
}

#[test]
fn sorted_items_are_increasing() {
    let mut s = StringSet::new();
    for x in ["profile", "openid", "email", "openid"] {
        s.insert(x.to_string());
    }
    assert_eq!(sorted_items(&s), vec!["email", "openid", "profile"]);
    assert_eq!(join_with_space(&sorted_items(&s)), "email openid profile");
}

#[test]
fn decimal_rendering() {
    for n in [0i64, 7, -7, 1234567890, i64::MIN, i64::MAX] {
        let mut out = String::from("x=");
        push_i64(&mut out, n);
        assert_eq!(out, format!("x={}", n));
    }
}

#[test]
fn concatenation() {
    assert_eq!(auth_server::common::text::concat("a", "bc"), "abc");
    assert_eq!(auth_server::common::text::concat("", ""), "");
}

#[test]
fn url_encoding_and_redirects() {
    let odd = vec![("v".to_string(), "a b&c/é".to_string())];
    assert_eq!(build_redirect("https://app/cb", &odd), "https://app/cb?v=a%20b%26c%2F%C3%A9");
    let params = vec![("code".to_string(), "x y".to_string()), ("state".to_string(), "s".to_string())];
    assert_eq!(build_redirect("https://app/cb", &params), "https://app/cb?code=x%20y&state=s");
    assert_eq!(build_redirect("https://app/cb?x=1", &params), "https://app/cb?x=1&code=x%20y&state=s");
}

#[test]
fn time_arithmetic() {
    assert_eq!(secs_between(5_500_000, 0), 5);
    assert_eq!(secs_between(0, 5_500_000), -5);
    assert_eq!(plus_seconds(1_000_000, 300), 301_000_000);
}

#[test]
fn prefixes_without_ascii_case() {
    assert!(starts_with_ignore_ascii_case("HTTPS://x", "https://"));
    assert!(starts_with_ignore_ascii_case("abc", ""));
    assert!(!starts_with_ignore_ascii_case("http", "https://"));
    assert!(!starts_with_ignore_ascii_case("file:///x", "http://"));
}

#[test]
fn bearer_tokens_with_any_scheme_case() {
    assert_eq!(bearer_token(Some("Bearer abc")), Some("abc".to_string()));
    assert_eq!(bearer_token(Some("bEaReR  abc ")), Some("abc".to_string()));
    assert_eq!(bearer_token(Some("Basic abc")), None);
    assert_eq!(bearer_token(Some("Bearer   ")), None);
    assert_eq!(bearer_token(Some("Bearer")), None);
    assert_eq!(bearer_token(None), None);
}
