use auth_server::client::Client;
use auth_server::oauth::logout::flow::{
    build_frontchannel_url, client_id_from_hint, plan_notifications, resolve_session, session_from_hint, terminated,
    validated_post_logout,
};
use auth_server::oauth::logout::notifier::{backchannel_target, logout_token_subject};
use auth_server::oauth::logout::result::LogoutResult;
use auth_server::oauth::token::introspect::Audience;

fn client(id: &str, front: Option<&str>, back: Option<&str>) -> Client {
    Client {
        id: 1,
        client_id: id.to_string(),
        name: None,
        client_type: None,
        client_secret: None,
        scopes: None,
        enabled: true,
        pkce_required: false,
        frontchannel_logout_uri: front.map(|s| s.to_string()),
        backchannel_logout_uri: back.map(|s| s.to_string()),
    }
}

#[test]
fn hint_names_the_first_audience() {
    assert_eq!(client_id_from_hint(&Audience::Text("app".to_string())), Some("app".to_string()));
    assert_eq!(client_id_from_hint(&Audience::Text("".to_string())), None);
    assert_eq!(
        client_id_from_hint(&Audience::List(vec![Some("a".to_string()), Some("b".to_string())])),
        Some("a".to_string())
    );
    assert_eq!(client_id_from_hint(&Audience::List(vec![None, Some("b".to_string())])), None);
    assert_eq!(client_id_from_hint(&Audience::List(vec![])), None);
    assert_eq!(client_id_from_hint(&Audience::Absent), None);
}

#[test]
fn post_logout_redirect_is_kept_only_when_registered() {
    assert_eq!(validated_post_logout(Some("https://app/bye"), true), Some("https://app/bye".to_string()));
    assert_eq!(validated_post_logout(Some("https://app/bye"), false), None);
    assert_eq!(validated_post_logout(Some(""), true), None);
    assert_eq!(validated_post_logout(None, true), None);
}

#[test]
fn the_hint_sid_wins_over_the_cookie() {
    let sid = "550e8400-e29b-41d4-a716-446655440000";
    assert_eq!(session_from_hint(Some(sid)), Some(0x550e8400_e29b_41d4_a716_446655440000));
    assert_eq!(resolve_session(Some(sid), Some(9)), Some(0x550e8400_e29b_41d4_a716_446655440000));
    assert_eq!(resolve_session(Some("junk"), Some(9)), Some(9));
    assert_eq!(resolve_session(None, Some(9)), Some(9));
    assert_eq!(resolve_session(None, None), None);
}

#[test]
fn frontchannel_urls() {
    assert_eq!(
        build_frontchannel_url("https://app/fc", "https://id.example", 0x22),
        "https://app/fc?iss=https%3A%2F%2Fid.example&sid=00000000-0000-0000-0000-000000000022"
    );
    assert_eq!(
        build_frontchannel_url("https://app/fc?x=1", "iss", 1),
        "https://app/fc?x=1&iss=iss&sid=00000000-0000-0000-0000-000000000001"
    );
}

#[test]
fn notification_plan_covers_each_registered_channel() {
    let involved = vec![
        client("a", Some("https://a/fc"), None),
        client("b", None, Some("https://b/bc")),
        client("c", Some(""), Some("")),
        client("d", Some("https://d/fc"), Some("https://d/bc")),
    ];
    let plan = plan_notifications(&involved, "iss", 1);
    assert_eq!(plan.frontchannel_urls.len(), 2);
    assert!(plan.frontchannel_urls[0].starts_with("https://a/fc?iss=iss&sid="));
    assert!(plan.frontchannel_urls[1].starts_with("https://d/fc?iss=iss&sid="));
    assert_eq!(plan.notify, vec![1, 3]);
    assert_eq!(backchannel_target(&involved[1]), Some("https://b/bc".to_string()));
    assert_eq!(backchannel_target(&involved[2]), None);
}

#[test]
fn backchannel_only_over_http_or_https() {
    assert_eq!(backchannel_target(&client("x", None, Some("file:///etc/passwd"))), None);
    assert_eq!(backchannel_target(&client("x", None, Some("javascript:alert(1)"))), None);
    assert_eq!(backchannel_target(&client("x", None, Some("ftp://h/p"))), None);
    assert_eq!(backchannel_target(&client("x", None, Some("http:"))), None);
    assert_eq!(backchannel_target(&client("x", None, Some("http://h/bc"))), Some("http://h/bc".to_string()));
    assert_eq!(backchannel_target(&client("x", None, Some("HTTPS://h/bc"))), Some("HTTPS://h/bc".to_string()));
    let involved = vec![client("a", None, Some("file:///etc/passwd")), client("b", None, Some("https://b/bc"))];
    assert_eq!(plan_notifications(&involved, "iss", 1).notify, vec![1]);
}

#[test]
fn results_and_logout_tokens() {
    let none = LogoutResult::none(Some("https://app/bye".to_string()));
    assert!(!none.terminated && none.frontchannel_logout_uris.is_empty());
    let done = terminated(true, vec!["u".to_string()], None);
    assert!(done.terminated);
    assert_eq!(done.frontchannel_logout_uris, vec!["u".to_string()]);
    let failed = terminated(false, vec!["u".to_string()], Some("https://app/bye".to_string()));
    assert!(!failed.terminated && failed.frontchannel_logout_uris.is_empty());
    assert_eq!(failed.validated_post_logout_redirect_uri.as_deref(), Some("https://app/bye"));
    let t = logout_token_subject(&client("app", None, None), Some(0x11), 0x22);
    assert_eq!(t.sub.as_deref(), Some("00000000-0000-0000-0000-000000000011"));
    assert_eq!(t.aud, "app");
    assert_eq!(t.sid, "00000000-0000-0000-0000-000000000022");
    assert_eq!(logout_token_subject(&client("app", None, None), None, 1).sub, None);
}
