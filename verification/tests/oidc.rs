use auth_server::oauth::scopes::parse;
use auth_server::oauth::token::issuer::ClaimValue;
use auth_server::oidc::resource::{
    discovery_endpoints, refusal_reply, userinfo_account, userinfo_claims, userinfo_scopes, userinfo_session_id, userinfo_subject,
    userinfo_token_check,
    UserinfoRefusal,
};
use auth_server::user::User;

fn user(enabled: bool) -> User {
    User {
        id: 0x11,
        email: "alice@example.com".to_string(),
        email_verified: false,
        username: "alice".to_string(),
        first_name: Some("Alice".to_string()),
        last_name: None,
        enabled,
        created_at: 0,
        updated_at: 0,
    }
}

#[test]
fn userinfo_requires_openid_and_a_live_subject() {
    assert!(matches!(userinfo_scopes(Some("email")), Err(UserinfoRefusal::InsufficientScope)));
    assert!(matches!(userinfo_scopes(None), Err(UserinfoRefusal::InsufficientScope)));
    assert!(userinfo_scopes(Some("openid,email")).ok().unwrap().contains("email"));
    assert_eq!(userinfo_subject(Some("00000000-0000-0000-0000-000000000011")).ok(), Some(0x11));
    assert!(matches!(userinfo_subject(Some("alice")), Err(UserinfoRefusal::InvalidToken)));
    assert!(matches!(userinfo_subject(None), Err(UserinfoRefusal::InvalidToken)));
    assert!(userinfo_account(Some(&user(true))).is_ok());
    assert!(matches!(userinfo_account(Some(&user(false))), Err(UserinfoRefusal::InvalidToken)));
    let r = refusal_reply(UserinfoRefusal::InsufficientScope);
    assert_eq!((r.status, r.error), (403, "insufficient_scope"));
    assert_eq!(r.www_authenticate, "Bearer error=\"insufficient_scope\", scope=\"openid\"");
    assert_eq!(refusal_reply(UserinfoRefusal::InvalidToken).status, 401);
}

#[test]
fn userinfo_claims_follow_scopes_and_requests() {
    let claims = userinfo_claims(&user(true), &parse(Some("openid email")), &vec!["given_name".to_string(), "name".to_string()]);
    let got: Vec<(String, String)> = claims
        .iter()
        .map(|c| {
            let v = match &c.value {
                ClaimValue::Text(t) => t.clone(),
                ClaimValue::Flag(b) => b.to_string(),
                ClaimValue::List(l) => l.join(","),
            };
            (c.name.clone(), v)
        })
        .collect();
    assert_eq!(
        got,
        vec![
            ("sub".to_string(), "00000000-0000-0000-0000-000000000011".to_string()),
            ("email".to_string(), "alice@example.com".to_string()),
            ("email_verified".to_string(), "false".to_string()),
            ("given_name".to_string(), "Alice".to_string()),
        ]
    );
}

#[test]
fn discovery_document_endpoints() {
    let d = discovery_endpoints("https://id.example");
    assert_eq!(d.issuer, "https://id.example");
    assert_eq!(d.token_endpoint, "https://id.example/oauth/token");
    assert_eq!(d.end_session_endpoint, "https://id.example/oauth/logout");
    assert_eq!(d.device_authorization_endpoint, "https://id.example/oauth/device-authorization");
    assert_eq!(d.jwks_uri, "https://id.example/.well-known/jwks.json");
}

#[test]
fn userinfo_takes_only_access_tokens_of_live_sessions() {
    assert!(userinfo_token_check(Some("at+jwt"), true).is_ok());
    assert!(userinfo_token_check(Some("AT+JWT"), true).is_ok());
    assert!(userinfo_token_check(Some("application/at+jwt"), true).is_ok());
    assert!(matches!(userinfo_token_check(Some("JWT"), true), Err(UserinfoRefusal::InvalidToken)));
    assert!(matches!(userinfo_token_check(None, true), Err(UserinfoRefusal::InvalidToken)));
    assert!(matches!(userinfo_token_check(Some("at+jwt"), false), Err(UserinfoRefusal::InvalidToken)));
    assert_eq!(userinfo_session_id(Some("00000000-0000-0000-0000-000000000022")).ok(), Some(0x22));
    assert!(matches!(userinfo_session_id(Some("nope")), Err(UserinfoRefusal::InvalidToken)));
    assert!(matches!(userinfo_session_id(None), Err(UserinfoRefusal::InvalidToken)));
}
