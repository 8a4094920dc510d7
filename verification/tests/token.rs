use auth_server::client::{authenticate_client, Client};
use auth_server::oauth::authorize::claims::ClaimsRequest;
use auth_server::oauth::authorize::code::AuthorizationCode;
use auth_server::oauth::device::model::DeviceAuthorization;
use auth_server::oauth::scopes::parse;
use auth_server::oauth::token::flow::{
    check_code, check_device_grant, check_refresh, refresh_lookup_hash, rotated, check_required, client_credentials_gate, client_gate, consumed,
    require_active_user_session, require_user_session, select_grant, Grant, RefreshCheck, TokenRequest,
};
use auth_server::oauth::token::introspect::{
    audience_matches, endpoint_client_check, introspection_outcome, Audience,
};
use auth_server::oauth::token::issuer::{
    access_claims, auth_time, client_access_claims, client_token_payload, id_token_claims, new_refresh_token, user_token_payload,
    wants_id_token, Claim, ClaimValue,
};
use auth_server::oauth::token::model::RefreshToken;
use auth_server::oauth::token::result::{IntrospectResult, TokenResult};
use auth_server::oauth::token::revoke::revocation_needed;
use auth_server::common::crypto::{sha256_base64_url, HmacSha256};
use auth_server::session::model::UserSession;
use auth_server::user::User;

fn client(confidential: bool) -> Client {
    Client {
        id: 7,
        client_id: "app".to_string(),
        name: Some("App".to_string()),
        client_type: Some(if confidential { "CONFIDENTIAL" } else { "public" }.to_string()),
        client_secret: if confidential { Some("hash".to_string()) } else { None },
        scopes: Some("openid email profile".to_string()),
        enabled: true,
        pkce_required: false,
        frontchannel_logout_uri: None,
        backchannel_logout_uri: None,
    }
}

fn empty_request() -> TokenRequest<'static> {
    TokenRequest {
        grant_type: None,
        code: None,
        redirect_uri: None,
        client_id: None,
        client_secret: None,
        code_verifier: None,
        refresh_token: None,
        scope: None,
        device_code: None,
    }
}

fn err_of<T>(r: Result<T, TokenResult>) -> (String, String) {
    match r {
        Ok(_) => panic!("expected an error"),
        Err(e) => {
            assert!(!e.ok);
            (e.error.unwrap(), e.error_description.unwrap())
        }
    }
}

fn user() -> User {
    User {
        id: 0x11,
        email: "alice@example.com".to_string(),
        email_verified: true,
        username: "alice".to_string(),
        first_name: Some("Alice".to_string()),
        last_name: Some("Liddell".to_string()),
        enabled: true,
        created_at: 0,
        updated_at: 0,
    }
}

fn session() -> UserSession {
    UserSession {
        id: 0x22,
        user_id: 0x11,
        session_token: "tok".to_string(),
        ip_address: None,
        user_agent: None,
        expires_at: None,
        last_accessed_at: None,
        created_at: 1_000_000,
    }
}

fn code(challenge: Option<&str>) -> AuthorizationCode {
    AuthorizationCode {
        code: "c".to_string(),
        client_id: "app".to_string(),
        user_id: 0x11,
        session_id: 0x22,
        redirect_uri: "https://app/cb".to_string(),
        scope: Some("openid".to_string()),
        state: None,
        nonce: None,
        code_challenge: challenge.map(|s| s.to_string()),
        code_challenge_method: challenge.map(|_| "S256".to_string()),
        claims_requested: None,
        expires_at: 100,
        created_at: None,
    }
}

#[test]
fn grant_selection() {
    assert!(matches!(select_grant(Some("authorization_code")), Ok(Grant::AuthorizationCode)));
    assert!(matches!(select_grant(Some("refresh_token")), Ok(Grant::RefreshToken)));
    assert!(matches!(select_grant(Some("client_credentials")), Ok(Grant::ClientCredentials)));
    assert!(matches!(
        select_grant(Some("urn:ietf:params:oauth:grant-type:device_code")),
        Ok(Grant::DeviceCode)
    ));
    assert_eq!(
        err_of(select_grant(Some("password"))),
        (
            "unsupported_grant_type".to_string(),
            "Supported: authorization_code, refresh_token, client_credentials, device_code".to_string()
        )
    );
    assert_eq!(err_of(select_grant(None)).0, "unsupported_grant_type");
}

#[test]
fn required_fields_per_grant() {
    let mut req = empty_request();
    assert_eq!(
        err_of(check_required(&Grant::AuthorizationCode, &req)),
        ("invalid_request".to_string(), "code, redirect_uri, client_id are required".to_string())
    );
    req.code = Some("c");
    req.redirect_uri = Some("https://app/cb");
    req.client_id = Some("");
    assert_eq!(err_of(check_required(&Grant::AuthorizationCode, &req)).0, "invalid_request");
    req.client_id = Some("app");
    assert!(check_required(&Grant::AuthorizationCode, &req).is_ok());
    assert!(check_required(&Grant::ClientCredentials, &req).is_ok());
    assert_eq!(
        err_of(check_required(&Grant::RefreshToken, &req)).1,
        "refresh_token and client_id are required"
    );
    assert_eq!(err_of(check_required(&Grant::DeviceCode, &req)).1, "device_code and client_id are required");
}

#[test]
fn client_authentication() {
    let public = client(false);
    let conf = client(true);
    assert!(authenticate_client(&public, None, false));
    assert!(!authenticate_client(&conf, None, true));
    assert!(!authenticate_client(&conf, Some(""), true));
    assert!(!authenticate_client(&conf, Some("s3cret"), false));
    assert!(authenticate_client(&conf, Some("s3cret"), true));
}

#[test]
fn client_gates() {
    let mut conf = client(true);
    assert!(client_gate(Some(&conf), Some("s"), true).is_ok());
    assert_eq!(err_of(client_gate(Some(&conf), Some("s"), false)).0, "invalid_client");
    assert_eq!(err_of(client_gate(None, None, false)).0, "unauthorized_client");
    conf.enabled = false;
    assert_eq!(err_of(client_gate(Some(&conf), Some("s"), true)).1, "Unknown or disabled client");
    let public = client(false);
    assert_eq!(
        err_of(client_credentials_gate(Some(&public), None, false, None)).1,
        "client_credentials grant requires a confidential client"
    );
    let conf = client(true);
    assert!(client_credentials_gate(Some(&conf), Some("s"), true, Some("openid email")).is_ok());
    assert_eq!(err_of(client_credentials_gate(Some(&conf), Some("s"), true, Some("admin"))).0, "invalid_scope");
}

#[test]
fn authorization_code_checks() {
    let c = client(false);
    let mut req = empty_request();
    req.client_id = Some("app");
    req.redirect_uri = Some("https://app/cb");
    assert_eq!(err_of(check_code(None, 0, &req, &c)).1, "Invalid authorization code");
    assert_eq!(err_of(check_code(Some(&code(None)), 101, &req, &c)).1, "Authorization code expired");
    assert!(check_code(Some(&code(None)), 100, &req, &c).is_ok());
    req.redirect_uri = Some("https://evil/cb");
    assert_eq!(err_of(check_code(Some(&code(None)), 0, &req, &c)).1, "Code binding mismatch");
    req.redirect_uri = Some("https://app/cb");
    let verifier = "dBjftJeZ4CVP-mB92K27uhbUJU1p1r_wW1gFWFOEjXk";
    let challenge = sha256_base64_url(verifier);
    let pkce_code = code(Some(&challenge));
    assert_eq!(err_of(check_code(Some(&pkce_code), 0, &req, &c)).1, "code_verifier is required");
    req.code_verifier = Some("wrong");
    assert_eq!(err_of(check_code(Some(&pkce_code), 0, &req, &c)).1, "PKCE verification failed");
    req.code_verifier = Some(verifier);
    assert!(check_code(Some(&pkce_code), 0, &req, &c).is_ok());
    let mut strict = client(false);
    strict.pkce_required = true;
    req.code_verifier = None;
    assert_eq!(err_of(check_code(Some(&code(None)), 0, &req, &strict)).1, "code_verifier is required");
}

#[test]
fn user_and_session_requirements() {
    let u = user();
    let s = session();
    assert!(require_user_session(Some(&u), Some(&s)).is_ok());
    assert_eq!(err_of(require_user_session(None, Some(&s))).1, "User/session not found");
    let mut disabled = user();
    disabled.enabled = false;
    assert_eq!(err_of(require_active_user_session(Some(&disabled), Some(&s))).1, "User/session not valid");
    assert!(require_active_user_session(Some(&u), Some(&s)).is_ok());
}

fn refresh(revoked: bool, expires_at: Option<i64>, client_id: u128) -> RefreshToken {
    RefreshToken {
        id: 1,
        user_id: 0x11,
        client_id,
        session_id: 0x22,
        token_hash: "h".to_string(),
        expires_at,
        revoked,
        created_at: 0,
    }
}

#[test]
fn refresh_token_rotation_and_replay() {
    let c = client(false);
    assert!(matches!(check_refresh(None, 0, &c), RefreshCheck::Refused(e) if e.error_description.as_deref() == Some("Invalid refresh token")));
    match check_refresh(Some(&refresh(true, None, 7)), 0, &c) {
        RefreshCheck::Replayed { session_id, error } => {
            assert_eq!(session_id, 0x22);
            assert_eq!(error.error.as_deref(), Some("invalid_grant"));
            assert_eq!(error.error_description.as_deref(), Some("Refresh token revoked — session terminated"));
        }
        _ => panic!("a revoked token is a replay"),
    }
    assert!(matches!(check_refresh(Some(&refresh(false, Some(5), 7)), 6, &c), RefreshCheck::Refused(e) if e.error_description.as_deref() == Some("Refresh token expired")));
    assert!(matches!(check_refresh(Some(&refresh(false, None, 8)), 6, &c), RefreshCheck::Refused(e) if e.error_description.as_deref() == Some("Refresh token client mismatch")));
    assert!(matches!(check_refresh(Some(&refresh(false, Some(6), 7)), 6, &c), RefreshCheck::Rotate));
    let used = rotated(refresh(false, Some(6), 7));
    assert!(used.revoked);
    assert!(matches!(check_refresh(Some(&used), 0, &c), RefreshCheck::Replayed { session_id: 0x22, .. }));
}

fn device(status: &str, bound: bool) -> DeviceAuthorization {
    DeviceAuthorization {
        id: 5,
        device_code: "dc".to_string(),
        user_code: "BCDF-GHJK".to_string(),
        client_id: "app".to_string(),
        scope: None,
        status: status.to_string(),
        user_id: if bound { Some(0x11) } else { None },
        session_id: if bound { Some(0x22) } else { None },
        expires_at: 100,
        created_at: Some(0),
    }
}

#[test]
fn device_code_polling() {
    assert_eq!(err_of(check_device_grant(None, "app", 0)).1, "Unknown device_code");
    assert_eq!(err_of(check_device_grant(Some(&device("pending", false)), "other", 0)).1, "device_code does not belong to this client");
    assert_eq!(err_of(check_device_grant(Some(&device("pending", false)), "app", 101)).0, "expired_token");
    assert_eq!(err_of(check_device_grant(Some(&device("pending", false)), "app", 0)).0, "authorization_pending");
    assert_eq!(err_of(check_device_grant(Some(&device("denied", false)), "app", 0)).0, "access_denied");
    assert_eq!(err_of(check_device_grant(Some(&device("consumed", true)), "app", 0)).1, "device_code already used");
    assert_eq!(err_of(check_device_grant(Some(&device("weird", true)), "app", 0)).1, "Unknown device_code state");
    assert_eq!(err_of(check_device_grant(Some(&device("approved", false)), "app", 0)).1, "Approved device_code missing user binding");
    assert_eq!(check_device_grant(Some(&device("approved", true)), "app", 0).ok(), Some((0x11, 0x22)));
    let used = consumed(device("approved", true));
    assert_eq!(used.status, "consumed");
    assert_eq!(used.user_id, Some(0x11));
}

fn text_of(c: &Claim) -> (&str, String) {
    match &c.value {
        ClaimValue::Text(t) => (c.name.as_str(), t.clone()),
        ClaimValue::Flag(b) => (c.name.as_str(), b.to_string()),
        ClaimValue::List(l) => (c.name.as_str(), l.join(",")),
    }
}

#[test]
fn access_token_claims() {
    let cr = ClaimsRequest::parse(Some(r#"{"userinfo": {"name": null, "email": {"essential": true}}}"#));
    let roles = vec!["user".to_string(), "admin".to_string()];
    let claims = access_claims(&user(), &client(false), &session(), &roles, Some("openid email"), &cr);
    let got: Vec<(&str, String)> = claims.iter().map(text_of).collect();
    assert_eq!(
        got,
        vec![
            ("client_id", "app".to_string()),
            ("email", "alice@example.com".to_string()),
            ("username", "alice".to_string()),
            ("sid", "00000000-0000-0000-0000-000000000022".to_string()),
            ("roles", "user,admin".to_string()),
            ("scope", "openid email".to_string()),
            ("claims_userinfo", "email,name".to_string()),
        ]
    );
    let plain = access_claims(&user(), &client(false), &session(), &roles, None, &ClaimsRequest::empty());
    assert_eq!(plain.len(), 6);
    let cc_claims = client_access_claims(&client(true), Some("openid"));
    let cc: Vec<(&str, String)> = cc_claims.iter().map(text_of).collect();
    assert_eq!(cc, vec![("scope", "openid".to_string()), ("client_id", "app".to_string())]);
}

#[test]
fn id_token_claims_follow_scopes_and_claims_parameter() {
    let scopes = parse(Some("openid profile"));
    let claims = id_token_claims(&user(), &session(), &scopes, &ClaimsRequest::empty());
    let got: Vec<(&str, String)> = claims.iter().map(text_of).collect();
    assert_eq!(
        got,
        vec![
            ("sid", "00000000-0000-0000-0000-000000000022".to_string()),
            ("preferred_username", "alice".to_string()),
            ("given_name", "Alice".to_string()),
            ("family_name", "Liddell".to_string()),
            ("name", "Alice Liddell".to_string()),
        ]
    );
    let cr = ClaimsRequest::parse(Some(r#"{"id_token": {"email_verified": null}}"#));
    let only = id_token_claims(&user(), &session(), &parse(Some("openid")), &cr);
    let got: Vec<(&str, String)> = only.iter().map(text_of).collect();
    assert_eq!(got, vec![("sid", "00000000-0000-0000-0000-000000000022".to_string()), ("email_verified", "true".to_string())]);
    assert!(wants_id_token(&parse(Some("openid email"))));
    assert!(!wants_id_token(&parse(Some("email"))));
}

#[test]
fn refresh_record_and_payloads() {
    let hmac = HmacSha256::new(b"k".to_vec());
    let r = new_refresh_token(9, &user(), &client(false), &session(), "raw-token", &hmac, 1_000);
    assert_eq!(r.token_hash, hmac.compute("raw-token"));
    assert_eq!(r.token_hash, refresh_lookup_hash(&hmac, "raw-token"));
    assert_ne!(r.token_hash, sha256_base64_url("raw-token"));
    assert_eq!(r.expires_at, Some(1_000 + 30 * 86_400_000_000));
    assert!(!r.revoked);
    assert_eq!((r.user_id, r.client_id, r.session_id), (0x11, 7, 0x22));
    let p = client_token_payload("at".to_string(), 300, None);
    assert_eq!((p.token_type.as_str(), p.scope.as_str(), p.refresh_token.is_none()), ("Bearer", "", true));
    let q = user_token_payload("at".to_string(), 300, "rt".to_string(), Some("openid"), Some("idt".to_string()));
    assert_eq!(q.refresh_token.as_deref(), Some("rt"));
    assert_eq!(q.id_token.as_deref(), Some("idt"));
}

#[test]
fn introspection_binds_tokens_to_their_client() {
    let c = client(true);
    assert_eq!(endpoint_client_check("", "app", Some(&c), Some("s"), true), Some(("invalid_request", "token and client_id are required")));
    assert_eq!(endpoint_client_check("t", "app", None, None, false), Some(("invalid_client", "Unknown or disabled client")));
    assert_eq!(endpoint_client_check("t", "app", Some(&c), Some("s"), false), Some(("invalid_client", "Invalid client credentials")));
    assert_eq!(endpoint_client_check("t", "app", Some(&c), Some("s"), true), None);
    assert!(audience_matches(&Audience::Text("app".to_string()), "app"));
    assert!(audience_matches(&Audience::List(vec![None, Some("x".to_string()), Some("app".to_string())]), "app"));
    assert!(!audience_matches(&Audience::List(vec![Some("x".to_string())]), "app"));
    assert!(!audience_matches(&Audience::Null, "app"));
    assert!(matches!(introspection_outcome(true, &Audience::Text("app".to_string()), &c), IntrospectResult::Active));
    assert!(matches!(introspection_outcome(true, &Audience::Text("other".to_string()), &c), IntrospectResult::Inactive));
    assert!(matches!(introspection_outcome(false, &Audience::Text("app".to_string()), &c), IntrospectResult::Inactive));
}

#[test]
fn revocation_only_touches_the_callers_live_tokens() {
    let c = client(true);
    assert!(revocation_needed(None, Some(&refresh(false, None, 7)), &c));
    assert!(revocation_needed(Some("refresh_token"), Some(&refresh(false, None, 7)), &c));
    assert!(!revocation_needed(Some("access_token"), Some(&refresh(false, None, 7)), &c));
    assert!(!revocation_needed(Some("REFRESH_TOKEN"), Some(&refresh(false, None, 7)), &c));
    assert!(!revocation_needed(None, Some(&refresh(true, None, 7)), &c));
    assert!(!revocation_needed(None, Some(&refresh(false, None, 8)), &c));
    assert!(!revocation_needed(None, None, &c));
}

#[test]
fn auth_time_is_the_session_start_in_whole_seconds() {
    for t in [0i64, 1_500_000, -1, -1_000_000, -1_000_001, 1_662_921_288_999_999] {
        let mut s = session();
        s.created_at = t;
        let expected = chrono::DateTime::from_timestamp_micros(t).unwrap().timestamp();
        assert_eq!(auth_time(&s), expected, "{}", t);
    }
}

#[test]
fn issued_refresh_token_is_found_and_rotates_until_expiry() {
    let hmac = HmacSha256::new(b"k".to_vec());
    let t = new_refresh_token(9, &user(), &client(true), &session(), "raw-token", &hmac, 0);
    assert_eq!(refresh_lookup_hash(&hmac, "raw-token"), t.token_hash);
    assert_ne!(refresh_lookup_hash(&hmac, "raw-tokeN"), t.token_hash);
    let expiry = t.expires_at.unwrap();
    assert!(matches!(check_refresh(Some(&t), expiry, &client(true)), RefreshCheck::Rotate));
    assert!(matches!(check_refresh(Some(&t), expiry + 1, &client(true)), RefreshCheck::Refused(_)));
    let again = rotated(t);
    assert!(matches!(check_refresh(Some(&again), 0, &client(true)), RefreshCheck::Replayed { session_id: 0x22, .. }));
}
