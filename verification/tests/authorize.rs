use auth_server::client::Client;
use auth_server::common::crypto::HmacSha256;
use base64::Engine;
use auth_server::oauth::authorize::code::{auth_code_key, code_unexpired, store_ttl, AuthorizationCode};
use auth_server::oauth::authorize::flow::{
    begin, check_client, check_session, consent_step, error_redirect, issue_code, parse_prompt,
    recheck_after_consent, validate_request, AuthorizeRequest, AuthorizeStart, ConsentStep,
};
use auth_server::oauth::authorize::request_object::{split_char, verify_hs256, RequestObjectParser};
use auth_server::oauth::authorize::result::AuthorizeResult;
use auth_server::oauth::resource::{authorize_reply, oauth_error_response, AuthorizeReply};
use auth_server::common::crypto::sha256_base64_url;
use auth_server::session::model::{SessionWithUser, UserSession};

fn request() -> AuthorizeRequest<'static> {
    AuthorizeRequest {
        session_token: Some("tok"),
        client_id: Some(" app "),
        redirect_uri: Some("https://app/cb"),
        response_type: Some("code"),
        scope: Some("openid email"),
        state: Some("st"),
        nonce: None,
        prompt: None,
        max_age: None,
        code_challenge: None,
        code_challenge_method: None,
        claims_json: None,
    }
}

fn client(secret: Option<&str>) -> Client {
    Client {
        id: 7,
        client_id: "app".to_string(),
        name: None,
        client_type: Some("confidential".to_string()),
        client_secret: secret.map(|s| s.to_string()),
        scopes: Some("openid email".to_string()),
        enabled: true,
        pkce_required: false,
        frontchannel_logout_uri: None,
        backchannel_logout_uri: None,
    }
}

fn plain_error(r: AuthorizeResult) -> (String, String) {
    assert!(!r.ok && r.redirect.is_none());
    (r.error.unwrap(), r.error_description.unwrap())
}

fn session(created_at: i64) -> SessionWithUser {
    SessionWithUser {
        session: UserSession {
            id: 0x22,
            user_id: 0x11,
            session_token: "tok".to_string(),
            ip_address: None,
            user_agent: None,
            expires_at: None,
            last_accessed_at: None,
            created_at,
        },
        user_email: "a@b.c".to_string(),
        user_username: "a".to_string(),
        user_email_verified: true,
        user_enabled: true,
    }
}

#[test]
fn first_step_checks_the_request_shape() {
    let mut r = request();
    r.response_type = Some("token");
    assert_eq!(plain_error(begin(&r).err().unwrap()).0, "unsupported_response_type");
    let mut r = request();
    r.client_id = Some("   ");
    assert_eq!(plain_error(begin(&r).err().unwrap()).1, "client_id and redirect_uri are required");
    let mut r = request();
    r.prompt = Some("login consent");
    let start = begin(&r).ok().unwrap();
    assert_eq!(start.client_id, "app");
    assert!(start.prompt_login && start.prompt_consent && !start.prompt_none);
    assert!(parse_prompt(Some("none")).contains("none"));
}

fn start(prompt_none: bool, prompt_login: bool) -> AuthorizeStart {
    AuthorizeStart {
        client_id: "app".to_string(),
        redirect_uri: "https://app/cb".to_string(),
        prompt_none,
        prompt_login,
        prompt_consent: false,
    }
}

#[test]
fn session_checks() {
    assert_eq!(plain_error(check_session(&start(false, false), None, 0, None).err().unwrap()), ("invalid_session".to_string(), "Login required".to_string()));
    assert_eq!(plain_error(check_session(&start(true, false), None, 0, None).err().unwrap()).0, "login_required");
    let s = session(0);
    assert!(check_session(&start(false, true), Some(&s), 9_000_000, None).is_ok());
    assert_eq!(plain_error(check_session(&start(false, true), Some(&s), 10_000_000, None).err().unwrap()).1, "prompt=login requires re-authentication");
    assert_eq!(plain_error(check_session(&start(false, false), Some(&s), 61_000_000, Some(60)).err().unwrap()).1, "Session age 61s exceeds max_age 60s");
    assert!(check_session(&start(false, false), Some(&s), 60_000_000, Some(60)).is_ok());
}

#[test]
fn client_and_request_validation() {
    assert_eq!(plain_error(check_client(None).err().unwrap()).0, "unauthorized_client");
    let c = client(None);
    let st = start(false, false);
    assert_eq!(plain_error(validate_request(&st, &request(), &c, false).err().unwrap()).1, "redirect_uri is not registered");
    let mut r = request();
    r.scope = Some("openid admin");
    let e = validate_request(&st, &r, &c, true).err().unwrap();
    assert_eq!(e.redirect.as_deref(), Some("https://app/cb?error=invalid_scope&error_description=Requested%20scope%20is%20not%20allowed%20for%20this%20client&state=st"));
    let mut r = request();
    r.code_challenge = Some("abc");
    assert_eq!(validate_request(&st, &r, &c, true).err().unwrap().error.as_deref(), Some("invalid_request"));
    r.code_challenge_method = Some("plain");
    assert_eq!(validate_request(&st, &r, &c, true).err().unwrap().error_description.as_deref(), Some("Unsupported code_challenge_method"));
    r.code_challenge_method = Some("S256");
    assert_eq!(validate_request(&st, &r, &c, true).ok(), Some(Some("S256".to_string())));
    let mut strict = client(None);
    strict.pkce_required = true;
    assert_eq!(validate_request(&st, &request(), &strict, true).err().unwrap().error_description.as_deref(), Some("code_challenge is required"));
    assert_eq!(validate_request(&st, &request(), &c, true).ok(), Some(None));
    assert!(recheck_after_consent(Some(&c), true).is_ok());
    assert_eq!(plain_error(recheck_after_consent(Some(&c), false).err().unwrap()).1, "redirect_uri is not registered");
}

#[test]
fn consent_and_code_issuance() {
    assert!(matches!(consent_step(&start(false, false), Some("st"), true), ConsentStep::Issue));
    assert!(matches!(consent_step(&start(false, false), Some("st"), false), ConsentStep::AskConsent));
    match consent_step(&start(true, false), Some("st"), false) {
        ConsentStep::Fail(e) => assert_eq!(e.error.as_deref(), Some("consent_required")),
        _ => panic!("prompt=none cannot ask for consent"),
    }
    let (code, result) = issue_code(0x22, 0x11, "app", "https://app/cb", Some("openid"), Some("s t"), None, None, None, None, 0);
    assert_eq!(code.code.len(), 64);
    assert_eq!(code.expires_at, 600_000_000);
    assert_eq!(result.redirect.unwrap(), format!("https://app/cb?code={}&state=s%20t", code.code));
    assert_eq!(auth_code_key(&code.code), format!("authcode:{}", sha256_base64_url(&code.code)));
    assert_eq!(store_ttl(&code, 0), Some(600));
    assert!(code_unexpired(&code, 600_000_000));
    assert!(!code_unexpired(&code, 600_000_001));
    let e = error_redirect("https://app/cb", None, "access_denied", "");
    assert_eq!(e.redirect.as_deref(), Some("https://app/cb?error=access_denied"));
    let _unused: Option<AuthorizationCode> = None;
}

fn jws(header: &str, payload: &str, secret: &str) -> String {
    let b64 = base64::engine::general_purpose::URL_SAFE_NO_PAD;
    let input = format!("{}.{}", b64.encode(header.as_bytes()), b64.encode(payload.as_bytes()));
    let sig = HmacSha256::new(secret.as_bytes().to_vec()).compute(&input);
    format!("{}.{}", input, sig)
}

#[test]
fn request_objects_must_be_hs256_signed_with_the_client_secret() {
    let c = client(Some("s3cret"));
    let good = jws(r#"{"alg":"HS256","typ":"JWT"}"#, r#"{"scope":"openid"}"#, "s3cret");
    let payload = RequestObjectParser::parse(&good, &c).expect("accepted");
    assert_eq!(payload["scope"], "openid");
    let lower = jws(r#"{"alg":"hs256"}"#, r#"{}"#, "s3cret");
    assert!(RequestObjectParser::parse(&lower, &c).is_some());
    assert!(RequestObjectParser::parse(&jws(r#"{"alg":"HS256"}"#, r#"{}"#, "other"), &c).is_none());
    assert!(RequestObjectParser::parse(&jws(r#"{"alg":"none"}"#, r#"{}"#, "s3cret"), &c).is_none());
    assert!(RequestObjectParser::parse(&jws(r#"{"alg":"HS256"}"#, "not json", "s3cret"), &c).is_none());
    assert!(RequestObjectParser::parse(&good, &client(None)).is_none());
    assert!(RequestObjectParser::parse(&good, &client(Some(""))).is_none());
    assert!(RequestObjectParser::parse("a.b", &c).is_none());
    assert!(RequestObjectParser::parse("  ", &c).is_none());
    let parts: Vec<&str> = good.split('.').collect();
    let input = format!("{}.{}", parts[0], parts[1]);
    assert!(verify_hs256(&input, parts[2], "s3cret"));
    assert!(!verify_hs256(&input, "AAAA", "s3cret"));
    assert_eq!(split_char("a..b.", '.'), vec!["a", "", "b", ""]);
    assert_eq!(split_char("", '.'), vec![""]);
}

#[test]
fn http_answers() {
    let session_missing = AuthorizeResult::error("invalid_session", "Login required");
    match authorize_reply(&session_missing, "/oauth/authorize", "client_id=app&x=1") {
        AuthorizeReply::SeeOther(l) => assert_eq!(l, "/login?return_to=%2Foauth%2Fauthorize%3Fclient_id%3Dapp%26x%3D1"),
        _ => panic!("login redirect expected"),
    }
    match authorize_reply(&AuthorizeResult::consent_required("r 1".to_string()), "/p", "") {
        AuthorizeReply::SeeOther(l) => assert_eq!(l, "/consent?req=r%201"),
        _ => panic!("consent redirect expected"),
    }
    match authorize_reply(&AuthorizeResult::error("invalid_request", "bad"), "/p", "") {
        AuthorizeReply::BadRequest { error, error_description } => assert_eq!((error.as_str(), error_description.as_str()), ("invalid_request", "bad")),
        _ => panic!("400 expected"),
    }
    match authorize_reply(&AuthorizeResult::success("https://app/cb?code=c".to_string()), "/p", "") {
        AuthorizeReply::SeeOther(l) => assert_eq!(l, "https://app/cb?code=c"),
        _ => panic!("redirect expected"),
    }
    let e = oauth_error_response(Some("invalid_client"), None);
    assert_eq!((e.status, e.error.as_str(), e.error_description.as_str()), (401, "invalid_client", ""));
    let e = oauth_error_response(None, Some("d"));
    assert_eq!((e.status, e.error.as_str()), (400, "invalid_request"));
}
