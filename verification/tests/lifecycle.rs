use auth_server::client::Client;
use auth_server::common::crypto::sha256_base64_url;
use auth_server::oauth::authorize::flow::issue_code;
use auth_server::oauth::device::flow::{new_device_authorization, resolve_user_code};
use auth_server::oauth::token::flow::{check_code, check_device_grant, consumed, TokenRequest};
use auth_server::session::model::{SessionWithUser, UserSession};

fn client() -> Client {
    Client {
        id: 7,
        client_id: "app".to_string(),
        name: None,
        client_type: None,
        client_secret: None,
        scopes: Some("openid".to_string()),
        enabled: true,
        pkce_required: true,
        frontchannel_logout_uri: None,
        backchannel_logout_uri: None,
    }
}

#[test]
fn an_issued_code_redeems_with_its_verifier_only() {
    let verifier = "a-long-enough-code-verifier-for-the-test";
    let challenge = sha256_base64_url(verifier);
    let (code, _) = issue_code(
        0x22,
        0x11,
        "app",
        "https://app/cb",
        Some("openid"),
        None,
        None,
        Some(&challenge),
        Some("S256"),
        None,
        0,
    );
    let req = TokenRequest {
        grant_type: Some("authorization_code"),
        code: Some(&code.code),
        redirect_uri: Some("https://app/cb"),
        client_id: Some("app"),
        client_secret: None,
        code_verifier: Some(verifier),
        refresh_token: None,
        scope: None,
        device_code: None,
    };
    assert!(check_code(Some(&code), 1_000_000, &req, &client()).is_ok());
    let wrong = TokenRequest { code_verifier: Some("another-verifier"), ..req };
    assert!(check_code(Some(&code), 1_000_000, &wrong, &client()).is_err());
    assert!(check_code(Some(&code), code.expires_at + 1, &req, &client()).is_err());
}

#[test]
fn an_approved_device_code_redeems_once() {
    let session = SessionWithUser {
        session: UserSession {
            id: 0x22,
            user_id: 0x11,
            session_token: "t".to_string(),
            ip_address: None,
            user_agent: None,
            expires_at: None,
            last_accessed_at: None,
            created_at: 0,
        },
        user_email: "a@b.c".to_string(),
        user_username: "a".to_string(),
        user_email_verified: true,
        user_enabled: true,
    };
    let mut pending = new_device_authorization(1, "dc".to_string(), &client(), None, 0);
    pending.user_code = "BCDF-GHJK".to_string();
    assert_eq!(check_device_grant(Some(&pending), "app", 1).err().unwrap().error.as_deref(), Some("authorization_pending"));
    let approved = resolve_user_code(Some(pending), 1, &session, true).ok().unwrap();
    assert_eq!(check_device_grant(Some(&approved), "app", 2).ok(), Some((0x11, 0x22)));
    let used = consumed(approved);
    assert_eq!(
        check_device_grant(Some(&used), "app", 3).err().unwrap().error_description.as_deref(),
        Some("device_code already used")
    );
}
