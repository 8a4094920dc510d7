use auth_server::client::Client;
use auth_server::oauth::device::flow::{
    after_persist_attempt, device_client_check, device_payload, device_request_precheck, generate_user_code, user_code_from_indices,
    new_device_authorization, persist_exhausted, resolve_user_code, verify_precheck, PersistStep,
};
use auth_server::oauth::device::model::DeviceAuthorization;
use auth_server::oauth::device::repository::{from_fields, normalize_user_code, storage_ttl, to_fields, DecodeError};
use auth_server::oauth::device::result::{DeviceAuthorizationResult, DeviceVerifyResult};
use auth_server::session::model::{SessionWithUser, UserSession};

const ALPHABET: &str = "BCDFGHJKLMNPQRSTVWXZ23456789";

fn client() -> Client {
    Client {
        id: 7,
        client_id: "tv".to_string(),
        name: None,
        client_type: None,
        client_secret: None,
        scopes: Some("openid profile".to_string()),
        enabled: true,
        pkce_required: false,
        frontchannel_logout_uri: None,
        backchannel_logout_uri: None,
    }
}

fn session() -> SessionWithUser {
    SessionWithUser {
        session: UserSession {
            id: 0x22,
            user_id: 0x11,
            session_token: "t".to_string(),
            ip_address: None,
            user_agent: None,
            expires_at: None,
            last_accessed_at: None,
            created_at: 0,
        },
        user_email: "a@b.c".to_string(),
        user_username: "a".to_string(),
        user_email_verified: true,
        user_enabled: true,
    }
}

fn auth(status: &str) -> DeviceAuthorization {
    DeviceAuthorization {
        id: 0x550e8400_e29b_41d4_a716_446655440000,
        device_code: "dev-code".to_string(),
        user_code: "BCDF-GHJK".to_string(),
        client_id: "tv".to_string(),
        scope: Some("openid".to_string()),
        status: status.to_string(),
        user_id: None,
        session_id: None,
        expires_at: 1_662_921_288_123_456,
        created_at: Some(1_662_921_000_000_000),
    }
}

fn dae(r: Option<DeviceAuthorizationResult>) -> (String, String) {
    let r = r.expect("a refusal");
    assert!(!r.ok && r.payload.is_none());
    (r.error.unwrap(), r.error_description.unwrap())
}

fn dve(r: DeviceVerifyResult) -> (String, String) {
    assert!(!r.ok);
    (r.error.unwrap(), r.error_description.unwrap())
}

#[test]
fn user_codes_have_the_documented_shape() {
    for _ in 0..50 {
        let code = generate_user_code();
        let cs: Vec<char> = code.chars().collect();
        assert_eq!(cs.len(), 9);
        assert_eq!(cs[4], '-');
        for (i, c) in cs.iter().enumerate() {
            if i != 4 {
                assert!(ALPHABET.contains(*c), "{}", code);
            }
        }
    }
}

#[test]
fn user_code_lookup_is_case_and_separator_insensitive() {
    assert_eq!(normalize_user_code("bcdf-ghjk"), "BCDFGHJK");
    assert_eq!(normalize_user_code(" BCDF GHJK\t"), "BCDFGHJK");
    assert_eq!(normalize_user_code("bc-df-gh-jk"), "BCDFGHJK");
    assert_eq!(normalize_user_code(""), "");
}

#[test]
fn request_checks() {
    assert_eq!(dae(device_request_precheck("  ")), ("invalid_request".to_string(), "client_id is required".to_string()));
    assert!(device_request_precheck("tv").is_none());
    assert_eq!(dae(device_client_check(None, None)).0, "unauthorized_client");
    let mut off = client();
    off.enabled = false;
    assert_eq!(dae(device_client_check(Some(&off), None)).1, "Unknown or disabled client");
    assert_eq!(dae(device_client_check(Some(&client()), Some("openid admin"))).0, "invalid_scope");
    assert!(device_client_check(Some(&client()), Some("openid")).is_none());
    assert!(device_client_check(Some(&client()), None).is_none());
}

#[test]
fn new_authorization_and_payload() {
    let mut a = new_device_authorization(3, "dc".to_string(), &client(), Some("openid"), 1_000_000);
    assert_eq!(a.status, "pending");
    assert_eq!(a.expires_at, 1_000_000 + 300 * 1_000_000);
    assert_eq!(a.created_at, Some(1_000_000));
    assert_eq!(a.user_code, "");
    a.user_code = "BCDF-GHJK".to_string();
    let p = device_payload(&a, "https://id.example");
    assert_eq!(p.verification_uri, "https://id.example/oauth/device");
    assert_eq!(p.verification_uri_complete, "https://id.example/oauth/device?user_code=BCDF-GHJK");
    assert_eq!((p.expires_in, p.interval), (300, 5));
    let ok = DeviceAuthorizationResult::success(p);
    assert!(ok.ok && ok.error.is_none());
}

#[test]
fn persist_retries_then_gives_up() {
    assert!(matches!(after_persist_attempt(1, true), PersistStep::Done));
    assert!(matches!(after_persist_attempt(1, false), PersistStep::Retry));
    assert!(matches!(after_persist_attempt(4, false), PersistStep::Retry));
    assert!(matches!(after_persist_attempt(5, false), PersistStep::GiveUp));
    assert_eq!(dae(Some(persist_exhausted())).0, "server_error");
}

#[test]
fn verification_outcomes() {
    let s = session();
    assert_eq!(dve(verify_precheck(" ", Some(&s)).unwrap()).0, "invalid_request");
    assert_eq!(dve(verify_precheck("BCDF", None).unwrap()), ("invalid_session".to_string(), "Login required".to_string()));
    assert!(verify_precheck("BCDF", Some(&s)).is_none());
    assert_eq!(dve(resolve_user_code(None, 0, &s, true).err().unwrap()).1, "Unknown user_code");
    let late = auth("pending").expires_at + 1;
    assert_eq!(dve(resolve_user_code(Some(auth("pending")), late, &s, true).err().unwrap()).0, "expired_token");
    assert_eq!(dve(resolve_user_code(Some(auth("approved")), 0, &s, true).err().unwrap()).1, "Already resolved");
    let approved = resolve_user_code(Some(auth("pending")), 0, &s, true).ok().unwrap();
    assert_eq!(approved.status, "approved");
    assert_eq!((approved.user_id, approved.session_id), (Some(0x11), Some(0x22)));
    let denied = resolve_user_code(Some(auth("pending")), 0, &s, false).ok().unwrap();
    assert_eq!(denied.status, "denied");
    assert_eq!(denied.user_id, None);
    assert!(DeviceVerifyResult::success().ok);
}

#[test]
fn stored_fields_round_trip() {
    let mut a = auth("approved");
    a.user_id = Some(0x11);
    a.session_id = Some(0x22);
    let fields = to_fields(&a);
    let names: Vec<&str> = fields.iter().map(|(k, _)| k.as_str()).collect();
    assert_eq!(
        names,
        vec!["id", "deviceCode", "userCode", "clientId", "scope", "status", "userId", "sessionId", "expiresAt", "createdAt"]
    );
    assert_eq!(fields[0].1, "550e8400-e29b-41d4-a716-446655440000");
    assert_eq!(fields[8].1, "2022-09-11T18:34:48.123456");
    let back = from_fields(&fields).ok().unwrap();
    assert_eq!(back.id, a.id);
    assert_eq!(back.device_code, a.device_code);
    assert_eq!(back.user_code, a.user_code);
    assert_eq!(back.client_id, a.client_id);
    assert_eq!(back.scope, a.scope);
    assert_eq!(back.status, a.status);
    assert_eq!((back.user_id, back.session_id), (a.user_id, a.session_id));
    assert_eq!((back.expires_at, back.created_at), (a.expires_at, a.created_at));
    let sparse = DeviceAuthorization { scope: None, created_at: None, ..auth("pending") };
    assert_eq!(to_fields(&sparse).len(), 6);
}

#[test]
fn decoding_reports_the_first_problem() {
    let f = |pairs: &[(&str, &str)]| -> Vec<(String, String)> {
        pairs.iter().map(|(k, v)| (k.to_string(), v.to_string())).collect()
    };
    assert!(matches!(from_fields(&f(&[])), Err(DecodeError::MissingId)));
    assert!(matches!(from_fields(&f(&[("id", "nope")])), Err(DecodeError::InvalidId)));
    let id = ("id", "550e8400-e29b-41d4-a716-446655440000");
    assert!(matches!(from_fields(&f(&[id])), Err(DecodeError::MissingDeviceCode)));
    let base = [id, ("deviceCode", "d"), ("userCode", "u"), ("clientId", "c"), ("status", "pending")];
    assert!(matches!(from_fields(&f(&base)), Err(DecodeError::InvalidExpiresAt)));
    let mut whole = base.to_vec();
    whole.push(("expiresAt", "2022-09-11T18:34:48"));
    whole.push(("userId", "garbage"));
    let a = from_fields(&f(&whole)).ok().unwrap();
    assert_eq!(a.expires_at, 1_662_921_288_000_000);
    assert_eq!(a.user_id, None);
    assert_eq!(a.scope, None);
}

#[test]
fn storage_lifetime() {
    assert_eq!(storage_ttl(10_000_000, 0), Some(10));
    assert_eq!(storage_ttl(999_999, 0), None);
    assert_eq!(storage_ttl(0, 5), None);
}

#[test]
fn user_codes_spell_their_alphabet_positions() {
    assert_eq!(user_code_from_indices(&vec![0, 1, 2, 3, 4, 5, 6, 7]), "BCDF-GHJK");
    assert_eq!(user_code_from_indices(&vec![27; 8]), "9999-9999");
    assert_eq!(user_code_from_indices(&vec![20, 21, 22, 23, 0, 0, 0, 1]), "2345-BBBC");
}
