use auth_server::oauth::authorize::claims::ClaimsRequest;
use auth_server::password::flow::{
    change_check, credential_secret_parts, sessions_to_end_after_change, is_weak_password, new_password_reset, redeem_reset, reset_account, reset_token_hash,
    reset_lookup, reset_precheck, rotated_credential, AccountLookup, ChangeError, ResetError,
};
use auth_server::password::model::PasswordReset;
use auth_server::password::resource::{change_reply, first_non_blank, forgot_password_reply, reset_reply, PasswordReply};
use auth_server::role::{check_new_parent, effective_role_names, Role, RoleError};
use auth_server::session::model::{SessionSnapshot, SessionWithUser, UserSession};
use auth_server::session::repository::{
    bulk_invalidation_verdict, selective_invalidation_verdict, token_cache_hash, SessionRepositoryError,
};
use auth_server::session::service::{cache_ttl_seconds, is_usable, new_session, token_worth_lookup};
use auth_server::signup::dto::{SignupError, SignupRequest, VerifyEmailError};
use auth_server::signup::flow::{
    check_verification, map_unique_or_internal, new_email_verification, new_user, verification_token_hash, password_credential, signup_error_for_code,
    signup_success, uniqueness_conflict, validate_signup, verify_email_precheck,
};
use auth_server::signup::model::EmailVerification;
use auth_server::signup::resource::{signup_error_reply, verify_email_error_reply};
use auth_server::user::{email_lookup_key, username_lookup_key, Credential, User};
use auth_server::common::crypto::{sha256_base64_url, HmacSha256};

fn request(email: Option<&str>, password: Option<&str>, username: Option<&str>) -> SignupRequest {
    SignupRequest {
        email: email.map(|s| s.to_string()),
        password: password.map(|s| s.to_string()),
        username: username.map(|s| s.to_string()),
        first_name: Some("Ada".to_string()),
        last_name: None,
    }
}

fn invalid(r: Result<auth_server::signup::flow::ValidSignup, SignupError>) -> &'static str {
    match r {
        Err(SignupError::InvalidRequest(d)) => d,
        _ => panic!("expected invalid_request"),
    }
}

#[test]
fn signup_validation() {
    assert_eq!(invalid(validate_signup(&request(None, Some("longenough"), Some("ada")))), "email, password, username are required");
    assert_eq!(invalid(validate_signup(&request(Some("a@b.c"), Some("   "), Some("ada")))), "email, password, username are required");
    assert_eq!(invalid(validate_signup(&request(Some("a@b.c"), Some("short"), Some("ada")))), "password must be at least 8 characters");
    assert_eq!(invalid(validate_signup(&request(Some("a@b.c"), Some("ééé"), Some("ada")))), "password must be at least 8 characters");
    let ok = validate_signup(&request(Some("  Ada@Example.COM "), Some("éééé"), Some("ada"))).ok().unwrap();
    assert_eq!(ok.email, "ada@example.com");
    assert_eq!(ok.password, "éééé");
    let u = new_user(5, &ok, &request(None, None, None), 77);
    assert_eq!((u.email.as_str(), u.email_verified, u.enabled, u.first_name.as_deref()), ("ada@example.com", false, true, Some("Ada")));
    let c = password_credential(6, 5, "s".to_string(), "d".to_string(), 77);
    assert_eq!((c.credential_type.as_str(), c.user_id), ("password", 5));
}

#[test]
fn signup_conflicts_and_errors() {
    assert!(matches!(uniqueness_conflict(true, true), Some(SignupError::Conflict("email already registered"))));
    assert!(matches!(uniqueness_conflict(false, true), Some(SignupError::Conflict("username already taken"))));
    assert!(uniqueness_conflict(false, false).is_none());
    assert!(matches!(signup_error_for_code(Some("23505")), SignupError::Conflict("email or username already registered")));
    assert!(matches!(signup_error_for_code(Some("23503")), SignupError::InvalidRequest("internal")));
    assert!(matches!(signup_error_for_code(None), SignupError::InvalidRequest("internal")));
    let r = signup_error_reply(&SignupError::Conflict("x"));
    assert_eq!((r.status, r.error, r.error_description), (409, "conflict", "x"));
    let r = verify_email_error_reply(&VerifyEmailError::InvalidToken("y"));
    assert_eq!((r.status, r.error), (400, "invalid_token"));
    let s = signup_success(0x11, "tok".to_string());
    assert_eq!(s.user_id, "00000000-0000-0000-0000-000000000011");
}

fn verification(consumed: Option<i64>) -> EmailVerification {
    EmailVerification { id: 1, user_id: 2, token_hash: "h".to_string(), expires_at: 100, consumed_at: consumed, created_at: 0 }
}

#[test]
fn email_verification() {
    assert!(matches!(verify_email_precheck(" "), Some(VerifyEmailError::InvalidRequest("token is required"))));
    assert!(verify_email_precheck("t").is_none());
    assert!(matches!(check_verification(None, 0), Err(VerifyEmailError::InvalidToken("verification token not found"))));
    assert!(matches!(check_verification(Some(&verification(Some(5))), 0), Err(VerifyEmailError::InvalidToken("verification token already used"))));
    assert!(matches!(check_verification(Some(&verification(None)), 101), Err(VerifyEmailError::InvalidToken("verification token expired"))));
    assert_eq!(check_verification(Some(&verification(None)), 100).ok(), Some((2, 1)));
    let hmac = HmacSha256::new(b"key".to_vec());
    let v = new_email_verification(1, 2, "raw", &hmac, 0);
    assert_eq!(v.expires_at, 24 * 3_600_000_000);
    assert_eq!(v.token_hash, verification_token_hash(&hmac, "raw"));
}

fn user(enabled: bool) -> User {
    User {
        id: 9,
        email: "a@b.c".to_string(),
        email_verified: false,
        username: "a".to_string(),
        first_name: None,
        last_name: None,
        enabled,
        created_at: 0,
        updated_at: 0,
    }
}

#[test]
fn password_reset() {
    assert!(matches!(reset_lookup("  "), AccountLookup::Nothing));
    assert!(matches!(reset_lookup(" a@b.c "), AccountLookup::ByEmail(s) if s == "a@b.c"));
    assert!(matches!(reset_lookup(" alice "), AccountLookup::ByUsernameThenEmail(s) if s == "alice"));
    assert_eq!(reset_account(Some(&user(true))), Some(9));
    assert_eq!(reset_account(Some(&user(false))), None);
    assert_eq!(reset_account(None), None);
    let hmac = HmacSha256::new(b"key".to_vec());
    let r = new_password_reset(1, 9, "raw", &hmac, 0);
    assert_eq!(r.expires_at, 30 * 60_000_000);
    assert_eq!(r.token_hash, reset_token_hash(&hmac, "raw"));
    assert_eq!(r.token_hash, hmac.compute("raw"));
    assert!(matches!(reset_precheck("tok", "short"), Some(ResetError::WeakPassword)));
    assert!(matches!(reset_precheck(" ", "long enough"), Some(ResetError::InvalidToken)));
    assert!(reset_precheck("tok", "long enough").is_none());
    let fresh = PasswordReset { id: 1, user_id: 9, token_hash: "h".to_string(), expires_at: 100, consumed_at: None, created_at: 0 };
    assert_eq!(redeem_reset(Some(&fresh), 100).ok(), Some((9, 1)));
    assert!(matches!(redeem_reset(Some(&fresh), 101), Err(ResetError::InvalidToken)));
    let used = PasswordReset { consumed_at: Some(1), ..fresh };
    assert!(matches!(redeem_reset(Some(&used), 0), Err(ResetError::InvalidToken)));
    assert!(matches!(redeem_reset(None, 0), Err(ResetError::InvalidToken)));
    assert!(is_weak_password("1234567"));
    assert!(!is_weak_password("12345678"));
}

fn credential() -> Credential {
    Credential {
        id: 3,
        credential_type: "password".to_string(),
        secret_data: Some("old".to_string()),
        credential_data: None,
        created_at: 1,
        updated_at: 1,
        user_id: 9,
    }
}

#[test]
fn password_change() {
    let c = credential();
    assert!(matches!(change_check("short", true, Some(&c), true), Err(ChangeError::WeakPassword)));
    assert!(matches!(change_check("long enough", false, Some(&c), true), Err(ChangeError::WrongPassword)));
    assert!(matches!(change_check("long enough", true, None, true), Err(ChangeError::WrongPassword)));
    assert!(matches!(change_check("long enough", true, Some(&c), false), Err(ChangeError::WrongPassword)));
    assert!(change_check("long enough", true, Some(&c), true).is_ok());
    assert_eq!(credential_secret_parts(&c), ("old".to_string(), String::new()));
    let (updated, fresh) = rotated_credential(Some(credential()), 99, 9, "s".to_string(), "d".to_string(), 5);
    assert!(!fresh);
    assert_eq!((updated.id, updated.created_at, updated.updated_at), (3, 1, 5));
    let (created, fresh) = rotated_credential(None, 99, 9, "s".to_string(), "d".to_string(), 5);
    assert!(fresh);
    assert_eq!((created.id, created.credential_type.as_str(), created.user_id), (99, "password", 9));
}

#[test]
fn password_endpoint_replies() {
    let body = vec![
        ("email".to_string(), "  ".to_string()),
        ("nim".to_string(), "123".to_string()),
        ("identifier".to_string(), "".to_string()),
    ];
    assert_eq!(first_non_blank(&body, &["identifier", "email", "nim", "nip"]), Some("123".to_string()));
    assert_eq!(first_non_blank(&body, &["identifier", "email"]), None);
    assert!(matches!(reset_reply(&Ok(())), PasswordReply::Message(200, "password updated")));
    assert!(matches!(reset_reply(&Err(ResetError::WeakPassword)), PasswordReply::Error(400, "weak_password")));
    assert!(matches!(change_reply(&Err(ChangeError::WrongPassword)), PasswordReply::Error(400, "wrong_password")));
    let f = forgot_password_reply(None);
    assert_eq!(f.message, "if the account exists, a reset token has been issued");
    assert!(f.reset_token.is_none());
}

#[test]
fn email_keys() {
    assert_eq!(email_lookup_key("  Alice@Example.com "), Some("alice@example.com".to_string()));
    assert_eq!(email_lookup_key("   "), None);
}

fn with_user(expires_at: Option<i64>, enabled: bool) -> SessionWithUser {
    SessionWithUser {
        session: UserSession {
            id: 1,
            user_id: 2,
            session_token: "secret-token".to_string(),
            ip_address: Some("10.0.0.1".to_string()),
            user_agent: None,
            expires_at,
            last_accessed_at: Some(5),
            created_at: 3,
        },
        user_email: "a@b.c".to_string(),
        user_username: "a".to_string(),
        user_email_verified: true,
        user_enabled: enabled,
    }
}

#[test]
fn sessions() {
    assert!(!token_worth_lookup("  "));
    assert!(token_worth_lookup("tok"));
    assert!(is_usable(&with_user(Some(10), true), 10));
    assert!(!is_usable(&with_user(Some(10), true), 11));
    assert!(!is_usable(&with_user(None, false), 0));
    assert_eq!(cache_ttl_seconds(Some(10_500_000), 0), Some(10));
    assert_eq!(cache_ttl_seconds(Some(0), 0), None);
    assert_eq!(cache_ttl_seconds(None, 0), None);
    let s = new_session(2, None, None, 0);
    assert_eq!(s.expires_at, Some(8 * 3600 * 1_000_000));
    assert_eq!(s.session_token.len(), 43);
    let snap = SessionSnapshot::from_session_with_user(&with_user(Some(10), true));
    let back = snap.into_session_with_user();
    assert_eq!(back.session.session_token, "");
    assert_eq!(back.session.ip_address.as_deref(), Some("10.0.0.1"));
    assert_eq!(back.session.last_accessed_at, None);
    assert_eq!(token_cache_hash(""), None);
    assert_eq!(token_cache_hash("tok"), Some(sha256_base64_url("tok")));
    assert!(bulk_invalidation_verdict(0).is_ok());
    assert!(matches!(bulk_invalidation_verdict(3), Err(SessionRepositoryError::RedisUnavailable(m)) if m == "bulk invalidation failed: 3 keys"));
    assert!(matches!(selective_invalidation_verdict(1), Err(SessionRepositoryError::RedisUnavailable(m)) if m == "selective invalidation failed: 1 keys"));
}

fn role(id: u128, name: &str, parent: Option<u128>) -> Role {
    Role { id, name: name.to_string(), description: None, parent_id: parent, created_at: 0 }
}

#[test]
fn roles_inherit_their_ancestors_once() {
    let all = vec![role(1, "admin", Some(2)), role(2, "staff", Some(3)), role(3, "user", None), role(4, "auditor", Some(3))];
    let names = effective_role_names(&vec![role(1, "admin", Some(2)), role(4, "auditor", Some(3))], &all);
    assert_eq!(names, vec!["admin", "auditor", "staff", "user"]);
    let repeated = effective_role_names(&vec![role(2, "staff", Some(3)), role(1, "admin", Some(2))], &all);
    assert_eq!(repeated, vec!["staff", "admin", "user"]);
    let looped = vec![role(1, "a", Some(2)), role(2, "b", Some(1))];
    assert_eq!(effective_role_names(&vec![role(1, "a", Some(2))], &looped), vec!["a", "b"]);
}

#[test]
fn role_parents_cannot_form_cycles() {
    let rows = vec![(1u128, Some(2u128)), (2, Some(3)), (3, None)];
    assert!(matches!(check_new_parent(3, Some(3), &rows), Err(RoleError::Cycle(m)) if m == "role cannot be its own parent"));
    assert!(matches!(check_new_parent(3, Some(1), &rows), Err(RoleError::Cycle(m)) if m == "cycle detected in role hierarchy"));
    assert!(check_new_parent(1, Some(3), &rows).is_ok());
    assert!(check_new_parent(1, None, &rows).is_ok());
}

#[test]
fn claims_parameter() {
    let cr = ClaimsRequest::parse(Some(r#"{"id_token": {"email": null}, "userinfo": {"name": null}}"#));
    assert!(cr.id_token_claims().contains("email"));
    assert!(!cr.id_token_claims().contains("name"));
    assert!(cr.userinfo_claims().contains("name"));
    assert!(!cr.is_empty());
    assert!(ClaimsRequest::parse(Some("not json")).is_empty());
    assert!(ClaimsRequest::parse(Some("   ")).is_empty());
    assert!(ClaimsRequest::parse(None).is_empty());
    assert!(ClaimsRequest::parse(Some("[1, 2]")).is_empty());
}

#[test]
fn store_failures_without_a_sqlstate_are_internal() {
    assert!(matches!(map_unique_or_internal(&sqlx::Error::RowNotFound), SignupError::InvalidRequest("internal")));
    assert!(matches!(
        map_unique_or_internal(&sqlx::Error::Protocol("boom".to_string())),
        SignupError::InvalidRequest("internal")
    ));
}

#[test]
fn usernames_are_stored_and_looked_up_lower_cased() {
    let ok = validate_signup(&request(Some("alice@example.com"), Some("longenough"), Some("  Alice "))).ok().unwrap();
    assert_eq!(ok.username, "alice");
    let u = new_user(5, &ok, &request(None, None, None), 77);
    assert_eq!(u.username, "alice");
    let other = validate_signup(&request(Some("x@example.com"), Some("longenough"), Some("ALICE"))).ok().unwrap();
    assert_eq!(other.username, u.username);
    assert_eq!(username_lookup_key(" Alice"), Some("alice".to_string()));
    assert_eq!(username_lookup_key("   "), None);
}

#[test]
fn password_change_ends_every_other_session() {
    assert_eq!(sessions_to_end_after_change(&vec![1, 2, 3, 2], 2), vec![1, 3]);
    assert_eq!(sessions_to_end_after_change(&vec![7], 7), Vec::<u128>::new());
    assert_eq!(sessions_to_end_after_change(&vec![], 7), Vec::<u128>::new());
    assert_eq!(sessions_to_end_after_change(&vec![4, 5], 9), vec![4, 5]);
}

#[test]
fn verification_token_redeems_once() {
    let hmac = HmacSha256::new(b"key".to_vec());
    let v = new_email_verification(1, 2, "raw", &hmac, 0);
    assert_eq!(v.token_hash, verification_token_hash(&hmac, "raw"));
    assert_ne!(v.token_hash, verification_token_hash(&hmac, "raw2"));
    let t = 24 * 3_600_000_000;
    assert_eq!(check_verification(Some(&v), t).ok(), Some((2, 1)));
    let redeemed = EmailVerification { consumed_at: Some(t), ..v };
    assert!(matches!(
        check_verification(Some(&redeemed), t + 1),
        Err(VerifyEmailError::InvalidToken("verification token already used"))
    ));
}

#[test]
fn fresh_session_usable_until_expiry() {
    let s = new_session(2, None, None, 1_000);
    let found = |at: UserSession| SessionWithUser {
        session: at,
        user_email: "a@b.c".to_string(),
        user_username: "a".to_string(),
        user_email_verified: true,
        user_enabled: true,
    };
    let expiry = 1_000 + 8 * 3600 * 1_000_000;
    let h = found(s);
    assert!(is_usable(&h, 1_000));
    assert!(is_usable(&h, expiry));
    assert!(!is_usable(&h, expiry + 1));
}

#[test]
fn reparenting_refused_exactly_on_the_ancestor_chain() {
    // 1 <- 2 <- 3 (3's parent is 2, 2's parent is 1); 4 stands alone.
    let rows = vec![(1u128, None), (2, Some(1)), (3, Some(2)), (4, None)];
    assert!(check_new_parent(1, Some(3), &rows).is_err());
    assert!(check_new_parent(2, Some(3), &rows).is_err());
    assert!(check_new_parent(1, Some(1), &rows).is_err());
    assert!(check_new_parent(3, Some(1), &rows).is_ok());
    assert!(check_new_parent(4, Some(3), &rows).is_ok());
    assert!(check_new_parent(1, Some(4), &rows).is_ok());
}
