use auth_server::client::Client;
use auth_server::oauth::consent::model::{PendingAuthorization, UserConsent};
use auth_server::oauth::consent::pending_store::{pending_ttl, unexpired, PendingTtl};
use auth_server::oauth::consent::resource::{
    approves, client_display_name, client_initial, consent_gate, consent_page, deny_location, failure_text,
    not_found_page, redirect_host, user_label, ConsentGate,
};
use auth_server::oauth::consent::service::{granted_scope_text, has_consent, new_consent, widened_consent};
use auth_server::session::model::{SessionWithUser, UserSession};

fn consent(scopes: &str) -> UserConsent {
    UserConsent { id: 1, user_id: 2, client_id: 3, scopes: scopes.to_string(), granted_at: 10, updated_at: 10 }
}

fn pending(state: Option<&str>, redirect: &str) -> PendingAuthorization {
    PendingAuthorization {
        request_id: "req-1".to_string(),
        session_id: 0x22,
        user_id: 0x11,
        client_id: "app".to_string(),
        redirect_uri: redirect.to_string(),
        response_type: "code".to_string(),
        scope: Some("profile openid email".to_string()),
        state: state.map(|s| s.to_string()),
        nonce: None,
        prompt: None,
        max_age: None,
        code_challenge: None,
        code_challenge_method: None,
        claims_requested: None,
        expires_at: 100,
    }
}

fn session(id: u128, email: &str) -> SessionWithUser {
    SessionWithUser {
        session: UserSession {
            id,
            user_id: 0x11,
            session_token: "t".to_string(),
            ip_address: None,
            user_agent: None,
            expires_at: None,
            last_accessed_at: None,
            created_at: 0,
        },
        user_email: email.to_string(),
        user_username: "alice".to_string(),
        user_email_verified: true,
        user_enabled: true,
    }
}

#[test]
fn recorded_consent_covers_requests_within_it() {
    assert!(has_consent(Some("openid email"), Some(&consent("email openid profile"))));
    assert!(!has_consent(Some("openid admin"), Some(&consent("email openid profile"))));
    assert!(!has_consent(Some("openid"), None));
    assert!(has_consent(None, None));
    assert!(has_consent(Some("  "), None));
}

#[test]
fn granting_merges_and_sorts() {
    assert_eq!(granted_scope_text(Some("openid,email"), None), "email openid");
    assert_eq!(granted_scope_text(Some("profile"), Some(&consent("openid email"))), "email openid profile");
    assert_eq!(granted_scope_text(None, Some(&consent("openid"))), "openid");
    let text = granted_scope_text(Some("profile admin"), Some(&consent("openid")));
    assert!(has_consent(Some("admin openid"), Some(&consent(&text))));
    let c = new_consent(2, 3, "openid".to_string(), 50);
    assert_eq!((c.user_id, c.client_id, c.granted_at, c.updated_at), (2, 3, 50, 50));
    let w = widened_consent(consent("openid"), "email openid".to_string(), 60);
    assert_eq!((w.id, w.granted_at, w.updated_at, w.scopes.as_str()), (1, 10, 60, "email openid"));
}

#[test]
fn gate_and_answer() {
    let p = pending(None, "https://app/cb");
    assert!(matches!(consent_gate(None, Some(&p)), ConsentGate::Login));
    assert!(matches!(consent_gate(Some(&session(0x22, "")), None), ConsentGate::NotFound));
    assert!(matches!(consent_gate(Some(&session(0x99, "")), Some(&p)), ConsentGate::SessionMismatch));
    assert!(matches!(consent_gate(Some(&session(0x22, "")), Some(&p)), ConsentGate::Proceed));
    assert!(approves(Some("allow")));
    assert!(approves(Some("ALLOW")));
    assert!(!approves(Some("deny")));
    assert!(!approves(None));
}

#[test]
fn denial_goes_back_to_the_client() {
    assert_eq!(
        deny_location(&pending(Some("xyz 1"), "https://app/cb")),
        "https://app/cb?error=access_denied&error_description=user%20denied%20consent&state=xyz%201"
    );
    assert_eq!(
        deny_location(&pending(Some(""), "https://app/cb?a=b")),
        "https://app/cb?a=b&error=access_denied&error_description=user%20denied%20consent"
    );
}

#[test]
fn page_contents() {
    assert_eq!(redirect_host("https://app.example.com/cb?x=1"), "https://app.example.com");
    assert_eq!(redirect_host("http://localhost:8080/cb"), "http://localhost:8080");
    assert_eq!(redirect_host("https://app.example.com:443/cb"), "https://app.example.com");
    assert_eq!(redirect_host("not a url"), "not a url");
    assert_eq!(redirect_host(""), "");
    assert_eq!(client_initial("app"), "A");
    assert_eq!(client_initial("Écran"), "É");
    assert_eq!(client_initial(""), "?");
    let named = Client {
        id: 1,
        client_id: "app".to_string(),
        name: Some("Photo App".to_string()),
        client_type: None,
        client_secret: None,
        scopes: None,
        enabled: true,
        pkce_required: false,
        frontchannel_logout_uri: None,
        backchannel_logout_uri: None,
    };
    assert_eq!(client_display_name(Some(&named), "app"), "Photo App");
    assert_eq!(client_display_name(None, "app"), "app");
    assert_eq!(user_label(&session(1, "a@b.c")), "a@b.c");
    assert_eq!(user_label(&session(1, "")), "alice");
    let page = consent_page(&pending(None, "https://app/cb"), Some(&named), &session(0x22, ""));
    assert_eq!(page.scopes, vec!["email", "openid", "profile"]);
    assert_eq!((page.client_initial.as_str(), page.redirect_host.as_str()), ("P", "https://app"));
    assert!(page.error.is_none());
    let nf = not_found_page();
    assert_eq!(nf.error.as_deref(), Some("Consent request not found or expired."));
    assert_eq!(nf.client_initial, "?");
    assert_eq!(failure_text(&Some("invalid_request".to_string()), &None), "invalid_request: ");
}

#[test]
fn parked_requests_expire() {
    assert!(matches!(pending_ttl(10_000_000, 0, 600), PendingTtl::Seconds(10)));
    assert!(matches!(pending_ttl(0, 5_000_000, 600), PendingTtl::Seconds(600)));
    assert!(matches!(pending_ttl(1_000_000, 5_000_000, 600), PendingTtl::Skip));
    assert!(unexpired(Some(pending(None, "u")), 100).is_some());
    assert!(unexpired(Some(pending(None, "u")), 101).is_none());
}
