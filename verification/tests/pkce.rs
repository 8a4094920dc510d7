use auth_server::common::crypto::sha256_base64_url;
use auth_server::oauth::pkce::{is_method_supported, verify};

#[test]
fn s256_match() {
    let verifier = "dBjftJeZ4CVP-mB92K27uhbUJU1p1r_wW1gFWFOEjXk";
    let challenge = sha256_base64_url(verifier);
    assert!(verify(verifier, &challenge, "S256"));
    assert!(verify(verifier, &challenge, "s256"));
}

#[test]
fn plain_rejected() {
    assert!(!verify("abc", "abc", "plain"));
    assert!(!is_method_supported(Some("plain")));
}

#[test]
fn unknown_method_rejected() {
    assert!(!verify("abc", "abc", "made-up"));
    assert!(!is_method_supported(Some("HS512")));
    assert!(is_method_supported(Some("S256")));
}

#[test]
fn rfc7636_appendix_b_challenge() {
    let verifier = "dBjftJeZ4CVP-mB92K27uhbUJU1p1r_wW1gFWFOEjXk";
    assert_eq!(sha256_base64_url(verifier), "E9Melhoa2OwvFrEMTJguCHaoeK1t8URWbuGJSstw-cM");
    assert!(verify(verifier, "E9Melhoa2OwvFrEMTJguCHaoeK1t8URWbuGJSstw-cM", "S256"));
}

#[test]
fn wrong_verifier_or_empty_inputs_fail() {
    let challenge = "E9Melhoa2OwvFrEMTJguCHaoeK1t8URWbuGJSstw-cM";
    assert!(!verify("another-verifier", challenge, "S256"));
    assert!(!verify("", challenge, "S256"));
    assert!(!verify("dBjftJeZ4CVP-mB92K27uhbUJU1p1r_wW1gFWFOEjXk", "", "S256"));
}

#[test]
fn method_support_is_exact() {
    assert!(!is_method_supported(None));
    assert!(!is_method_supported(Some("s256")));
    assert!(!is_method_supported(Some("")));
}
