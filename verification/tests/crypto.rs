use auth_server::common::crypto::{random_url_safe, sha256_base64_url, HmacSha256};
use auth_server::oauth::authorize::request_object::verify_hs256;

#[test]
fn sha256_of_abc_matches_fips_vector() {
    // SHA-256("abc") = ba7816bf...f20015ad, written here in unpadded base64url.
    assert_eq!(sha256_base64_url("abc"), "ungWv48Bz-pBQUDeXa4iI7ADYaOWF3qctBD_YfIAFa0");
    assert_eq!(sha256_base64_url(""), "47DEQpj8HBSa-_TImW-5JCeuQeRkm5NMpJWZG3hSuFU");
}

#[test]
fn hmac_matches_rfc4231_case_2() {
    // HMAC-SHA-256("Jefe", ...) = 5bdcc146...64ec3843, in unpadded base64url.
    let keyed = HmacSha256::new(b"Jefe".to_vec());
    assert_eq!(keyed.compute("what do ya want for nothing?"), "W9zBRr9gdU5qBCQmCJV1x1oAPwidJzmDnexYuWTsOEM");
    let other = HmacSha256::new(b"jefe".to_vec());
    assert_ne!(other.compute("what do ya want for nothing?"), keyed.compute("what do ya want for nothing?"));
}

#[test]
fn signatures_are_decoded_strictly_and_compared_whole() {
    let sig = "j-64Xf4O5ZEXP-qQsHKDtNnvAIHe3v1wxoNRgirN2JQ";
    assert!(verify_hs256("a.b", sig, "k"));
    // Padding and the standard alphabet are not base64url without padding.
    assert!(!verify_hs256("a.b", "j-64Xf4O5ZEXP-qQsHKDtNnvAIHe3v1wxoNRgirN2JQ=", "k"));
    assert!(!verify_hs256("a.b", "j+64Xf4O5ZEXP+qQsHKDtNnvAIHe3v1wxoNRgirN2JQ", "k"));
    // One character off, a prefix, another key, another input.
    assert!(!verify_hs256("a.b", "k-64Xf4O5ZEXP-qQsHKDtNnvAIHe3v1wxoNRgirN2JQ", "k"));
    assert!(!verify_hs256("a.b", "j-64Xf4O5ZEXP-qQsHKDtNnvAIHe3v1wxoNRgirN", "k"));
    assert!(!verify_hs256("a.b", sig, "K"));
    assert!(!verify_hs256("a.c", sig, "k"));
}

#[test]
fn random_values_have_the_promised_shape() {
    let t = random_url_safe(32);
    assert_eq!(t.len(), 43);
    assert!(t.chars().all(|c| c.is_ascii_alphanumeric() || c == '-' || c == '_'));
    assert_eq!(random_url_safe(1).len(), 2);
    assert_eq!(random_url_safe(3).len(), 4);
    assert_ne!(random_url_safe(32), random_url_safe(32));
}
