//! PKCE (RFC 7636), `S256` only: OAuth 2.0 Security BCP (RFC 9700
//! §2.1.1.1) forbids `plain`. The client sends the SHA-256 of its verifier
//! as the challenge; the token request proves possession of the verifier.

use vstd::prelude::*;

use crate::common::crypto::{ct_eq, sha256_b64, sha256_base64_url};
use crate::common::text::{ascii_lower, opt_str, eq_ignore_ascii_case, eq_ignore_ascii_case_spec, str_eq};

verus! {

/// `code_challenge_method` values accepted at `/authorize` (exactly `S256`).
pub open spec fn method_supported(method: Option<Seq<char>>) -> bool {
    method == Some("S256"@)
}

/// Whether `verifier` answers `challenge` under `method`: both present,
/// the method is `S256` in any ASCII case, and the challenge is the
/// URL-safe base64 SHA-256 of the verifier.
pub open spec fn pkce_holds(verifier: Seq<char>, challenge: Seq<char>, method: Seq<char>) -> bool {
    &&& verifier.len() > 0
    &&& challenge.len() > 0
    &&& eq_ignore_ascii_case_spec(method, "S256"@)
    &&& sha256_b64(verifier) == challenge
}

pub fn is_method_supported(method: Option<&str>) -> (r: bool)
    ensures
        r == method_supported(opt_str(method)),
{
    match method {
        None => false,
        Some(m) => str_eq("S256", m),
    }
}

/// Whether `code_verifier` answers `code_challenge` under `method`. A
/// non-empty verifier always answers the challenge derived from it with
/// `S256` (in any ASCII case).
pub fn verify(code_verifier: &str, code_challenge: &str, method: &str) -> (r: bool)
    ensures
        r == pkce_holds(code_verifier@, code_challenge@, method@),
        code_verifier@.len() > 0 && eq_ignore_ascii_case_spec(method@, "S256"@) ==> pkce_holds(
            code_verifier@,
            sha256_b64(code_verifier@),
            method@,
        ),
{
    if code_verifier.is_empty() {
        return false;
    }
    let computed = sha256_base64_url(code_verifier);
    if code_challenge.is_empty() {
        return false;
    }
    if !eq_ignore_ascii_case(method, "S256") {
        return false;
    }
    let r = ct_eq(computed.as_str().as_bytes(), code_challenge.as_bytes());
    proof {
        vstd::utf8::encode_utf8_decode_utf8(computed@);
        vstd::utf8::encode_utf8_decode_utf8(code_challenge@);
    }
    r
}

/// The `plain` method never verifies, whatever the verifier and challenge.
pub proof fn law_plain_never_verifies(verifier: Seq<char>, challenge: Seq<char>)
    ensures
        !pkce_holds(verifier, challenge, "plain"@),
{
    reveal_strlit("plain");
    reveal_strlit("S256");
    assert(ascii_lower("plain"@[0]) != ascii_lower("S256"@[0]));
}

/// Only `S256` is accepted at `/authorize`: `plain` is not.
pub proof fn law_only_s256_supported(method: Option<Seq<char>>)
    ensures
        method_supported(method) <==> method == Some("S256"@),
        !method_supported(Some("plain"@)),
{
    reveal_strlit("plain");
    reveal_strlit("S256");
    assert("plain"@.len() != "S256"@.len());
}

} // verus!
