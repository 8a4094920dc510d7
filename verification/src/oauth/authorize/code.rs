//! Authorization codes: single-use, short-lived, kept in the cache under
//! the SHA-256 of the raw code so a dump of the store yields no codes.

use vstd::prelude::*;

use crate::common::crypto::{sha256_b64, sha256_base64_url};
use crate::common::time::{seconds_between, secs_between};

verus! {

pub struct AuthorizationCode {
    pub code: String,
    pub client_id: String,
    pub user_id: u128,
    pub session_id: u128,
    pub redirect_uri: String,
    pub scope: Option<String>,
    pub state: Option<String>,
    pub nonce: Option<String>,
    pub code_challenge: Option<String>,
    pub code_challenge_method: Option<String>,
    pub claims_requested: Option<String>,
    pub expires_at: i64,
    pub created_at: Option<i64>,
}

/// The cache key of a code: `authcode:` and the URL-safe base64 SHA-256
/// of the raw code.
pub open spec fn code_key(code: Seq<char>) -> Seq<char> {
    "authcode:"@ + sha256_b64(code)
}

pub fn auth_code_key(code: &str) -> (r: String)
    ensures
        r@ == code_key(code@),
{
    let h = sha256_base64_url(code);
    crate::common::text::concat("authcode:", h.as_str())
}

/// How long a code may stay in the cache: the whole seconds left before
/// it expires, when positive. A code with no time left is not stored.
pub fn store_ttl(code: &AuthorizationCode, now: i64) -> (r: Option<i64>)
    ensures
        seconds_between(code.expires_at as int, now as int) > 0 ==> r == Some(
            seconds_between(code.expires_at as int, now as int) as i64,
        ),
        seconds_between(code.expires_at as int, now as int) <= 0 ==> r is None,
{
    let ttl = secs_between(code.expires_at, now);
    if ttl <= 0 {
        None
    } else {
        Some(ttl)
    }
}

/// A code fetched from the cache is honoured only while unexpired.
pub fn code_unexpired(code: &AuthorizationCode, now: i64) -> (r: bool)
    ensures
        r == !(code.expires_at < now),
{
    !(code.expires_at < now)
}

} // verus!
