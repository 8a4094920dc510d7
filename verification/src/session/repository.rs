//! The session store's decisions. Sessions are cached under the SHA-256
//! of their token, so the raw token never reaches the cache. Ending
//! sessions drops their cache entries before the rows: if any drop fails
//! the rows are kept and the operation fails, so a deleted session can
//! never still be served from the cache.

use vstd::prelude::*;

use super::model::{SessionWithUser, UserSession};
use crate::common::crypto::{sha256_b64, sha256_base64_url};
use crate::common::text::{nat_decimal, push_decimal};

verus! {

/// Why a session store operation failed.
pub enum SessionRepositoryError {
    Db(sqlx::Error),
    /// The cache could not be reached while ending sessions; the rows were
    /// left in place.
    RedisUnavailable(String),
}

/// The cache key material of a presented token: its URL-safe base64
/// SHA-256; an empty token is never looked up.
pub fn token_cache_hash(session_token: &str) -> (r: Option<String>)
    ensures
        session_token@.len() == 0 ==> r is None,
        session_token@.len() > 0 ==> (r matches Some(h) && h@ == sha256_b64(session_token@)),
{
    if session_token.is_empty() {
        None
    } else {
        Some(sha256_base64_url(session_token))
    }
}

/// The text of a failed invalidation: how many cache entries could not
/// be dropped.
pub open spec fn invalidation_failure(prefix: Seq<char>, failed: nat) -> Seq<char> {
    prefix + nat_decimal(failed) + " keys"@
}

fn failure(prefix: &str, failed: usize) -> (r: SessionRepositoryError)
    ensures
        r matches SessionRepositoryError::RedisUnavailable(m) && m@ == invalidation_failure(prefix@, failed as nat),
{
    let mut m = prefix.to_owned();
    push_decimal(&mut m, failed as u64);
    m.append(" keys");
    SessionRepositoryError::RedisUnavailable(m)
}

/// Whether ending all of a user's sessions may go on to the rows, after
/// `failed` of the cache drops failed.
pub fn bulk_invalidation_verdict(failed: usize) -> (r: Result<(), SessionRepositoryError>)
    ensures
        failed == 0 ==> r is Ok,
        failed > 0 ==> (r matches Err(SessionRepositoryError::RedisUnavailable(m)) && m@ == invalidation_failure(
            "bulk invalidation failed: "@,
            failed as nat,
        )),
{
    if failed == 0 {
        Ok(())
    } else {
        Err(failure("bulk invalidation failed: ", failed))
    }
}

/// As `bulk_invalidation_verdict`, when all sessions but the current one
/// are ended.
pub fn selective_invalidation_verdict(failed: usize) -> (r: Result<(), SessionRepositoryError>)
    ensures
        failed == 0 ==> r is Ok,
        failed > 0 ==> (r matches Err(SessionRepositoryError::RedisUnavailable(m)) && m@ == invalidation_failure(
            "selective invalidation failed: "@,
            failed as nat,
        )),
{
    if failed == 0 {
        Ok(())
    } else {
        Err(failure("selective invalidation failed: ", failed))
    }
}

/// A session read from its row joined with its owner.
pub fn hydrate(
    session: UserSession,
    user_email: String,
    user_username: String,
    user_email_verified: bool,
    user_enabled: bool,
) -> (r: SessionWithUser)
    ensures
        r.session == session,
        r.user_email == user_email,
        r.user_username == user_username,
        r.user_email_verified == user_email_verified,
        r.user_enabled == user_enabled,
{
    SessionWithUser { session, user_email, user_username, user_email_verified, user_enabled }
}

} // verus!
