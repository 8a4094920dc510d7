//! Session issuance and the checks on a presented session token.

use vstd::prelude::*;

use super::model::{SessionWithUser, UserSession};
use crate::common::crypto::{new_uuid, random_url_safe, base64url};
use crate::common::text::{is_blank, lemma_trim_empty_iff_blank, trim_str};
use crate::common::time::{plus_seconds, seconds_between, secs_between};

verus! {

/// Sessions last eight hours.
pub const SESSION_TTL_HOURS: i64 = 8;

/// A token worth looking up: not blank.
pub fn token_worth_lookup(session_token: &str) -> (r: bool)
    ensures
        r == !is_blank(session_token@),
{
    let t = trim_str(session_token);
    proof { lemma_trim_empty_iff_blank(session_token@); }
    t.unicode_len() > 0
}

/// A found session is usable when it has not expired and its user is
/// enabled.
pub open spec fn session_usable(s: SessionWithUser, now: int) -> bool {
    &&& !(s.session.expires_at matches Some(e) && e < now)
    &&& s.user_enabled
}

pub fn is_usable(s: &SessionWithUser, now: i64) -> (r: bool)
    ensures
        r == session_usable(*s, now as int),
{
    if let Some(exp) = s.session.expires_at {
        if exp < now {
            return false;
        }
    }
    s.user_enabled
}

/// Seconds a cache entry for a session expiring at `expires_at` may live,
/// when positive.
pub fn cache_ttl_seconds(expires_at: Option<i64>, now: i64) -> (r: Option<u64>)
    ensures
        match expires_at {
            None => r is None,
            Some(e) => if seconds_between(e as int, now as int) > 0 {
                r == Some(seconds_between(e as int, now as int) as u64)
            } else {
                r is None
            },
        },
{
    match expires_at {
        None => None,
        Some(e) => {
            let ttl = secs_between(e, now);
            if ttl > 0 {
                Some(ttl as u64)
            } else {
                None
            }
        },
    }
}

/// A fresh session for `user_id`: new id, a random 32-byte token,
/// expiring eight hours from `now`, last accessed now.
pub fn new_session(user_id: u128, ip_address: Option<String>, user_agent: Option<String>, now: i64) -> (r: UserSession)
    requires
        now + SESSION_TTL_HOURS * 3600 * 1_000_000 <= i64::MAX,
    ensures
        r.user_id == user_id,
        exists|b: Seq<u8>| b.len() == 32 && r.session_token@ == base64url(b),
        r.ip_address == ip_address,
        r.user_agent == user_agent,
        r.expires_at == Some((now + SESSION_TTL_HOURS * 3600 * 1_000_000) as i64),
        r.last_accessed_at == Some(now),
        r.created_at == now,
{
    UserSession {
        id: new_uuid(),
        user_id,
        session_token: random_url_safe(32),
        ip_address,
        user_agent,
        expires_at: Some(plus_seconds(now, SESSION_TTL_HOURS * 3600)),
        last_accessed_at: Some(now),
        created_at: now,
    }
}

/// A fresh session is usable until it expires, and not after. A session
/// as `new_session` makes it at `created` (expiring
/// `SESSION_TTL_HOURS` later), found for an enabled user, passes
/// `is_usable` at every instant up to its expiry and fails it after.
pub proof fn law_fresh_session_usable_until_expiry(found: SessionWithUser, created: int, now: int)
    requires
        found.session.expires_at == Some((created + SESSION_TTL_HOURS * 3600 * 1_000_000) as i64),
        created + SESSION_TTL_HOURS * 3600 * 1_000_000 <= i64::MAX,
        i64::MIN <= created,
        found.user_enabled,
    ensures
        now <= created + SESSION_TTL_HOURS * 3600 * 1_000_000 ==> session_usable(found, now),
        now > created + SESSION_TTL_HOURS * 3600 * 1_000_000 ==> !session_usable(found, now),
{
}

} // verus!
