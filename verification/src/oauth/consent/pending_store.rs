//! Authorizations parked for the consent screen live in the cache until
//! they expire, and are taken (read and deleted at once) when answered so
//! a double submit cannot issue two codes.

use vstd::prelude::*;

use super::model::PendingAuthorization;
use crate::common::time::{secs_between, seconds_between};

verus! {

/// How long a parked authorization is kept.
pub enum PendingTtl {
    Seconds(u64),
    /// Already expired: not stored.
    Skip,
}

/// The seconds left until `expires_at`; an unset expiry (the epoch) gets
/// the store's default.
pub fn pending_ttl(expires_at: i64, now: i64, default_ttl_seconds: u64) -> (r: PendingTtl)
    ensures
        seconds_between(expires_at as int, now as int) > 0 ==> r == PendingTtl::Seconds(
            seconds_between(expires_at as int, now as int) as u64,
        ),
        seconds_between(expires_at as int, now as int) <= 0 && expires_at == 0 ==> r == PendingTtl::Seconds(
            default_ttl_seconds,
        ),
        seconds_between(expires_at as int, now as int) <= 0 && expires_at != 0 ==> r is Skip,
{
    let ttl = secs_between(expires_at, now);
    if ttl > 0 {
        PendingTtl::Seconds(ttl as u64)
    } else if expires_at == 0 {
        PendingTtl::Seconds(default_ttl_seconds)
    } else {
        PendingTtl::Skip
    }
}

/// A parked authorization read back is only used before it expires.
pub fn unexpired(p: Option<PendingAuthorization>, now: i64) -> (r: Option<PendingAuthorization>)
    ensures
        match p {
            Some(x) => if x.expires_at < now {
                r is None
            } else {
                r == Some(x)
            },
            None => r is None,
        },
{
    match p {
        Some(x) => if x.expires_at < now {
            None
        } else {
            Some(x)
        },
        None => None,
    }
}

} // verus!
