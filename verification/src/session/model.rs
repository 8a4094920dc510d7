//! `UserSession` and the cache snapshot, which flattens the owning user's
//! fields next to the session so one cache read serves an auth check.

use vstd::prelude::*;

use crate::common::text::clone_opt;

verus! {

pub struct UserSession {
    pub id: u128,
    pub user_id: u128,
    pub session_token: String,
    pub ip_address: Option<String>,
    pub user_agent: Option<String>,
    pub expires_at: Option<i64>,
    pub last_accessed_at: Option<i64>,
    pub created_at: i64,
}

/// What the session cache holds. The raw session token is left out.
pub struct SessionSnapshot {
    pub id: u128,
    pub user_id: u128,
    pub user_email: String,
    pub user_username: String,
    pub user_email_verified: bool,
    pub user_enabled: bool,
    pub ip_address: Option<String>,
    pub user_agent: Option<String>,
    pub expires_at: Option<i64>,
    pub created_at: i64,
}

/// A session with the owning user's fields inline.
pub struct SessionWithUser {
    pub session: UserSession,
    pub user_email: String,
    pub user_username: String,
    pub user_email_verified: bool,
    pub user_enabled: bool,
}

/// The snapshot cached for a session.
pub open spec fn snapshot_of(s: SessionWithUser) -> SessionSnapshot {
    SessionSnapshot {
        id: s.session.id,
        user_id: s.session.user_id,
        user_email: s.user_email,
        user_username: s.user_username,
        user_email_verified: s.user_email_verified,
        user_enabled: s.user_enabled,
        ip_address: s.session.ip_address,
        user_agent: s.session.user_agent,
        expires_at: s.session.expires_at,
        created_at: s.session.created_at,
    }
}

/// `s` is the session read back from `snap`: every field the snapshot
/// keeps, the token empty and the last access unknown.
pub open spec fn restored_from(s: SessionWithUser, snap: SessionSnapshot) -> bool {
    &&& s.session.id == snap.id
    &&& s.session.user_id == snap.user_id
    &&& s.session.session_token@.len() == 0
    &&& s.session.ip_address == snap.ip_address
    &&& s.session.user_agent == snap.user_agent
    &&& s.session.expires_at == snap.expires_at
    &&& s.session.last_accessed_at is None
    &&& s.session.created_at == snap.created_at
    &&& s.user_email == snap.user_email
    &&& s.user_username == snap.user_username
    &&& s.user_email_verified == snap.user_email_verified
    &&& s.user_enabled == snap.user_enabled
}

impl SessionSnapshot {
    /// The session a snapshot stands for.
    pub fn into_session_with_user(self) -> (r: SessionWithUser)
        ensures
            restored_from(r, self),
    {
        SessionWithUser {
            session: UserSession {
                id: self.id,
                user_id: self.user_id,
                session_token: String::new(),
                ip_address: self.ip_address,
                user_agent: self.user_agent,
                expires_at: self.expires_at,
                last_accessed_at: None,
                created_at: self.created_at,
            },
            user_email: self.user_email,
            user_username: self.user_username,
            user_email_verified: self.user_email_verified,
            user_enabled: self.user_enabled,
        }
    }

    pub fn from_session_with_user(s: &SessionWithUser) -> (r: Self)
        ensures
            r == snapshot_of(*s),
    {
        SessionSnapshot {
            id: s.session.id,
            user_id: s.session.user_id,
            user_email: s.user_email.clone(),
            user_username: s.user_username.clone(),
            user_email_verified: s.user_email_verified,
            user_enabled: s.user_enabled,
            ip_address: clone_opt(&s.session.ip_address),
            user_agent: clone_opt(&s.session.user_agent),
            expires_at: s.session.expires_at,
            created_at: s.session.created_at,
        }
    }
}

/// A session read back from the cache snapshots to the same snapshot:
/// caching is lossless for everything the snapshot keeps.
pub proof fn law_snapshot_round_trip(snap: SessionSnapshot, s: SessionWithUser)
    requires
        restored_from(s, snap),
    ensures
        snapshot_of(s) == snap,
{
}

} // verus!
