//! Refresh tokens as stored: only a hash of the raw token is kept.

use vstd::prelude::*;

verus! {

pub struct RefreshToken {
    pub id: u128,
    pub user_id: u128,
    /// The owning client's row id.
    pub client_id: u128,
    pub session_id: u128,
    pub token_hash: String,
    pub expires_at: Option<i64>,
    pub revoked: bool,
    pub created_at: i64,
}

} // verus!
