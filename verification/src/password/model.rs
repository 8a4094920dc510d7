//! Password reset tokens as stored: only a keyed hash of the raw token is
//! kept.

use vstd::prelude::*;

verus! {

pub struct PasswordReset {
    pub id: u128,
    pub user_id: u128,
    pub token_hash: String,
    pub expires_at: i64,
    /// When the token was redeemed; a token is redeemed once.
    pub consumed_at: Option<i64>,
    pub created_at: i64,
}

} // verus!
