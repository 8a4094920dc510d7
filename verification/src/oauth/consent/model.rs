//! A user's standing consent for a client, and an authorization request
//! parked while the user is on the consent screen.

use vstd::prelude::*;

verus! {

pub struct UserConsent {
    pub id: u128,
    pub user_id: u128,
    pub client_id: u128,
    /// Granted scopes, sorted and space-separated.
    pub scopes: String,
    pub granted_at: i64,
    pub updated_at: i64,
}

pub struct PendingAuthorization {
    pub request_id: String,
    pub session_id: u128,
    pub user_id: u128,
    pub client_id: String,
    pub redirect_uri: String,
    pub response_type: String,
    pub scope: Option<String>,
    pub state: Option<String>,
    pub nonce: Option<String>,
    pub prompt: Option<String>,
    pub max_age: Option<i64>,
    pub code_challenge: Option<String>,
    pub code_challenge_method: Option<String>,
    pub claims_requested: Option<String>,
    pub expires_at: i64,
}

} // verus!
