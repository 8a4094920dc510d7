//! Accounts and their credentials, as the flows read them.

use vstd::prelude::*;

use crate::common::text::{lowercase_of, to_lowercase, trim, trim_str};

verus! {

pub struct User {
    pub id: u128,
    /// Stored lower-cased.
    pub email: String,
    pub email_verified: bool,
    /// Stored lower-cased.
    pub username: String,
    pub first_name: Option<String>,
    pub last_name: Option<String>,
    pub enabled: bool,
    pub created_at: i64,
    pub updated_at: i64,
}

pub struct Credential {
    pub id: u128,
    /// `password` for a password credential.
    pub credential_type: String,
    pub secret_data: Option<String>,
    pub credential_data: Option<String>,
    pub created_at: i64,
    pub updated_at: i64,
    pub user_id: u128,
}

/// The key an account is looked up by email: the email trimmed and
/// lower-cased (stored emails are lower-cased); `None` when that is
/// empty, and no lookup is made.
pub fn email_lookup_key(email: &str) -> (r: Option<String>)
    ensures
        lowercase_of(trim(email@)).len() == 0 ==> r is None,
        lowercase_of(trim(email@)).len() > 0 ==> (r matches Some(k) && k@ == lowercase_of(trim(email@))),
{
    let t = trim_str(email);
    let k = to_lowercase(t.as_str());
    if k.unicode_len() == 0 {
        None
    } else {
        Some(k)
    }
}

/// The key an account is looked up by username: the username trimmed
/// and lower-cased (stored usernames are lower-cased); `None` when that
/// is empty, and no lookup is made.
pub fn username_lookup_key(username: &str) -> (r: Option<String>)
    ensures
        lowercase_of(trim(username@)).len() == 0 ==> r is None,
        lowercase_of(trim(username@)).len() > 0 ==> (r matches Some(k) && k@ == lowercase_of(trim(username@))),
{
    let t = trim_str(username);
    let k = to_lowercase(t.as_str());
    if k.unicode_len() == 0 {
        None
    } else {
        Some(k)
    }
}

} // verus!
