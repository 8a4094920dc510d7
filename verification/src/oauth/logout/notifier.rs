//! Back-channel logout (OIDC Back-Channel Logout 1.0): each involved
//! client with a registered back-channel URI is sent a signed
//! `logout_token` naming the user and the session, only at an `http` or
//! `https` URI. Delivery is fire and forget; a failure never fails the
//! user's logout.

use vstd::prelude::*;

use crate::client::Client;
use crate::common::ids::{uuid_hyphenated, uuid_text};
use crate::common::text::{opt_string, starts_with_ignore_ascii_case, starts_with_ignore_ascii_case_spec};

verus! {

/// A URI with the `http` or `https` scheme (the scheme compared without
/// case).
pub open spec fn is_http_uri(u: Seq<char>) -> bool {
    starts_with_ignore_ascii_case_spec(u, "http://"@) || starts_with_ignore_ascii_case_spec(u, "https://"@)
}

/// The back-channel URI a client is notified at: the one it registered,
/// when that is an `http` or `https` URI. Any other scheme (`file:`,
/// `javascript:`, ...) is never contacted.
pub open spec fn backchannel_uri(c: Client) -> Option<Seq<char>> {
    match c.backchannel_logout_uri {
        Some(u) => if is_http_uri(u@) {
            Some(u@)
        } else {
            None
        },
        None => None,
    }
}

pub fn backchannel_target(client: &Client) -> (r: Option<String>)
    ensures
        opt_string(r) == backchannel_uri(*client),
{
    match &client.backchannel_logout_uri {
        Some(u) => if starts_with_ignore_ascii_case(u.as_str(), "http://") || starts_with_ignore_ascii_case(
            u.as_str(),
            "https://",
        ) {
            Some(u.clone())
        } else {
            None
        },
        None => None,
    }
}

/// What a logout token names: the user (its `sub`, when the session's
/// user is known), the client (`aud`) and the session (`sid`).
pub struct LogoutTokenSubject {
    pub sub: Option<String>,
    pub aud: String,
    pub sid: String,
}

pub fn logout_token_subject(client: &Client, user_id: Option<u128>, session_id: u128) -> (r: LogoutTokenSubject)
    ensures
        opt_string(r.sub) == (match user_id {
            Some(u) => Some(uuid_hyphenated(u)),
            None => None,
        }),
        r.aud@ == client.client_id@,
        r.sid@ == uuid_hyphenated(session_id),
{
    let sub = match user_id {
        Some(u) => Some(uuid_text(u)),
        None => None,
    };
    LogoutTokenSubject { sub, aud: client.client_id.clone(), sid: uuid_text(session_id) }
}

/// Back-channel logout contacts only the URI a client registered, and only
/// when it is an `http` or `https` URI (the scheme in any ASCII case).
pub proof fn law_backchannel_only_to_registered_http_uris(c: Client)
    ensures
        backchannel_uri(c) matches Some(u) ==> (c.backchannel_logout_uri matches Some(reg) && reg@ == u && (
        starts_with_ignore_ascii_case_spec(u, "http://"@) || starts_with_ignore_ascii_case_spec(u, "https://"@))),
        c.backchannel_logout_uri is None ==> backchannel_uri(c) is None,
{
}

} // verus!
