//! Token revocation (RFC 7009). Only refresh tokens are revoked (access
//! tokens are short-lived JWTs): a `token_type_hint` other than
//! `refresh_token` leaves every token as it is. An unknown token, or one of
//! another client, is answered with success so a caller cannot probe for
//! tokens.

use vstd::prelude::*;

use super::model::RefreshToken;
use crate::client::Client;
use crate::common::text::{opt_str, str_eq};

verus! {

/// A hint that lets a refresh token be revoked: none, or `refresh_token`.
pub open spec fn hint_allows(hint: Option<Seq<char>>) -> bool {
    match hint {
        None => true,
        Some(h) => h == "refresh_token"@,
    }
}

pub fn revocation_hint_allows(token_type_hint: Option<&str>) -> (r: bool)
    ensures
        r == hint_allows(opt_str(token_type_hint)),
{
    proof {
        reveal_strlit("refresh_token");
    }
    match token_type_hint {
        None => true,
        Some(h) => str_eq(h, "refresh_token"),
    }
}

/// Whether the refresh token found under the presented token's hash is to
/// be marked revoked: the hint allows it, the token exists, belongs to the
/// calling client, and is not revoked yet.
pub open spec fn needs_revoking(hint: Option<Seq<char>>, stored: Option<RefreshToken>, client_id: u128) -> bool {
    hint_allows(hint) && (stored matches Some(t) && t.client_id == client_id && !t.revoked)
}

pub fn revocation_needed(token_type_hint: Option<&str>, stored: Option<&RefreshToken>, client: &Client) -> (r: bool)
    ensures
        r == needs_revoking(
            opt_str(token_type_hint),
            match stored {
                Some(t) => Some(*t),
                None => None,
            },
            client.id,
        ),
{
    if !revocation_hint_allows(token_type_hint) {
        return false;
    }
    match stored {
        Some(t) => t.client_id == client.id && !t.revoked,
        None => false,
    }
}

/// Revocation touches only the caller's own live refresh token, and only
/// when the hint is absent or names a refresh token: a hint such as
/// `access_token` leaves every token as it is, another client's token is
/// never revoked, and a revoked one is left alone.
pub proof fn law_revocation_only_of_own_refresh_tokens(hint: Option<Seq<char>>, stored: Option<RefreshToken>, client_id: u128)
    ensures
        needs_revoking(hint, stored, client_id) ==> (hint is None || hint == Some("refresh_token"@)),
        needs_revoking(hint, stored, client_id) ==> (stored matches Some(t) && t.client_id == client_id
            && !t.revoked),
        (hint matches Some(h) && h != "refresh_token"@) ==> !needs_revoking(hint, stored, client_id),
{
}

} // verus!
