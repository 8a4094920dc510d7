//! Token introspection (RFC 7662). The caller authenticates as a client;
//! a token that is invalid, expired or issued to another client reads as
//! inactive, so a caller cannot tell "not yours" from "unknown".

use vstd::prelude::*;

use super::result::IntrospectResult;
use crate::client::{authenticate_client, client_authenticates, Client};
use crate::common::text::{opt_str, str_eq};

verus! {

/// Why the introspection or revocation endpoint refuses a caller, if it
/// does: the error and its description.
pub open spec fn endpoint_refusal(
    token: Seq<char>,
    client_id: Seq<char>,
    client: Option<Client>,
    presented_secret: Option<Seq<char>>,
    secret_matches: bool,
) -> Option<(Seq<char>, Seq<char>)> {
    if token.len() == 0 || client_id.len() == 0 {
        Some(("invalid_request"@, "token and client_id are required"@))
    } else if !(client matches Some(c) && c.enabled) {
        Some(("invalid_client"@, "Unknown or disabled client"@))
    } else if !client_authenticates(&client->0, presented_secret, secret_matches) {
        Some(("invalid_client"@, "Invalid client credentials"@))
    } else {
        None
    }
}

/// The refusal, if any, of a caller of the introspection or revocation
/// endpoint. `client` is the client registered under `client_id`;
/// `secret_matches` is the stored-secret check on the presented secret.
pub fn endpoint_client_check(
    token: &str,
    client_id: &str,
    client: Option<&Client>,
    presented_secret: Option<&str>,
    secret_matches: bool,
) -> (r: Option<(&'static str, &'static str)>)
    ensures
        match r {
            None => endpoint_refusal(
                token@,
                client_id@,
                match client {
                    Some(c) => Some(*c),
                    None => None,
                },
                opt_str(presented_secret),
                secret_matches,
            ) is None,
            Some((e, d)) => endpoint_refusal(
                token@,
                client_id@,
                match client {
                    Some(c) => Some(*c),
                    None => None,
                },
                opt_str(presented_secret),
                secret_matches,
            ) == Some((e@, d@)),
        },
{
    if token.is_empty() || client_id.is_empty() {
        return Some(("invalid_request", "token and client_id are required"));
    }
    let c = match client {
        None => return Some(("invalid_client", "Unknown or disabled client")),
        Some(c) => c,
    };
    if !c.enabled {
        return Some(("invalid_client", "Unknown or disabled client"));
    }
    if !authenticate_client(c, presented_secret, secret_matches) {
        return Some(("invalid_client", "Invalid client credentials"));
    }
    None
}

/// The `aud` claim of a validated token, as far as audience matching
/// reads it.
pub enum Audience {
    Absent,
    Null,
    Text(String),
    /// An array; the string elements, `None` for any other element.
    List(Vec<Option<String>>),
    /// Any other JSON value.
    Other,
}

/// The audience names `expected`: it is that string, or an array with
/// that string among its elements.
pub open spec fn audience_holds(aud: Audience, expected: Seq<char>) -> bool {
    match aud {
        Audience::Text(s) => s@ == expected,
        Audience::List(items) => exists|i: int|
            0 <= i < items@.len() && (#[trigger] items@[i] matches Some(s) && s@ == expected),
        _ => false,
    }
}

pub fn audience_matches(aud: &Audience, expected: &str) -> (r: bool)
    ensures
        r == audience_holds(*aud, expected@),
{
    match aud {
        Audience::Text(s) => str_eq(s.as_str(), expected),
        Audience::List(items) => {
            let mut i: usize = 0;
            while i < items.len()
                invariant
                    i <= items@.len(),
                    *aud == Audience::List(*items),
                    forall|j: int| 0 <= j < i ==> !(#[trigger] items@[j] matches Some(s) && s@ == expected@),
                decreases items@.len() - i,
            {
                if let Some(s) = &items[i] {
                    if str_eq(s.as_str(), expected) {
                        assert(items@[i as int] matches Some(x) && x@ == expected@);
                        return true;
                    }
                }
                i = i + 1;
            }
            false
        },
        _ => false,
    }
}

/// The answer to a caller that passed the client checks: active only for
/// a valid token whose audience is the caller.
pub fn introspection_outcome(token_valid: bool, aud: &Audience, client: &Client) -> (r: IntrospectResult)
    ensures
        (token_valid && audience_holds(*aud, client.client_id@)) ==> r is Active,
        !(token_valid && audience_holds(*aud, client.client_id@)) ==> r is Inactive,
{
    if token_valid && audience_matches(aud, client.client_id.as_str()) {
        IntrospectResult::Active
    } else {
        IntrospectResult::Inactive
    }
}

/// A refusal of the introspection endpoint.
pub fn introspection_error(error: &str, description: &str) -> (r: IntrospectResult)
    ensures
        r matches IntrospectResult::Error { error: e, error_description: d } && e@ == error@ && d@ == description@,
{
    IntrospectResult::Error { error: error.to_owned(), error_description: description.to_owned() }
}

/// Only an enabled client that authenticates is admitted to the
/// introspection and revocation endpoints: a caller passes only with a
/// token and a client id, a client registered under it that is enabled,
/// and (for a confidential client) a presented secret that matches. A
/// disabled client is refused as unknown or disabled, whatever it
/// presents.
pub proof fn law_endpoint_admits_only_enabled_clients(
    token: Seq<char>,
    client_id: Seq<char>,
    client: Option<Client>,
    presented_secret: Option<Seq<char>>,
    secret_matches: bool,
)
    ensures
        endpoint_refusal(token, client_id, client, presented_secret, secret_matches) is None ==> (token.len() > 0
            && client_id.len() > 0 && client is Some),
        endpoint_refusal(token, client_id, client, presented_secret, secret_matches) is None ==> (client matches Some(
            c,
        ) ==> (c.enabled && (crate::client::is_confidential(&c) ==> ((presented_secret matches Some(s) && s.len()
            > 0) && secret_matches)))),
        (token.len() > 0 && client_id.len() > 0) ==> (client matches Some(c) ==> (!c.enabled ==> endpoint_refusal(
            token,
            client_id,
            client,
            presented_secret,
            secret_matches,
        ) == Some(("invalid_client"@, "Unknown or disabled client"@)))),
        (token.len() > 0 && client_id.len() > 0 && client is None) ==> endpoint_refusal(
            token,
            client_id,
            client,
            presented_secret,
            secret_matches,
        ) == Some(("invalid_client"@, "Unknown or disabled client"@)),
{
}

/// Introspection reports a token active only to the client it was issued
/// for: the answer is active exactly when the token is valid and its
/// audience is the caller's client id (a string audience equal to it, or
/// an array holding it).
pub proof fn law_introspection_active_only_for_own_tokens(token_valid: bool, aud: Audience, client_id: Seq<char>)
    ensures
        (token_valid && audience_holds(aud, client_id)) <==> (token_valid && match aud {
            Audience::Text(s) => s@ == client_id,
            Audience::List(items) => exists|i: int|
                0 <= i < items@.len() && (#[trigger] items@[i] matches Some(s) && s@ == client_id),
            _ => false,
        }),
        !token_valid ==> !(token_valid && audience_holds(aud, client_id)),
        (aud is Absent || aud is Null || aud is Other) ==> !audience_holds(aud, client_id),
{
}

} // verus!
