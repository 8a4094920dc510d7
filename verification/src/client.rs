//! OAuth clients as the flows read them, and client authentication.

use vstd::prelude::*;

use crate::common::text::{opt_str, string_or_empty, eq_ignore_ascii_case, eq_ignore_ascii_case_spec};

verus! {

/// A registered OAuth client.
pub struct Client {
    pub id: u128,
    pub client_id: String,
    pub name: Option<String>,
    /// `confidential` (in any ASCII case) or anything else for public.
    pub client_type: Option<String>,
    /// The stored secret (a hash, or a legacy plaintext value).
    pub client_secret: Option<String>,
    /// Registered scopes, a space- or comma-separated list.
    pub scopes: Option<String>,
    pub enabled: bool,
    pub pkce_required: bool,
    pub frontchannel_logout_uri: Option<String>,
    pub backchannel_logout_uri: Option<String>,
}

/// A confidential client: its type is `confidential`, ASCII case ignored.
pub open spec fn is_confidential(c: &Client) -> bool {
    eq_ignore_ascii_case_spec(string_or_empty(c.client_type), "confidential"@)
}

/// Whether a client authenticates. Public clients always do; a
/// confidential one needs a non-empty presented secret, a stored secret,
/// and the verification of the one against the other (`secret_matches`)
/// passing.
pub open spec fn client_authenticates(
    c: &Client,
    presented: Option<Seq<char>>,
    secret_matches: bool,
) -> bool {
    if !is_confidential(c) {
        true
    } else {
        &&& presented is Some
        &&& presented->0.len() > 0
        &&& c.client_secret is Some
        &&& secret_matches
    }
}

pub fn is_confidential_client(c: &Client) -> (r: bool)
    ensures
        r == is_confidential(c),
{
    match &c.client_type {
        Some(t) => eq_ignore_ascii_case(t.as_str(), "confidential"),
        None => {
            proof { reveal_strlit("confidential"); }
            false
        },
    }
}

/// Client authentication at the token, revocation and introspection
/// endpoints. `secret_matches` is the verdict of the stored-secret check
/// on the presented secret; it is read only for a confidential client
/// that presented a non-empty secret and has one stored.
pub fn authenticate_client(client: &Client, presented_secret: Option<&str>, secret_matches: bool) -> (r: bool)
    ensures
        r == client_authenticates(client, opt_str(presented_secret), secret_matches),
{
    if !is_confidential_client(client) {
        return true;
    }
    let presented = match presented_secret {
        Some(p) => p,
        None => return false,
    };
    if presented.is_empty() {
        return false;
    }
    match &client.client_secret {
        Some(_) => secret_matches,
        None => false,
    }
}

/// A confidential client authenticates only with a non-empty presented
/// secret that matches its stored one; a client of any other type needs
/// no secret. A client typed `confidential` in any ASCII case counts as
/// confidential.
pub proof fn law_confidential_clients_need_a_matching_secret(c: Client, presented: Option<Seq<char>>, secret_matches: bool)
    ensures
        eq_ignore_ascii_case_spec(string_or_empty(c.client_type), "confidential"@) ==> (client_authenticates(
            &c,
            presented,
            secret_matches,
        ) <==> ((presented matches Some(p) && p.len() > 0) && c.client_secret is Some && secret_matches)),
        !eq_ignore_ascii_case_spec(string_or_empty(c.client_type), "confidential"@) ==> client_authenticates(
            &c,
            presented,
            secret_matches,
        ),
{
}

} // verus!
