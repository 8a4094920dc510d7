//! The logout decisions. The ID token hint names the requesting client
//! (its first audience), against whose registration the
//! `post_logout_redirect_uri` is checked, and the session to end (its
//! `sid`); without a usable hint the session cookie names the session.
//! Every refresh token of that session is revoked, the session deleted,
//! and each involved client told through its front and back channels.

use vstd::prelude::*;

use super::notifier::{backchannel_target, backchannel_uri};
use super::result::LogoutResult;
use crate::client::Client;
use crate::common::ids::{parse_uuid, uuid_from_text, uuid_hyphenated, uuid_text};
use crate::common::text::{concat, opt_str, opt_string};
use crate::common::url::{contains_char, url_encode, url_encode_str};
use crate::oauth::token::introspect::Audience;

verus! {

/// A non-empty optional string.
pub open spec fn non_empty(o: Option<Seq<char>>) -> Option<Seq<char>> {
    match o {
        Some(s) => if s.len() > 0 {
            Some(s)
        } else {
            None
        },
        None => None,
    }
}

/// The client an ID token hint names: its audience, or the first element
/// of an audience array, when that is a non-empty string.
pub open spec fn hinted_client_id(aud: Audience) -> Option<Seq<char>> {
    match aud {
        Audience::Text(s) => non_empty(Some(s@)),
        Audience::List(items) => if items@.len() > 0 {
            non_empty(opt_string(items@[0]))
        } else {
            None
        },
        _ => None,
    }
}

pub fn client_id_from_hint(aud: &Audience) -> (r: Option<String>)
    ensures
        opt_string(r) == hinted_client_id(*aud),
{
    match aud {
        Audience::Text(s) => if s.unicode_len() > 0 {
            Some(s.clone())
        } else {
            None
        },
        Audience::List(items) => {
            if items.len() == 0 {
                return None;
            }
            match &items[0] {
                Some(s) => if s.unicode_len() > 0 {
                    Some(s.clone())
                } else {
                    None
                },
                None => None,
            }
        },
        _ => None,
    }
}

/// The `post_logout_redirect_uri` kept: a non-empty one registered for
/// the hinted client (`registered`: the client was found and lists it).
pub fn validated_post_logout(uri: Option<&str>, registered: bool) -> (r: Option<String>)
    ensures
        opt_string(r) == (if registered {
            non_empty(opt_str(uri))
        } else {
            None
        }),
{
    match uri {
        Some(u) => if registered && !u.is_empty() {
            Some(u.to_owned())
        } else {
            None
        },
        None => None,
    }
}

/// The session named by the hint's `sid` claim (when it is a UUID), else
/// the one behind the session cookie.
pub open spec fn session_to_end(sid_claim: Option<Seq<char>>, cookie_session: Option<u128>) -> Option<u128> {
    match sid_claim {
        Some(s) => match uuid_from_text(s) {
            Some(u) => Some(u),
            None => cookie_session,
        },
        None => cookie_session,
    }
}

/// The session named by the hint's `sid` claim, if it is a UUID. When it
/// is `None`, the session cookie is tried next.
pub fn session_from_hint(sid_claim: Option<&str>) -> (r: Option<u128>)
    ensures
        r == (match opt_str(sid_claim) {
            Some(s) => uuid_from_text(s),
            None => None,
        }),
{
    match sid_claim {
        Some(s) => parse_uuid(s),
        None => None,
    }
}

pub fn resolve_session(sid_claim: Option<&str>, cookie_session: Option<u128>) -> (r: Option<u128>)
    ensures
        r == session_to_end(opt_str(sid_claim), cookie_session),
{
    match session_from_hint(sid_claim) {
        Some(u) => Some(u),
        None => cookie_session,
    }
}

/// The front-channel logout URL of a client: its URI with `iss` and `sid`
/// appended as query parameters.
pub open spec fn frontchannel_url_spec(uri: Seq<char>, issuer_url: Seq<char>, session_id: u128) -> Seq<char> {
    uri + (if uri.contains('?') {
        "&"@
    } else {
        "?"@
    }) + "iss="@ + url_encode(issuer_url) + "&sid="@ + url_encode(uuid_hyphenated(session_id))
}

pub fn build_frontchannel_url(uri: &str, issuer_url: &str, session_id: u128) -> (r: String)
    ensures
        r@ == frontchannel_url_spec(uri@, issuer_url@, session_id),
{
    let sep = if contains_char(uri, '?') {
        "&"
    } else {
        "?"
    };
    proof {
        reveal_strlit("&");
        reveal_strlit("?");
    }
    let a = concat(uri, sep);
    let b = concat(a.as_str(), "iss=");
    let iss = url_encode_str(issuer_url);
    let c = concat(b.as_str(), iss.as_str());
    let d = concat(c.as_str(), "&sid=");
    let sid_text = uuid_text(session_id);
    let sid = url_encode_str(sid_text.as_str());
    concat(d.as_str(), sid.as_str())
}

/// The front-channel URI of a client, if it registered a non-empty one.
pub open spec fn frontchannel_uri(c: Client) -> Option<Seq<char>> {
    non_empty(opt_string(c.frontchannel_logout_uri))
}

/// The front-channel URLs for the involved clients, in order.
pub open spec fn frontchannel_urls(clients: Seq<Client>, issuer_url: Seq<char>, session_id: u128) -> Seq<Seq<char>>
    decreases clients.len(),
{
    if clients.len() == 0 {
        Seq::empty()
    } else {
        let rest = frontchannel_urls(clients.drop_last(), issuer_url, session_id);
        match frontchannel_uri(clients.last()) {
            Some(u) => rest.push(frontchannel_url_spec(u, issuer_url, session_id)),
            None => rest,
        }
    }
}

/// The indices of the involved clients to notify on the back channel.
pub open spec fn backchannel_targets(clients: Seq<Client>) -> Seq<int>
    decreases clients.len(),
{
    if clients.len() == 0 {
        Seq::empty()
    } else {
        let rest = backchannel_targets(clients.drop_last());
        if backchannel_uri(clients.last()) is Some {
            rest.push(clients.len() - 1)
        } else {
            rest
        }
    }
}

/// What ending a session tells the involved clients.
pub struct LogoutPlan {
    pub frontchannel_urls: Vec<String>,
    /// Indices into the involved clients of those to notify on the back
    /// channel.
    pub notify: Vec<usize>,
}

pub fn plan_notifications(involved: &Vec<Client>, issuer_url: &str, session_id: u128) -> (r: LogoutPlan)
    ensures
        crate::common::strset::strings_view(r.frontchannel_urls@) == frontchannel_urls(involved@, issuer_url@, session_id),
        r.notify@.map_values(|i: usize| i as int) == backchannel_targets(involved@),
{
    let mut urls: Vec<String> = Vec::new();
    let mut notify: Vec<usize> = Vec::new();
    let mut i: usize = 0;
    while i < involved.len()
        invariant
            i <= involved@.len(),
            crate::common::strset::strings_view(urls@) == frontchannel_urls(involved@.take(i as int), issuer_url@, session_id),
            notify@.map_values(|k: usize| k as int) == backchannel_targets(involved@.take(i as int)),
        decreases involved@.len() - i,
    {
        let ghost before_urls = crate::common::strset::strings_view(urls@);
        let ghost before_notify = notify@.map_values(|k: usize| k as int);
        let c = &involved[i];
        assert(involved@.take(i + 1).drop_last() =~= involved@.take(i as int));
        assert(involved@.take(i + 1).last() == *c);
        if let Some(fc) = &c.frontchannel_logout_uri {
            if fc.unicode_len() > 0 {
                let url = build_frontchannel_url(fc.as_str(), issuer_url, session_id);
                urls.push(url);
                assert(crate::common::strset::strings_view(urls@) =~= before_urls.push(
                    frontchannel_url_spec(fc@, issuer_url@, session_id),
                ));
            }
        }
        if backchannel_target(c).is_some() {
            notify.push(i);
            assert(notify@.map_values(|k: usize| k as int) =~= before_notify.push(i as int));
        }
        i = i + 1;
    }
    assert(involved@.take(involved@.len() as int) =~= involved@);
    LogoutPlan { frontchannel_urls: urls, notify }
}

/// The answer once the session's refresh tokens were revoked and its
/// delete attempted. Logout is fail-closed: the session counts as ended,
/// and the front-channel URLs are handed out, only when the delete
/// succeeded (`session_deleted`); otherwise the caller is told nothing was
/// ended and no client is told to log out.
pub fn terminated(
    session_deleted: bool,
    frontchannel_logout_uris: Vec<String>,
    validated_post_logout_redirect_uri: Option<String>,
) -> (r: LogoutResult)
    ensures
        r.terminated == session_deleted,
        session_deleted ==> r.frontchannel_logout_uris == frontchannel_logout_uris,
        !session_deleted ==> r.frontchannel_logout_uris@.len() == 0,
        r.validated_post_logout_redirect_uri == validated_post_logout_redirect_uri,
{
    if session_deleted {
        LogoutResult { terminated: true, frontchannel_logout_uris, validated_post_logout_redirect_uri }
    } else {
        LogoutResult::none(validated_post_logout_redirect_uri)
    }
}

} // verus!
