//! How the OAuth endpoints answer over HTTP.

use vstd::prelude::*;

use super::authorize::result::AuthorizeResult;
use crate::common::text::{concat, opt_str, opt_string, str_eq, str_or_empty, string_or_empty};
use crate::common::url::{url_encode, url_encode_str};

verus! {

/// An answer of `/oauth/authorize`.
pub enum AuthorizeReply {
    /// 303 to `location`.
    SeeOther(String),
    /// 400 with an OAuth error body.
    BadRequest { error: String, error_description: String },
}

/// The URL the user agent asked for: the path, with its query string if
/// there is one.
pub open spec fn request_target(path: Seq<char>, query: Seq<char>) -> Seq<char> {
    if query.len() == 0 {
        path
    } else {
        path + "?"@ + query
    }
}

/// The answer to an authorization result, in order: a missing session
/// sends the user to log in and come back to this same request; a
/// pending consent to the consent page; an error with a trusted redirect
/// back to the client; any other error is a 400; success redirects.
pub open spec fn authorize_reply_spec(result: AuthorizeResult, path: Seq<char>, query: Seq<char>, r: AuthorizeReply) -> bool {
    if !result.ok {
        if opt_string(result.error) == Some("invalid_session"@) {
            r matches AuthorizeReply::SeeOther(l) && l@ == "/login?return_to="@ + url_encode(request_target(path, query))
        } else if opt_string(result.error) == Some("consent_required"@) && result.consent_request_id is Some {
            r matches AuthorizeReply::SeeOther(l) && l@ == "/consent?req="@ + url_encode(
                result.consent_request_id->0@,
            )
        } else if result.redirect is Some {
            r matches AuthorizeReply::SeeOther(l) && l@ == result.redirect->0@
        } else {
            r matches AuthorizeReply::BadRequest { error, error_description } && error@ == (match result.error {
                Some(e) => e@,
                None => "invalid_request"@,
            }) && error_description@ == string_or_empty(result.error_description)
        }
    } else {
        r matches AuthorizeReply::SeeOther(l) && l@ == result.redirect->0@
    }
}

pub fn authorize_reply(result: &AuthorizeResult, path: &str, query: &str) -> (r: AuthorizeReply)
    requires
        result.ok ==> result.redirect is Some,
    ensures
        authorize_reply_spec(*result, path@, query@, r),
{
    proof {
        reveal_strlit("invalid_session");
        reveal_strlit("consent_required");
        reveal_strlit("invalid_request");
    }
    if !result.ok {
        let is_session = match &result.error {
            Some(e) => str_eq(e.as_str(), "invalid_session"),
            None => false,
        };
        if is_session {
            let target = if query.is_empty() {
                path.to_owned()
            } else {
                let with_mark = concat(path, "?");
                concat(with_mark.as_str(), query)
            };
            let encoded = url_encode_str(target.as_str());
            return AuthorizeReply::SeeOther(concat("/login?return_to=", encoded.as_str()));
        }
        let is_consent = match &result.error {
            Some(e) => str_eq(e.as_str(), "consent_required"),
            None => false,
        };
        if is_consent {
            if let Some(req_id) = &result.consent_request_id {
                let encoded = url_encode_str(req_id.as_str());
                return AuthorizeReply::SeeOther(concat("/consent?req=", encoded.as_str()));
            }
        }
        if let Some(redirect) = &result.redirect {
            return AuthorizeReply::SeeOther(redirect.clone());
        }
        let error = match &result.error {
            Some(e) => e.clone(),
            None => "invalid_request".to_owned(),
        };
        let error_description = match &result.error_description {
            Some(d) => d.clone(),
            None => String::new(),
        };
        return AuthorizeReply::BadRequest { error, error_description };
    }
    match &result.redirect {
        Some(r) => AuthorizeReply::SeeOther(r.clone()),
        None => AuthorizeReply::SeeOther(String::new()),
    }
}

/// An OAuth error as sent by `/oauth/token`, `/oauth/revoke` and
/// `/oauth/introspect`.
pub struct OAuthErrorReply {
    pub status: u16,
    pub error: String,
    pub error_description: String,
}

/// RFC 6749 §5.2: `invalid_client` is a 401, every other error a 400. A
/// missing error reads as `invalid_request`, a missing description as
/// empty.
pub fn oauth_error_response(error: Option<&str>, description: Option<&str>) -> (r: OAuthErrorReply)
    ensures
        r.error@ == (match opt_str(error) {
            Some(e) => e,
            None => "invalid_request"@,
        }),
        r.error_description@ == str_or_empty(description),
        r.error@ == "invalid_client"@ ==> r.status == 401,
        r.error@ != "invalid_client"@ ==> r.status == 400,
{
    proof {
        reveal_strlit("invalid_request");
        reveal_strlit("invalid_client");
    }
    let e = match error {
        Some(e) => e,
        None => "invalid_request",
    };
    let status: u16 = if str_eq(e, "invalid_client") {
        401
    } else {
        400
    };
    OAuthErrorReply { status, error: e.to_owned(), error_description: crate::common::text::or_empty(description).to_owned() }
}

} // verus!
