//! The outcome of an authorization request.

use vstd::prelude::*;

use crate::common::text::opt_string;

verus! {

pub struct AuthorizeResult {
    pub ok: bool,
    /// Where to send the user agent next: set on success, and on errors
    /// found after the redirect URI was validated (RFC 6749 §4.1.2.1).
    pub redirect: Option<String>,
    pub error: Option<String>,
    pub error_description: Option<String>,
    pub consent_request_id: Option<String>,
}

impl AuthorizeResult {
    pub fn success(redirect: String) -> (r: Self)
        ensures
            r.ok,
            opt_string(r.redirect) == Some(redirect@),
            r.error is None,
            r.error_description is None,
            r.consent_request_id is None,
    {
        AuthorizeResult {
            ok: true,
            redirect: Some(redirect),
            error: None,
            error_description: None,
            consent_request_id: None,
        }
    }

    /// An error found before the redirect URI could be trusted: no
    /// redirect, the caller answers with a 400.
    pub fn error(error: &str, description: &str) -> (r: Self)
        ensures
            !r.ok,
            r.redirect is None,
            opt_string(r.error) == Some(error@),
            opt_string(r.error_description) == Some(description@),
            r.consent_request_id is None,
    {
        AuthorizeResult {
            ok: false,
            redirect: None,
            error: Some(error.to_owned()),
            error_description: Some(description.to_owned()),
            consent_request_id: None,
        }
    }

    /// An error reported back to the (registered) redirect URI.
    pub fn error_redirect(redirect: String, error: &str, description: &str) -> (r: Self)
        ensures
            !r.ok,
            opt_string(r.redirect) == Some(redirect@),
            opt_string(r.error) == Some(error@),
            opt_string(r.error_description) == Some(description@),
            r.consent_request_id is None,
    {
        AuthorizeResult {
            ok: false,
            redirect: Some(redirect),
            error: Some(error.to_owned()),
            error_description: Some(description.to_owned()),
            consent_request_id: None,
        }
    }

    pub fn consent_required(request_id: String) -> (r: Self)
        ensures
            !r.ok,
            r.redirect is None,
            opt_string(r.error) == Some("consent_required"@),
            opt_string(r.error_description) == Some("User consent is required"@),
            opt_string(r.consent_request_id) == Some(request_id@),
    {
        AuthorizeResult {
            ok: false,
            redirect: None,
            error: Some("consent_required".to_owned()),
            error_description: Some("User consent is required".to_owned()),
            consent_request_id: Some(request_id),
        }
    }
}

} // verus!
