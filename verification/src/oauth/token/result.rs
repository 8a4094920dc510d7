//! Outcomes of the token, introspection and revocation endpoints.

use vstd::prelude::*;

use crate::common::text::opt_string;

verus! {

/// A successful token response body.
pub struct TokenPayload {
    pub token_type: String,
    pub expires_in: i64,
    pub access_token: String,
    pub refresh_token: Option<String>,
    pub scope: String,
    pub id_token: Option<String>,
}

pub struct TokenResult {
    pub ok: bool,
    pub payload: Option<TokenPayload>,
    pub error: Option<String>,
    pub error_description: Option<String>,
}

/// The result is the error `e` described by `d`.
pub open spec fn is_token_error(r: TokenResult, e: Seq<char>, d: Seq<char>) -> bool {
    &&& !r.ok
    &&& r.payload is None
    &&& opt_string(r.error) == Some(e)
    &&& opt_string(r.error_description) == Some(d)
}

/// A step of the token endpoint failed with the error `e` described by `d`.
pub open spec fn token_fails<T>(r: Result<T, TokenResult>, e: Seq<char>, d: Seq<char>) -> bool {
    r matches Err(x) && is_token_error(x, e, d)
}

impl TokenResult {
    pub fn success(payload: TokenPayload) -> (r: Self)
        ensures
            r.ok,
            r.payload == Some(payload),
            r.error is None,
            r.error_description is None,
    {
        TokenResult { ok: true, payload: Some(payload), error: None, error_description: None }
    }

    pub fn error(error: &str, description: &str) -> (r: Self)
        ensures
            is_token_error(r, error@, description@),
    {
        TokenResult {
            ok: false,
            payload: None,
            error: Some(error.to_owned()),
            error_description: Some(description.to_owned()),
        }
    }
}

/// The answer to an introspection request.
pub enum IntrospectResult {
    /// The token is unknown, invalid, expired or not the caller's:
    /// `{"active": false}`.
    Inactive,
    /// The token is the caller's: `{"active": true, ...claims}`.
    Active,
    /// The request was refused.
    Error { error: String, error_description: String },
}

/// The answer to a revocation request.
pub struct RevokeResult {
    pub ok: bool,
    pub error: Option<String>,
    pub error_description: Option<String>,
}

impl RevokeResult {
    pub fn success() -> (r: Self)
        ensures
            r.ok,
            r.error is None,
            r.error_description is None,
    {
        RevokeResult { ok: true, error: None, error_description: None }
    }

    pub fn error(error: &str, description: &str) -> (r: Self)
        ensures
            !r.ok,
            opt_string(r.error) == Some(error@),
            opt_string(r.error_description) == Some(description@),
    {
        RevokeResult {
            ok: false,
            error: Some(error.to_owned()),
            error_description: Some(description.to_owned()),
        }
    }
}

} // verus!
