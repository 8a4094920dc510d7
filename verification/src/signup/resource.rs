//! How the signup endpoints answer refusals.

use vstd::prelude::*;

use super::dto::{SignupError, VerifyEmailError};

verus! {

/// A refusal as sent: the status and the OAuth-style error body.
pub struct ErrorReply {
    pub status: u16,
    pub error: &'static str,
    pub error_description: &'static str,
}

/// A conflict is a 409 `conflict`; an invalid request a 400
/// `invalid_request`.
pub fn signup_error_reply(e: &SignupError) -> (r: ErrorReply)
    ensures
        e matches SignupError::Conflict(d) ==> r.status == 409 && r.error@ == "conflict"@ && r.error_description == d,
        e matches SignupError::InvalidRequest(d) ==> r.status == 400 && r.error@ == "invalid_request"@
            && r.error_description == d,
{
    match e {
        SignupError::Conflict(d) => ErrorReply { status: 409, error: "conflict", error_description: d },
        SignupError::InvalidRequest(d) => ErrorReply { status: 400, error: "invalid_request", error_description: d },
    }
}

/// Both refusals of an email verification are 400s, `invalid_request` or
/// `invalid_token`.
pub fn verify_email_error_reply(e: &VerifyEmailError) -> (r: ErrorReply)
    ensures
        e matches VerifyEmailError::InvalidRequest(d) ==> r.status == 400 && r.error@ == "invalid_request"@
            && r.error_description == d,
        e matches VerifyEmailError::InvalidToken(d) ==> r.status == 400 && r.error@ == "invalid_token"@
            && r.error_description == d,
{
    match e {
        VerifyEmailError::InvalidRequest(d) => ErrorReply { status: 400, error: "invalid_request", error_description: d },
        VerifyEmailError::InvalidToken(d) => ErrorReply { status: 400, error: "invalid_token", error_description: d },
    }
}

} // verus!
