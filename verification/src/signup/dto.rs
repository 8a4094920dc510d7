//! What the signup endpoints take and answer.

use vstd::prelude::*;

verus! {

/// The signup form; every field may be missing.
pub struct SignupRequest {
    pub email: Option<String>,
    pub password: Option<String>,
    pub username: Option<String>,
    pub first_name: Option<String>,
    pub last_name: Option<String>,
}

/// The body of a successful signup.
pub struct SignupSuccess {
    pub message: &'static str,
    pub user_id: String,
    pub verification_token: String,
}

/// Why a signup is refused; the text is the `error_description`.
pub enum SignupError {
    /// 400 `invalid_request`.
    InvalidRequest(&'static str),
    /// 409 `conflict`.
    Conflict(&'static str),
}

/// Why an email verification is refused; the text is the
/// `error_description`.
pub enum VerifyEmailError {
    /// 400 `invalid_request`.
    InvalidRequest(&'static str),
    /// 400 `invalid_token`.
    InvalidToken(&'static str),
}

} // verus!
