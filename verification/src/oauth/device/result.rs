//! Outcomes of the device authorization endpoint and of the user-code
//! verification page.

use vstd::prelude::*;

use crate::common::text::opt_string;

verus! {

/// The body of a successful device authorization response (RFC 8628
/// §3.2).
pub struct DevicePayload {
    pub device_code: String,
    pub user_code: String,
    pub verification_uri: String,
    pub verification_uri_complete: String,
    pub expires_in: i64,
    pub interval: i64,
}

pub struct DeviceAuthorizationResult {
    pub ok: bool,
    pub payload: Option<DevicePayload>,
    pub error: Option<String>,
    pub error_description: Option<String>,
}

/// The result is the error `e` described by `d`.
pub open spec fn is_device_error(r: DeviceAuthorizationResult, e: Seq<char>, d: Seq<char>) -> bool {
    &&& !r.ok
    &&& r.payload is None
    &&& opt_string(r.error) == Some(e)
    &&& opt_string(r.error_description) == Some(d)
}

impl DeviceAuthorizationResult {
    pub fn success(payload: DevicePayload) -> (r: Self)
        ensures
            r.ok,
            r.payload == Some(payload),
            r.error is None,
            r.error_description is None,
    {
        DeviceAuthorizationResult { ok: true, payload: Some(payload), error: None, error_description: None }
    }

    pub fn error(error: &str, description: &str) -> (r: Self)
        ensures
            is_device_error(r, error@, description@),
    {
        DeviceAuthorizationResult {
            ok: false,
            payload: None,
            error: Some(error.to_owned()),
            error_description: Some(description.to_owned()),
        }
    }
}

pub struct DeviceVerifyResult {
    pub ok: bool,
    pub error: Option<String>,
    pub error_description: Option<String>,
}

/// The result is the error `e` described by `d`.
pub open spec fn is_verify_error(r: DeviceVerifyResult, e: Seq<char>, d: Seq<char>) -> bool {
    &&& !r.ok
    &&& opt_string(r.error) == Some(e)
    &&& opt_string(r.error_description) == Some(d)
}

impl DeviceVerifyResult {
    pub fn success() -> (r: Self)
        ensures
            r.ok,
            r.error is None,
            r.error_description is None,
    {
        DeviceVerifyResult { ok: true, error: None, error_description: None }
    }

    pub fn error(error: &str, description: &str) -> (r: Self)
        ensures
            is_verify_error(r, error@, description@),
    {
        DeviceVerifyResult { ok: false, error: Some(error.to_owned()), error_description: Some(description.to_owned()) }
    }
}

} // verus!
