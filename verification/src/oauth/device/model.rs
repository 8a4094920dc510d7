//! A device authorization (RFC 8628): the device polls with the device
//! code while the user approves or denies the user code in a browser.

use vstd::prelude::*;

verus! {

pub const STATUS_PENDING: &'static str = "pending";
pub const STATUS_APPROVED: &'static str = "approved";
pub const STATUS_DENIED: &'static str = "denied";
pub const STATUS_CONSUMED: &'static str = "consumed";

pub struct DeviceAuthorization {
    pub id: u128,
    pub device_code: String,
    pub user_code: String,
    pub client_id: String,
    pub scope: Option<String>,
    /// One of the `STATUS_*` values.
    pub status: String,
    pub user_id: Option<u128>,
    pub session_id: Option<u128>,
    pub expires_at: i64,
    pub created_at: Option<i64>,
}

} // verus!
