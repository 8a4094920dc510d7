//! The authorization endpoint: request validation, consent hand-off and
//! code issuance.

pub mod claims;
pub mod code;
pub mod flow;
pub mod request_object;
pub mod result;
