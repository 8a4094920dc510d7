//! The device authorization grant (RFC 8628).

pub mod flow;
pub mod model;
pub mod repository;
pub mod result;
