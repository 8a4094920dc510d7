//! The token endpoint and its neighbours: issuance, introspection
//! (RFC 7662) and revocation (RFC 7009).

pub mod flow;
pub mod introspect;
pub mod issuer;
pub mod model;
pub mod result;
pub mod revoke;
