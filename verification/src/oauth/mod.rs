//! OAuth 2.0 / OpenID Connect core: authorization, token, consent,
//! device and logout flows.

pub mod authorize;
pub mod consent;
pub mod device;
pub mod logout;
pub mod pkce;
pub mod resource;
pub mod scopes;
pub mod token;
