//! OpenID Connect: discovery and `/userinfo`.

pub mod resource;
