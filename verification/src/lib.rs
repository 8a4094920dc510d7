//! Decision logic of an OAuth 2.0 / OpenID Connect authorization server:
//! scope algebra, PKCE, authorization / token / device / logout flows,
//! consent bookkeeping, sessions, role hierarchy and account flows.
//! Storage, HTTP and cryptographic primitives stay outside; every
//! decision taken on their results is verified here.
//!
//! Identifiers (UUIDs) are held as `u128`; instants as `i64` microseconds
//! since the Unix epoch.

pub mod client;
pub mod common;
pub mod oauth;
pub mod oidc;
pub mod password;
pub mod role;
pub mod session;
pub mod signup;
pub mod user;
