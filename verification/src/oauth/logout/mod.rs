//! RP-initiated logout (OIDC RP-Initiated Logout 1.0) with front- and
//! back-channel notification of the clients involved in the session.

pub mod flow;
pub mod notifier;
pub mod result;
