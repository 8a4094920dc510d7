//! Password reset by emailed token, and password change for a signed-in
//! user.

pub mod flow;
pub mod model;
pub mod resource;
