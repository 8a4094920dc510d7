//! Self-service signup and email verification.

pub mod dto;
pub mod flow;
pub mod model;
pub mod resource;
