//! User consent: the grants on record and authorizations waiting on the
//! consent screen.

pub mod model;
pub mod pending_store;
pub mod resource;
pub mod service;
