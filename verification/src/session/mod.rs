//! Browser/admin sessions: the session row, its cache snapshot, and the
//! checks applied when a session token is presented.

pub mod model;
pub mod repository;
pub mod service;
