//! Building blocks shared by every flow: strings, string sets, crypto.

pub mod crypto;
pub mod fields;
pub mod ids;
pub mod order;
pub mod storage;
pub mod time;
pub mod url;
pub mod web;
pub mod strset;
pub mod text;
