//! Feature domains.

pub mod user;
