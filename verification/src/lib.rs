//! Verified core of a user-account web service: configuration, errors,
//! response envelopes, request validation, bearer tokens and the
//! decisions of registration and login.

pub mod response;
pub mod numeric;
pub mod text;
pub mod error;
pub mod config;
pub mod claims;
pub mod security;
pub mod validation;
pub mod features;
pub mod middleware;
pub mod docs;
pub mod extractor;
pub mod handlers;
pub mod logging;
