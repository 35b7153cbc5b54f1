//! The user domain: accounts, registration, login and profiles.

pub mod model;
pub mod repository;
pub mod service;
