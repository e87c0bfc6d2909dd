//! The decision logic of a two-level secret-change approval portal.

pub mod approval;
pub mod config;
pub mod errors;
pub mod handlers;
pub mod kms;
pub mod policies;
pub mod secrets_manager;
pub mod text;
pub mod users;
