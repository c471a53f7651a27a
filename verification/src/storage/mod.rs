//! Configuration and session persistence.
pub mod config;
pub mod sessions;
