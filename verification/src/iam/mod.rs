//! The clients of the service and their configuration.

pub mod chain;
pub mod config;
pub mod tradition;
