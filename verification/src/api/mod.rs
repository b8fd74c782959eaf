//! The request and response models of the service.

pub mod authz;
pub mod login;
pub mod meta;
pub mod policy;
pub mod secret;
pub mod user;
