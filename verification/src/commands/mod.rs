//! The operations behind the command-line surface.

pub mod account;
pub mod pr;
pub mod repo;
