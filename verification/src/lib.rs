//! Multi-account identity management for a source-control host: the account
//! registry, the lifecycle operations over a persistent store and a secret
//! vault, and the small parsers and builders the remote operations need.

pub mod commands;
pub mod config;
pub mod error;
pub mod git;
pub mod github;
pub mod invariants;
pub mod keychain;
pub mod memory;
pub mod models;
pub mod storage;
pub mod text;

pub use commands::{account, pr, repo};
pub use config::Config;
pub use error::AppError;
pub use models::{Account, AccountKind, AccountsFile, Protocol, Repository};
pub use storage::{FilesystemStorage, Storage};
