//! Automatic backup of uncommitted work in watched git repositories.
//!
//! The crate decides when a watched repository is due for a backup
//! (a dirty flag with a quiescence buffer), names the backup branches,
//! and runs the snapshot-and-push protocol against a disposable copy
//! of the repository, so the developer's working tree is never touched.

pub mod attempt;
pub mod auth;
pub mod branch;
pub mod config;
pub mod engine;
pub mod errors;
pub mod gitops;
pub mod ignore;
pub mod paths;
pub mod repo_instance;
pub mod scheduler;
pub mod strutil;
pub mod tracker;
pub mod watch;
