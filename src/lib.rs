//! Interactive branch switching: a verified terminal menu engine, the branch
//! model read from a repository's ref tree, and the command-line decisions
//! around them.
pub mod commands;
pub mod config;
pub mod keys;
pub mod menu;
pub mod repo;
pub mod text;
pub mod util;

pub use commands::Command;
