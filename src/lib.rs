//! Verified core of a package manager for editor plugins: the bookkeeping of
//! the concurrent sync engine, the rules that classify each plugin's outcome,
//! the version-control routines behind each task, and the pure parts of the
//! command layer.
pub mod cli;
pub mod config;
pub mod ledger;
pub mod list;
pub mod move_cmd;
pub mod package;
pub mod task;
pub mod error;
pub mod git;
pub mod generate;
pub mod install;
pub mod uninstall;
pub mod update;

pub use error::{Error, Result};
