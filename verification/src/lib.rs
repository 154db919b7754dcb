//! hk: a tool for running hooks on files in a git repository.
//!
//! This crate holds the verified logic of hk: how environment values turn
//! into settings, how log records are filtered and laid out, how a step picks
//! its command and its files, what the git stash bookkeeping keeps, and what
//! the installed hook scripts contain.

pub mod cli;
pub mod env;
pub mod git;
pub mod level;
pub mod logger;
pub mod paths;
pub mod settings;
pub mod step;
pub mod text;
