//! The library behind `ax`, a command-line manager for a personal development
//! environment: custom commands, environment variables, proxy settings, shell
//! completion, a git-backed configuration directory, and the installation of
//! packages and shell tools.
use vstd::prelude::*;

pub mod text;
pub mod packages;
pub mod strmap;
pub mod paths;
pub mod config;
pub mod cli;
pub mod help;
pub mod proxy;
pub mod detect;
pub mod env;
pub mod commands;
pub mod ssh;
pub mod completion;
pub mod install;
pub mod yaml;
pub mod listing;
pub mod sync;
pub mod setup;
pub mod archive;
pub mod laws;

verus! {
} // verus!
