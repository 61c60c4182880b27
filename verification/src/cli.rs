//! The command line as the core sees it: already parsed.

pub mod args;
pub mod commands;

pub use args::{Cli, Commands};
