//! Groundhog: the core of a command-line coding assistant.
//!
//! The crate holds the error taxonomy with its user messages and exit codes,
//! the configuration model with its search order and validation, and the
//! state machines behind the interactive terminal mode.

pub mod cli;
pub mod domain;
pub mod infrastructure;
pub mod tui;

pub use cli::{Cli, Commands};
pub use infrastructure::error::GroundhogError;
