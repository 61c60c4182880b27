//! The parsed command line.

use vstd::prelude::*;

verus! {

/// The options that hold for every command, and the command.
#[derive(Debug)]
pub struct Cli {
    /// How often the verbosity flag was given.
    pub verbose: u8,
    /// Whether all output but errors is suppressed.
    pub quiet: bool,
    /// The path of the configuration file, if one was given.
    pub config: Option<String>,
    pub command: Commands,
}

/// The commands.
#[derive(Debug)]
pub enum Commands {
    /// Explains a topic, or greets.
    Explain { topic: Option<String> },
    /// Opens the terminal user interface.
    Tui { debug: bool },
}

} // verus!
