//! The commands and their names.

use vstd::prelude::*;
use crate::cli::args::Commands;

pub mod explain;

verus! {

/// The name of a command as the command line writes it.
pub open spec fn command_name(command: Commands) -> Seq<char> {
    match command {
        Commands::Explain { .. } => "explain"@,
        Commands::Tui { .. } => "tui"@,
    }
}

/// Returns the name of the command.
pub fn get_command_name(command: &Commands) -> (name: &'static str)
    ensures
        name@ == command_name(*command),
{
    match command {
        Commands::Explain { .. } => "explain",
        Commands::Tui { .. } => "tui",
    }
}

} // verus!
