//! Log levels and how the command line's verbosity selects one.

use vstd::prelude::*;
use vstd::string::*;

verus! {

/// The severity of a log line, from the most severe to the most verbose.
#[derive(Debug, Clone, Copy, PartialEq, Eq, Structural)]
pub enum Level {
    Error,
    Warn,
    Info,
    Debug,
    Trace,
}

impl Level {
    /// Errors only.
    pub const ERROR: Level = Level::Error;

    /// Warnings and errors.
    pub const WARN: Level = Level::Warn;

    /// What the application does, in broad strokes.
    pub const INFO: Level = Level::Info;

    /// What helps to find a fault.
    pub const DEBUG: Level = Level::Debug;

    /// Everything.
    pub const TRACE: Level = Level::Trace;

    /// The place of the level in the order of verbosity: 1 for `Error`,
    /// 5 for `Trace`.
    pub open spec fn verbosity(&self) -> int {
        match self {
            Level::Error => 1,
            Level::Warn => 2,
            Level::Info => 3,
            Level::Debug => 4,
            Level::Trace => 5,
        }
    }

    /// The name of the level as a filter directive writes it.
    pub open spec fn name(&self) -> Seq<char> {
        match self {
            Level::Error => "error"@,
            Level::Warn => "warn"@,
            Level::Info => "info"@,
            Level::Debug => "debug"@,
            Level::Trace => "trace"@,
        }
    }

    /// Returns the place of the level in the order of verbosity.
    fn rank(&self) -> (rank: u8)
        ensures
            rank == self.verbosity(),
    {
        match self {
            Level::Error => 1,
            Level::Warn => 2,
            Level::Info => 3,
            Level::Debug => 4,
            Level::Trace => 5,
        }
    }

    /// Returns the name of the level in lower case.
    pub fn as_str(&self) -> (name: &'static str)
        ensures
            name@ == self.name(),
    {
        match self {
            Level::Error => "error",
            Level::Warn => "warn",
            Level::Info => "info",
            Level::Debug => "debug",
            Level::Trace => "trace",
        }
    }
}

/// The level that the flags select: `Error` when quiet, whatever the
/// verbosity; else `Warn`, `Info`, `Debug` for a verbosity of 0, 1, 2, and
/// `Trace` from 3 on.
pub open spec fn selected_level(verbose: u8, quiet: bool) -> Level {
    if quiet {
        Level::Error
    } else if verbose == 0 {
        Level::Warn
    } else if verbose == 1 {
        Level::Info
    } else if verbose == 2 {
        Level::Debug
    } else {
        Level::Trace
    }
}

/// Converts the verbosity count and the quiet flag to a log level.
pub fn verbosity_to_level(verbose: u8, quiet: bool) -> (level: Level)
    ensures
        level == selected_level(verbose, quiet),
{
    if quiet {
        Level::Error
    } else {
        match verbose {
            0 => Level::Warn,
            1 => Level::Info,
            2 => Level::Debug,
            _ => Level::Trace,
        }
    }
}

/// Tells whether lines of `level` are logged under the given flags: those
/// that are no more verbose than the selected level.
pub fn is_level_enabled(level: Level, verbose: u8, quiet: bool) -> (enabled: bool)
    ensures
        enabled == (level.verbosity() <= selected_level(verbose, quiet).verbosity()),
{
    let current_level = verbosity_to_level(verbose, quiet);
    level.rank() <= current_level.rank()
}

/// Gives the filter directive that limits the application's own log lines
/// to the level that the flags select.
pub fn filter_directive(verbose: u8, quiet: bool) -> (directive: String)
    ensures
        directive@ == "groundhog="@ + selected_level(verbose, quiet).name(),
{
    let level = verbosity_to_level(verbose, quiet);
    let mut directive = String::from_str("groundhog=");
    directive.append(level.as_str());
    directive
}

/// Quiet wins over any verbosity: only errors are logged.
pub proof fn quiet_selects_errors_only(verbose: u8, level: Level)
    ensures
        selected_level(verbose, true) == Level::Error,
        level.verbosity() <= selected_level(verbose, true).verbosity() <==> level
            == Level::Error,
{
}

/// More verbosity never disables a level: what is logged at one count is
/// logged at every higher one.
pub proof fn verbosity_is_monotonic(lower: u8, higher: u8, quiet: bool, level: Level)
    requires
        lower <= higher,
        level.verbosity() <= selected_level(lower, quiet).verbosity(),
    ensures
        level.verbosity() <= selected_level(higher, quiet).verbosity(),
{
}

} // verus!
