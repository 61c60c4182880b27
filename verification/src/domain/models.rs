//! What is known of a command while it runs, and what it reports when done.

use vstd::prelude::*;
use vstd::string::*;
use std::time::{Duration, SystemTime};
use crate::infrastructure::clock::{current_time, duration_millis, time_since};
use crate::infrastructure::text::optional_text;

verus! {

/// The context in which a command runs.
#[derive(Debug, Clone)]
pub struct CommandContext {
    pub command_name: String,
    pub start_time: SystemTime,
    pub user_input: Option<String>,
}

/// The outcome of a command.
#[derive(Debug, Clone)]
pub struct CommandResult {
    pub success: bool,
    pub message: Option<String>,
    pub duration_ms: u64,
}

/// What a `CommandResult` holds.
pub struct CommandResultView {
    pub success: bool,
    pub message: Option<Seq<char>>,
    pub duration_ms: u64,
}

impl View for CommandResult {
    type V = CommandResultView;

    open spec fn view(&self) -> CommandResultView {
        CommandResultView {
            success: self.success,
            message: optional_text(self.message),
            duration_ms: self.duration_ms,
        }
    }
}

impl CommandContext {
    /// Starts the context of the command `command_name` at the current
    /// time, without user input.
    pub fn new(command_name: &str) -> (context: Self)
        ensures
            context.command_name@ == command_name@,
            context.user_input is None,
    {
        Self {
            command_name: String::from_str(command_name),
            start_time: current_time(),
            user_input: None,
        }
    }

    /// Sets the user input, and keeps the rest.
    pub fn with_input(self, input: &str) -> (context: Self)
        ensures
            context.command_name == self.command_name,
            context.start_time == self.start_time,
            optional_text(context.user_input) == Some(input@),
    {
        let mut context = self;
        context.user_input = Some(String::from_str(input));
        context
    }

    /// Returns the time that has passed since the command started: the
    /// empty span where the clock shows a time before the start. How long
    /// the span is lies with the system clock alone, so no clause states
    /// it; what is made of the clock's answer is stated by `span_or_empty`.
    pub fn elapsed(&self) -> (span: Duration) {
        CommandContext::span_or_empty(time_since(&self.start_time))
    }

    /// Gives the span that was measured, and the empty span where none
    /// could be.
    pub fn span_or_empty(measured: Option<Duration>) -> (span: Duration)
        ensures
            match measured {
                Some(taken) => span == taken,
                None => duration_millis(span) == 0,
            },
    {
        match measured {
            Some(span) => span,
            None => Duration::default(),
        }
    }
}

impl CommandResult {
    /// A success without a message.
    pub fn success() -> (result: Self)
        ensures
            result@ == (CommandResultView { success: true, message: None, duration_ms: 0 }),
    {
        Self { success: true, message: None, duration_ms: 0 }
    }

    /// A success with a message.
    pub fn success_with_message(message: &str) -> (result: Self)
        ensures
            result@ == (CommandResultView {
                success: true,
                message: Some(message@),
                duration_ms: 0,
            }),
    {
        Self { success: true, message: Some(String::from_str(message)), duration_ms: 0 }
    }

    /// A failure with a message.
    pub fn failure(message: &str) -> (result: Self)
        ensures
            result@ == (CommandResultView {
                success: false,
                message: Some(message@),
                duration_ms: 0,
            }),
    {
        Self { success: false, message: Some(String::from_str(message)), duration_ms: 0 }
    }

    /// Sets the duration to the whole milliseconds of `duration`, reduced
    /// modulo 2^64, and keeps the rest.
    pub fn with_duration(self, duration: Duration) -> (result: Self)
        ensures
            result@ == (CommandResultView {
                duration_ms: (duration_millis(duration) % 0x1_0000_0000_0000_0000) as u64,
                ..self@
            }),
    {
        let mut result = self;
        let millis: u128 = duration.as_millis();
        result.duration_ms = (millis % 0x1_0000_0000_0000_0000) as u64;
        result
    }

    /// Whether the command succeeded.
    pub fn is_success(&self) -> (succeeded: bool)
        ensures
            succeeded == self.success,
    {
        self.success
    }

    /// Whether the command failed.
    pub fn is_failure(&self) -> (failed: bool)
        ensures
            failed == !self.success,
    {
        !self.success
    }
}

} // verus!
