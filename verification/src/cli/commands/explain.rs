//! The `explain` command.

use vstd::prelude::*;
use vstd::string::*;
use crate::infrastructure::text::optional_text;
use crate::infrastructure::error::GroundhogError;

verus! {

/// The line that `explain` prints: a greeting, followed by the topic where
/// one is given.
pub open spec fn explain_output(topic: Option<Seq<char>>) -> Seq<char> {
    match topic {
        Some(topic) => "hello world - explaining: "@ + topic,
        None => "hello world"@,
    }
}

/// Runs `explain` and returns the line to print; this never fails.
pub fn execute(topic: Option<String>) -> (result: Result<String, GroundhogError>)
    ensures
        result matches Ok(line) && line@ == explain_output(optional_text(topic)),
{
    match topic {
        Some(topic) => {
            let mut line = String::from_str("hello world - explaining: ");
            line.append(topic.as_str());
            Ok(line)
        },
        None => Ok(String::from_str("hello world")),
    }
}

} // verus!
