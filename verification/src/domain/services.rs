//! The AI service: until one is connected, it answers with a fixed text.

use vstd::prelude::*;
use vstd::string::*;
use crate::infrastructure::error::GroundhogError;

verus! {

/// The AI service and whether it is switched on.
pub struct AIService {
    pub enabled: bool,
}

impl AIService {
    /// What the service answers about `topic`.
    pub open spec fn explanation(&self, topic: Seq<char>) -> Seq<char> {
        if self.enabled {
            "AI-generated explanation for '"@ + topic + "' (not implemented yet)"@
        } else {
            "AI service is disabled. Topic: "@ + topic
        }
    }

    /// A service that is switched off.
    pub fn new() -> (service: Self)
        ensures
            !service.enabled,
    {
        Self { enabled: false }
    }

    /// Switches the service on or off.
    pub fn with_enabled(self, enabled: bool) -> (service: Self)
        ensures
            service.enabled == enabled,
    {
        let mut service = self;
        service.enabled = enabled;
        service
    }

    /// Explains `topic`; this never fails.
    pub fn generate_explanation(&self, topic: &str) -> (result: Result<String, GroundhogError>)
        ensures
            result matches Ok(text) && text@ == self.explanation(topic@),
    {
        if !self.enabled {
            let mut text = String::from_str("AI service is disabled. Topic: ");
            text.append(topic);
            return Ok(text);
        }
        let mut text = String::from_str("AI-generated explanation for '");
        text.append(topic);
        text.append("' (not implemented yet)");
        Ok(text)
    }

    /// Whether the service can be asked.
    pub fn is_available(&self) -> (available: bool)
        ensures
            available == self.enabled,
    {
        self.enabled
    }
}

impl Default for AIService {
    fn default() -> (service: Self)
        ensures
            !service.enabled,
    {
        Self::new()
    }
}

} // verus!
