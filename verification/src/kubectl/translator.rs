//! Result of translating a request into a kubectl command.
use vstd::prelude::*;
use crate::text::{contains, starts_with, str_contains, str_starts_with, str_trim, trim};

verus! {

/// Result of translating natural language into a kubectl command.
#[derive(Debug, Clone)]
pub struct TranslationResult {
    /// Generated kubectl command.
    pub kubectl_command: String,
    /// Confidence score (0-100).
    pub confidence_score: u8,
    /// Reasoning given for the command.
    pub reasoning: String,
}

impl TranslationResult {
    /// A new translation result.
    pub fn new(kubectl_command: String, confidence_score: u8, reasoning: String) -> (r: Self)
        ensures
            r.kubectl_command == kubectl_command,
            r.confidence_score == confidence_score,
            r.reasoning == reasoning,
    {
        TranslationResult { kubectl_command, confidence_score, reasoning }
    }

    /// Whether the confidence is below `threshold`.
    pub fn is_low_confidence(&self, threshold: u8) -> (b: bool)
        ensures
            b == (self.confidence_score < threshold),
    {
        self.confidence_score < threshold
    }

    /// Whether the command, trimmed, starts with `"kubectl "`.
    pub fn is_valid_command(&self) -> (b: bool)
        ensures
            b == starts_with(trim(self.kubectl_command@), "kubectl "@),
    {
        let t = str_trim(self.kubectl_command.as_str());
        str_starts_with(t.as_str(), "kubectl ")
    }

    /// Whether the reasoning asks for clarification.
    pub fn needs_clarification(&self) -> (b: bool)
        ensures
            b == contains(self.reasoning@, "NEEDS_CLARIFICATION"@),
    {
        str_contains(self.reasoning.as_str(), "NEEDS_CLARIFICATION")
    }
}

} // verus!
