//! Structured guidance produced for an error.
use vstd::prelude::*;
use crate::text::{opt_view, owned, views};

verus! {

/// A single actionable next step.
#[derive(Debug, Clone)]
pub struct NextStep {
    /// What to do.
    pub description: String,
    /// Command to run, if any.
    pub command: Option<String>,
}

impl NextStep {
    /// A step with a command.
    pub fn with_command(description: &str, command: &str) -> (r: Self)
        ensures
            r.description@ == description@,
            r.command matches Some(c) && c@ == command@,
    {
        NextStep { description: owned(description), command: Some(owned(command)) }
    }

    /// A step without a command.
    pub fn new(description: &str) -> (r: Self)
        ensures
            r.description@ == description@,
            r.command is None,
    {
        NextStep { description: owned(description), command: None }
    }
}

/// Where guidance came from.
#[derive(Debug, Clone, Copy, PartialEq, Eq, Structural)]
pub enum GuidanceSource {
    /// Pattern matching.
    Pattern,
    /// A language model.
    LLM,
    /// The cache.
    Cached,
    /// The generic fallback.
    Fallback,
}

/// Complete mentor guidance for an error.
#[derive(Debug, Clone)]
pub struct MentorGuidance {
    /// The most important part of the error message.
    pub key_message: String,
    /// Plain-language explanation.
    pub explanation: String,
    /// Keywords to search for.
    pub search_keywords: Vec<String>,
    /// Actionable next steps.
    pub next_steps: Vec<NextStep>,
    /// Related concepts.
    pub related_concepts: Vec<String>,
    /// Where this guidance came from.
    pub source: GuidanceSource,
}

/// A step as plain values: its description and its command, if any.
pub open spec fn step_view(s: NextStep) -> (Seq<char>, Option<Seq<char>>) {
    (s.description@, opt_view(s.command))
}

/// The steps as plain values.
pub open spec fn steps_view(v: Seq<NextStep>) -> Seq<(Seq<char>, Option<Seq<char>>)> {
    v.map_values(|s: NextStep| step_view(s))
}

/// Guidance as plain values: key message, explanation, search keywords,
/// steps, related concepts and source.
pub open spec fn guidance_view(g: MentorGuidance) -> (
    Seq<char>,
    Seq<char>,
    Seq<Seq<char>>,
    Seq<(Seq<char>, Option<Seq<char>>)>,
    Seq<Seq<char>>,
    GuidanceSource,
) {
    (
        g.key_message@,
        g.explanation@,
        views(g.search_keywords@),
        steps_view(g.next_steps@),
        views(g.related_concepts@),
        g.source,
    )
}

/// The explanation given by fallback guidance.
pub open spec fn fallback_explanation() -> Seq<char> {
    "An error occurred. Check the full output for details."@
}

impl MentorGuidance {
    /// Guidance from pattern matching, with no keywords, steps or concepts.
    pub fn from_pattern(key_message: &str, explanation: &str) -> (r: Self)
        ensures
            r.key_message@ == key_message@,
            r.explanation@ == explanation@,
            r.search_keywords@.len() == 0,
            r.next_steps@.len() == 0,
            r.related_concepts@.len() == 0,
            r.source == GuidanceSource::Pattern,
    {
        MentorGuidance {
            key_message: owned(key_message),
            explanation: owned(explanation),
            search_keywords: Vec::new(),
            next_steps: Vec::new(),
            related_concepts: Vec::new(),
            source: GuidanceSource::Pattern,
        }
    }

    /// Generic guidance for when nothing better is known.
    pub fn fallback(key_message: &str) -> (r: Self)
        ensures
            r.key_message@ == key_message@,
            r.explanation@ == fallback_explanation(),
            r.search_keywords@.len() == 0,
            r.next_steps@.len() == 0,
            r.related_concepts@.len() == 0,
            r.source == GuidanceSource::Fallback,
    {
        MentorGuidance {
            key_message: owned(key_message),
            explanation: owned("An error occurred. Check the full output for details."),
            search_keywords: Vec::new(),
            next_steps: Vec::new(),
            related_concepts: Vec::new(),
            source: GuidanceSource::Fallback,
        }
    }

    /// Sets the search keywords.
    pub fn with_search(self, keywords: Vec<String>) -> (r: Self)
        ensures
            r == (MentorGuidance { search_keywords: keywords, ..self }),
    {
        MentorGuidance { search_keywords: keywords, ..self }
    }

    /// Sets the next steps.
    pub fn with_steps(self, steps: Vec<NextStep>) -> (r: Self)
        ensures
            r == (MentorGuidance { next_steps: steps, ..self }),
    {
        MentorGuidance { next_steps: steps, ..self }
    }

    /// Sets the related concepts.
    pub fn with_concepts(self, concepts: Vec<String>) -> (r: Self)
        ensures
            r == (MentorGuidance { related_concepts: concepts, ..self }),
    {
        MentorGuidance { related_concepts: concepts, ..self }
    }

    /// Marks the guidance as coming from a language model.
    pub fn from_llm(self) -> (r: Self)
        ensures
            r == (MentorGuidance { source: GuidanceSource::LLM, ..self }),
    {
        MentorGuidance { source: GuidanceSource::LLM, ..self }
    }

    /// Marks the guidance as coming from the cache.
    pub fn from_cache(self) -> (r: Self)
        ensures
            r == (MentorGuidance { source: GuidanceSource::Cached, ..self }),
    {
        MentorGuidance { source: GuidanceSource::Cached, ..self }
    }
}

impl Default for MentorGuidance {
    fn default() -> (r: Self)
        ensures
            r.key_message@ == "Unknown error"@,
            r.explanation@ == fallback_explanation(),
            r.search_keywords@.len() == 0,
            r.next_steps@.len() == 0,
            r.related_concepts@.len() == 0,
            r.source == GuidanceSource::Fallback,
    {
        Self::fallback("Unknown error")
    }
}

} // verus!
