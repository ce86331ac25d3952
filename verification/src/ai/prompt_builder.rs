//! The pair of prompts sent to a model for a translation.
use crate::text::owned;
use vstd::prelude::*;

verus! {

/// Collects a system prompt and the user's input.
pub struct PromptBuilder {
    system_prompt: String,
    user_input: String,
}

impl View for PromptBuilder {
    /// The system prompt and the user input.
    type V = (Seq<char>, Seq<char>);

    closed spec fn view(&self) -> (Seq<char>, Seq<char>) {
        (self.system_prompt@, self.user_input@)
    }
}

impl PromptBuilder {
    /// A builder with both prompts empty.
    pub fn new() -> (r: Self)
        ensures
            r@ == (Seq::<char>::empty(), Seq::<char>::empty()),
    {
        PromptBuilder { system_prompt: String::new(), user_input: String::new() }
    }

    /// The builder with its system prompt set to `prompt`.
    pub fn with_system_prompt(self, prompt: &str) -> (r: Self)
        ensures
            r@ == (prompt@, self@.1),
    {
        PromptBuilder { system_prompt: owned(prompt), user_input: self.user_input }
    }

    /// The builder with its user input set to `input`.
    pub fn with_user_input(self, input: &str) -> (r: Self)
        ensures
            r@ == (self@.0, input@),
    {
        PromptBuilder { system_prompt: self.system_prompt, user_input: owned(input) }
    }

    /// The system prompt and the user input.
    pub fn build(self) -> (r: (String, String))
        ensures
            (r.0@, r.1@) == self@,
    {
        (self.system_prompt, self.user_input)
    }
}

impl Default for PromptBuilder {
    fn default() -> (r: Self)
        ensures
            r@ == (Seq::<char>::empty(), Seq::<char>::empty()),
    {
        Self::new()
    }
}

} // verus!
