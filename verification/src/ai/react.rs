//! Steps of a reason-and-act loop.
use crate::text::owned;
use vstd::prelude::*;

verus! {

/// One step: what was thought, the command run and what it printed.
#[derive(Debug, Clone)]
pub struct ReActStep {
    pub thought: String,
    pub command: String,
    pub output: String,
}

/// What a model proposes to do next.
#[derive(Debug, Clone)]
pub struct NextAction {
    pub thought: String,
    pub command: String,
    pub done: bool,
}

/// A second model's verdict on a proposed command.
#[derive(Debug, Clone)]
pub struct ValidationResult {
    pub valid: bool,
    pub reason: String,
}

impl ReActStep {
    /// A step from its three parts.
    pub fn new(thought: String, command: String, output: String) -> (r: Self)
        ensures
            r.thought == thought,
            r.command == command,
            r.output == output,
    {
        ReActStep { thought, command, output }
    }
}

/// Thought recorded when the task is complete.
pub const DONE_THOUGHT: &'static str = "Task completed";

impl NextAction {
    /// The action that ends the loop: no command, marked done.
    pub fn done() -> (r: Self)
        ensures
            r.thought@ == DONE_THOUGHT@,
            r.command@.len() == 0,
            r.done,
    {
        NextAction { thought: owned(DONE_THOUGHT), command: String::new(), done: true }
    }
}

} // verus!
