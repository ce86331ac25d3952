//! Command sequences proposed by a model.
use crate::text::owned;
use vstd::prelude::*;

verus! {

/// One command with a description of what it does.
#[derive(Debug, Clone)]
pub struct Command {
    pub cmd: String,
    pub description: String,
}

/// A task and the commands that carry it out, in order.
#[derive(Debug, Clone)]
pub struct CommandSequence {
    pub task: String,
    pub commands: Vec<Command>,
}

/// Task name of a sequence made from a single command.
pub const FALLBACK_TASK: &'static str = "Execute command";

/// Description of the command in a sequence made from a single command.
pub const FALLBACK_DESCRIPTION: &'static str = "Direct command execution";

/// A sequence holding `cmd` alone, for when a model answered with a bare
/// command instead of a sequence.
pub fn single_command_fallback(cmd: &str) -> (r: CommandSequence)
    ensures
        r.task@ == FALLBACK_TASK@,
        r.commands@.len() == 1,
        r.commands@[0].cmd@ == cmd@,
        r.commands@[0].description@ == FALLBACK_DESCRIPTION@,
{
    let only = Command { cmd: owned(cmd), description: owned(FALLBACK_DESCRIPTION) };
    let mut commands: Vec<Command> = Vec::new();
    commands.push(only);
    CommandSequence { task: owned(FALLBACK_TASK), commands }
}

} // verus!
