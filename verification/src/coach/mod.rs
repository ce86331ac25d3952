//! The coach: advice shown beside the shell after a command fails.
pub mod context;
pub mod event_router;
pub mod ui;

use crate::text::{opt_view, owned};
use vstd::prelude::*;

pub use context::ContextCollector;
pub use event_router::EventRouter;
pub use ui::{PanelPosition, SidePanel};

verus! {

/// Advice about a failed command: a diagnosis, an explanation, a best
/// practice and commands to run.
#[derive(Debug, Clone)]
pub struct CoachResponse {
    pub diagnosis: Option<String>,
    pub explanation: Option<String>,
    pub best_practice: Option<String>,
    pub commands: Vec<CoachCommand>,
}

/// A command the coach suggests, and what it is for.
#[derive(Debug, Clone)]
pub struct CoachCommand {
    pub cmd: String,
    pub purpose: String,
}

/// A command as a pair of character sequences.
pub open spec fn command_view(c: CoachCommand) -> (Seq<char>, Seq<char>) {
    (c.cmd@, c.purpose@)
}

/// The commands as pairs of character sequences.
pub open spec fn commands_view(cs: Seq<CoachCommand>) -> Seq<(Seq<char>, Seq<char>)> {
    cs.map_values(|c: CoachCommand| command_view(c))
}

/// A response as plain values: diagnosis, explanation, best practice and
/// commands.
pub open spec fn response_view(r: CoachResponse) -> (
    Option<Seq<char>>,
    Option<Seq<char>>,
    Option<Seq<char>>,
    Seq<(Seq<char>, Seq<char>)>,
) {
    (opt_view(r.diagnosis), opt_view(r.explanation), opt_view(r.best_practice), commands_view(r.commands@))
}

/// A response that says nothing.
pub open spec fn response_is_empty(r: CoachResponse) -> bool {
    r.diagnosis is None && r.explanation is None && r.best_practice is None && r.commands@.len() == 0
}

impl CoachResponse {
    /// A response that says nothing.
    pub fn new() -> (r: Self)
        ensures
            response_is_empty(r),
    {
        CoachResponse { diagnosis: None, explanation: None, best_practice: None, commands: Vec::new() }
    }

    /// The response with its diagnosis set to `diagnosis`.
    pub fn with_diagnosis(self, diagnosis: &str) -> (r: Self)
        ensures
            response_view(r) == (Some(diagnosis@), response_view(self).1, response_view(self).2, response_view(self).3),
    {
        CoachResponse { diagnosis: Some(owned(diagnosis)), ..self }
    }

    /// The response with its explanation set to `explanation`.
    pub fn with_explanation(self, explanation: &str) -> (r: Self)
        ensures
            response_view(r) == (response_view(self).0, Some(explanation@), response_view(self).2, response_view(self).3),
    {
        CoachResponse { explanation: Some(owned(explanation)), ..self }
    }

    /// The response with its best practice set to `best`.
    pub fn with_best_practice(self, best: &str) -> (r: Self)
        ensures
            response_view(r) == (response_view(self).0, response_view(self).1, Some(best@), response_view(self).3),
    {
        CoachResponse { best_practice: Some(owned(best)), ..self }
    }

    /// The response with (`cmd`, `purpose`) added after its commands.
    pub fn add_command(self, cmd: &str, purpose: &str) -> (r: Self)
        ensures
            response_view(r) == (
                response_view(self).0,
                response_view(self).1,
                response_view(self).2,
                response_view(self).3.push((cmd@, purpose@)),
            ),
    {
        let mut s = self;
        let ghost before = s.commands@;
        s.commands.push(CoachCommand { cmd: owned(cmd), purpose: owned(purpose) });
        assert(commands_view(s.commands@) =~= commands_view(before).push((cmd@, purpose@)));
        s
    }

    /// Whether the response says nothing.
    pub fn is_empty(&self) -> (r: bool)
        ensures
            r == response_is_empty(*self),
    {
        self.diagnosis.is_none() && self.explanation.is_none() && self.best_practice.is_none()
            && self.commands.len() == 0
    }
}

impl Default for CoachResponse {
    fn default() -> (r: Self)
        ensures
            response_is_empty(r),
    {
        CoachResponse::new()
    }
}

/// A response is empty exactly when it has no diagnosis, explanation, best
/// practice or command, read off its plain values. So a new response is
/// empty, and setting a diagnosis, an explanation or a best practice, or
/// adding a command, always gives a non-empty one.
pub proof fn law_response_emptiness(r: CoachResponse)
    ensures
        response_is_empty(r) <==> (response_view(r).0 is None && response_view(r).1 is None
            && response_view(r).2 is None && response_view(r).3.len() == 0),
{
}

} // verus!
