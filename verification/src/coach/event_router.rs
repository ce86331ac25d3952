//! Turns the result of a shell command into coaching advice, from the
//! diagnostics that plugins produced and the skill that matched the error.
use crate::coach::{commands_view, response_view, CoachCommand, CoachResponse};
use crate::text::{dec_int, i64_to_dec, join, join_strings, opt_view, owned, views};
use vstd::prelude::*;

verus! {

/// What a diagnostic plugin said about an error.
#[derive(Debug, Clone)]
pub struct DiagnosticContext {
    /// What went wrong.
    pub explanation: String,
    /// What to learn from it.
    pub learn: Option<String>,
    /// Commands that help.
    pub commands: Vec<CoachCommand>,
}

/// A known error pattern that matched, with its causes and lessons.
#[derive(Debug, Clone)]
pub struct SkillMatch {
    pub pattern: String,
    pub causes: Vec<String>,
    pub teaches: Vec<String>,
}

/// Decides when the coach speaks up.
pub struct EventRouter {
    enabled: bool,
}

impl View for EventRouter {
    /// Whether the coach is on.
    type V = bool;

    closed spec fn view(&self) -> bool {
        self.enabled
    }
}

/// The error reported for a failed command: its standard error, or its exit
/// code when it printed none.
pub open spec fn error_text(exit_code: i32, stderr: Seq<char>) -> Seq<char> {
    if stderr.len() > 0 {
        stderr
    } else {
        "Exit code: "@ + dec_int(exit_code as int)
    }
}

/// The advice built from the first diagnostic, if any, and the matched
/// skill, if any, as plain values.
pub open spec fn advice(diagnostics: Seq<DiagnosticContext>, skill: Option<SkillMatch>) -> (
    Option<Seq<char>>,
    Option<Seq<char>>,
    Option<Seq<char>>,
    Seq<(Seq<char>, Seq<char>)>,
) {
    let d0: Option<Seq<char>> = if diagnostics.len() > 0 {
        Some(diagnostics[0].explanation@)
    } else {
        None
    };
    let b0: Option<Seq<char>> = if diagnostics.len() > 0 {
        opt_view(diagnostics[0].learn)
    } else {
        None
    };
    let cmds = if diagnostics.len() > 0 {
        commands_view(diagnostics[0].commands@)
    } else {
        seq![]
    };
    match skill {
        None => (d0, None, b0, cmds),
        Some(s) => (
            if d0 is None {
                Some(s.pattern@)
            } else {
                d0
            },
            if s.causes@.len() > 0 {
                Some(join(views(s.causes@), ", "@))
            } else {
                None
            },
            if s.teaches@.len() > 0 && b0 is None {
                Some(join(views(s.teaches@), ", "@))
            } else {
                b0
            },
            cmds,
        ),
    }
}

/// Advice that says nothing.
pub open spec fn advice_is_empty(
    a: (Option<Seq<char>>, Option<Seq<char>>, Option<Seq<char>>, Seq<(Seq<char>, Seq<char>)>),
) -> bool {
    a.0 is None && a.1 is None && a.2 is None && a.3.len() == 0
}

/// Whether the coach has anything to look at: it is on and the command
/// failed or printed an error.
pub open spec fn coaching_due(enabled: bool, exit_code: i32, stderr: Seq<char>) -> bool {
    enabled && !(exit_code == 0 && stderr.len() == 0)
}

impl EventRouter {
    /// A router with the coach on.
    pub fn new() -> (r: Self)
        ensures
            r@,
    {
        EventRouter { enabled: true }
    }

    /// Turns the coach on or off.
    pub fn set_enabled(&mut self, enabled: bool)
        ensures
            final(self)@ == enabled,
    {
        self.enabled = enabled;
    }

    /// The error reported for a failed command: its standard error, or
    /// `Exit code: N` when it printed none. The diagnostics and the skill
    /// are looked up with this text.
    pub fn error_message(exit_code: i32, stderr: &str) -> (r: String)
        ensures
            r@ == error_text(exit_code, stderr@),
    {
        if stderr.unicode_len() > 0 {
            owned(stderr)
        } else {
            let mut m = owned("Exit code: ");
            m.append(i64_to_dec(exit_code as i64).as_str());
            m
        }
    }

    /// Advice about a command that exited with `exit_code` and printed
    /// `stderr`: nothing when the coach is off or the command succeeded
    /// quietly; otherwise the first of `diagnostics` gives the diagnosis,
    /// best practice and commands, and `skill` fills in the diagnosis if
    /// there is none, the causes as explanation, and its lessons as best
    /// practice if there is none. Advice that says nothing is not given.
    pub fn process_command_result(
        &self,
        exit_code: i32,
        stderr: &str,
        diagnostics: &[DiagnosticContext],
        skill: Option<&SkillMatch>,
    ) -> (r: Option<CoachResponse>)
        ensures
            !coaching_due(self@, exit_code, stderr@) ==> r is None,
            coaching_due(self@, exit_code, stderr@) ==> {
                let a = advice(
                    diagnostics@,
                    match skill {
                        Some(s) => Some(*s),
                        None => None,
                    },
                );
                match r {
                    Some(resp) => !advice_is_empty(a) && response_view(resp) == a,
                    None => advice_is_empty(a),
                }
            },
    {
        if !self.enabled {
            return None;
        }
        if exit_code == 0 && stderr.unicode_len() == 0 {
            return None;
        }
        let mut response = CoachResponse::new();
        if diagnostics.len() > 0 {
            let ctx = &diagnostics[0];
            response = response.with_diagnosis(ctx.explanation.as_str());
            match &ctx.learn {
                Some(learn) => {
                    response = response.with_best_practice(learn.as_str());
                },
                None => {},
            }
            let mut i: usize = 0;
            assert(commands_view(ctx.commands@).take(0) =~= Seq::<(Seq<char>, Seq<char>)>::empty());
            while i < ctx.commands.len()
                invariant
                    i <= ctx.commands@.len(),
                    diagnostics@.len() > 0,
                    *ctx == diagnostics@[0],
                    response_view(response).0 == Some(ctx.explanation@),
                    response_view(response).1 is None,
                    response_view(response).2 == opt_view(ctx.learn),
                    response_view(response).3 == commands_view(ctx.commands@).take(i as int),
                decreases ctx.commands.len() - i,
            {
                let c = &ctx.commands[i];
                response = response.add_command(c.cmd.as_str(), c.purpose.as_str());
                assert(commands_view(ctx.commands@).take(i + 1) =~= commands_view(ctx.commands@).take(
                    i as int,
                ).push((c.cmd@, c.purpose@)));
                i = i + 1;
            }
            assert(commands_view(ctx.commands@).take(ctx.commands@.len() as int) =~= commands_view(
                ctx.commands@,
            ));
        } else {
            assert(commands_view(response.commands@) =~= Seq::<(Seq<char>, Seq<char>)>::empty());
        }
        match skill {
            Some(s) => {
                if response.diagnosis.is_none() {
                    response = response.with_diagnosis(s.pattern.as_str());
                }
                if s.causes.len() > 0 {
                    let causes = join_strings(&s.causes, ", ");
                    response = response.with_explanation(causes.as_str());
                }
                if s.teaches.len() > 0 && response.best_practice.is_none() {
                    let teaches = join_strings(&s.teaches, ", ");
                    response = response.with_best_practice(teaches.as_str());
                }
            },
            None => {},
        }
        if response.is_empty() {
            None
        } else {
            Some(response)
        }
    }
}

impl Default for EventRouter {
    fn default() -> (r: Self)
        ensures
            r@,
    {
        EventRouter::new()
    }
}

} // verus!
