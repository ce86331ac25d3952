//! Explaining an error: by a known pattern when one recognises it, else by
//! asking a language model and reading its JSON answer.
use crate::error::patterns::{
    builtin_error_patterns, explanation_view, match_with, solutions_view, ErrorExplanation,
    PatternMatcher, Solution,
};
use crate::kubectl::RiskLevel;
use crate::text::{opt_view, owned, str_eq, views};
use vstd::prelude::*;

verus! {

/// A solution in a model's answer, as decoded from JSON: each field is
/// present only where the answer gave it as a string.
#[derive(Debug, Clone)]
pub struct SolutionReply {
    pub description: Option<String>,
    pub command: Option<String>,
    pub risk_level: Option<String>,
}

/// A model's answer about an error, as decoded from JSON: each field is
/// present only where the answer gave it with the expected JSON type
/// (strings, arrays, an unsigned integer); a cause is present only where
/// the array entry was a string.
#[derive(Debug, Clone)]
pub struct ExplanationReply {
    pub error_type: Option<String>,
    pub reason: Option<String>,
    pub possible_causes: Option<Vec<Option<String>>>,
    pub solutions: Option<Vec<SolutionReply>>,
    pub recommended_solution: Option<u64>,
}

/// What to do next when explaining an error.
pub enum ExplainStep {
    /// A known pattern explained it.
    Known(ErrorExplanation),
    /// Nothing known explains it: ask the model this prompt, then read its
    /// answer with `parse_llm_explanation`.
    AskModel(String),
}

/// Explains errors: known patterns first, a language model otherwise.
pub struct ErrorExplainer {
    pattern_matcher: PatternMatcher,
}

impl View for ErrorExplainer {
    /// The patterns it knows, tried in order.
    type V = Seq<(Seq<char>, Seq<char>, Seq<char>, Seq<char>, Seq<(Seq<char>, Option<Seq<char>>, RiskLevel)>)>;

    closed spec fn view(&self) -> Self::V {
        self.pattern_matcher@
    }
}

/// The kind of error used when the answer gives none.
pub const UNKNOWN_ERROR_TYPE: &'static str = "Unknown Error";

/// The reason used when the answer gives none.
pub const NO_REASON: &'static str = "無法解釋此錯誤";

/// What precedes the reason a JSON answer could not be read.
pub const BAD_JSON_PREFIX: &'static str = "Failed to parse LLM response as JSON: ";

/// The prompt up to the error message.
pub const EXPLAIN_PROMPT_OPENING: &'static str = "\nYou are an expert DevOps engineer. Explain the following error and provide solutions.\n\nError Message:\n```\n";

/// The prompt between the error message and the working directory.
pub const EXPLAIN_PROMPT_DIRECTORY: &'static str = "\n```\n\nContext:\n- Working Directory: ";

/// The prompt between the working directory and the user.
pub const EXPLAIN_PROMPT_USER: &'static str = "\n- User: ";

/// The rest of the prompt, after the user.
pub const EXPLAIN_PROMPT_CLOSING: &'static str = "\n\nProvide your response in JSON format:\n{\n  \"error_type\": \"Brief error classification\",\n  \"reason\": \"Human-readable explanation in Traditional Chinese\",\n  \"possible_causes\": [\"cause 1 (繁體中文)\", \"cause 2 (繁體中文)\", \"cause 3 (繁體中文)\"],\n  \"solutions\": [\n    {\n      \"description\": \"Solution description (繁體中文)\",\n      \"command\": \"exact command to run (if applicable)\",\n      \"risk_level\": \"low|medium|high\"\n    }\n  ],\n  \"recommended_solution\": 0\n}\n";

/// The prompt asking the model to explain `error`, met in `directory` by
/// `user`.
pub open spec fn error_prompt(error: Seq<char>, directory: Seq<char>, user: Seq<char>) -> Seq<char> {
    EXPLAIN_PROMPT_OPENING@ + error + EXPLAIN_PROMPT_DIRECTORY@ + directory + EXPLAIN_PROMPT_USER@
        + user + EXPLAIN_PROMPT_CLOSING@
}

/// The risk a solution's level names: `medium` and `high` as said, a
/// `critical` one as high (the highest level here), anything else low.
pub open spec fn risk_named(s: Seq<char>) -> RiskLevel {
    if s == "medium"@ {
        RiskLevel::Medium
    } else if s == "high"@ || s == "critical"@ {
        RiskLevel::High
    } else {
        RiskLevel::Low
    }
}

/// A solution of the answer, when it has both a description and a level.
pub open spec fn solution_from(s: SolutionReply) -> Option<(Seq<char>, Option<Seq<char>>, RiskLevel)> {
    match (s.description, s.risk_level) {
        (Some(d), Some(level)) => Some((d@, opt_view(s.command), risk_named(level@))),
        _ => None,
    }
}

/// The solutions of the answer that have a description and a level, in
/// order.
pub open spec fn kept_solutions(v: Seq<SolutionReply>) -> Seq<(Seq<char>, Option<Seq<char>>, RiskLevel)>
    decreases v.len(),
{
    if v.len() == 0 {
        seq![]
    } else {
        let rest = kept_solutions(v.drop_last());
        match solution_from(v.last()) {
            Some(s) => rest.push(s),
            None => rest,
        }
    }
}

/// The causes of the answer that are strings, in order.
pub open spec fn kept_causes(v: Seq<Option<String>>) -> Seq<Seq<char>>
    decreases v.len(),
{
    if v.len() == 0 {
        seq![]
    } else {
        let rest = kept_causes(v.drop_last());
        match v.last() {
            Some(c) => rest.push(c@),
            None => rest,
        }
    }
}

/// The explanation an answer gives, as plain values: its kind of error
/// (`Unknown Error` when missing), its reason (a stock sentence when
/// missing), its string causes, its complete solutions, the solution it
/// recommends (the first when it names none), and no links.
pub open spec fn explanation_from_reply(r: ExplanationReply) -> (
    Seq<char>,
    Seq<char>,
    Seq<Seq<char>>,
    Seq<(Seq<char>, Option<Seq<char>>, RiskLevel)>,
    usize,
    Seq<Seq<char>>,
) {
    (
        match r.error_type {
            Some(t) => t@,
            None => UNKNOWN_ERROR_TYPE@,
        },
        match r.reason {
            Some(t) => t@,
            None => NO_REASON@,
        },
        match r.possible_causes {
            Some(c) => kept_causes(c@),
            None => seq![],
        },
        match r.solutions {
            Some(s) => kept_solutions(s@),
            None => seq![],
        },
        match r.recommended_solution {
            Some(n) => n as usize,
            None => 0usize,
        },
        seq![],
    )
}

/// The risk level a solution names.
fn risk_level_named(s: &str) -> (r: RiskLevel)
    ensures
        r == risk_named(s@),
{
    if str_eq(s, "medium") {
        RiskLevel::Medium
    } else if str_eq(s, "high") || str_eq(s, "critical") {
        RiskLevel::High
    } else {
        RiskLevel::Low
    }
}

/// The strings among `v`, in order.
fn causes_from(v: &Vec<Option<String>>) -> (r: Vec<String>)
    ensures
        views(r@) == kept_causes(v@),
{
    let mut r: Vec<String> = Vec::new();
    let mut i: usize = 0;
    while i < v.len()
        invariant
            i <= v@.len(),
            views(r@) == kept_causes(v@.take(i as int)),
        decreases v.len() - i,
    {
        assert(v@.take(i + 1).drop_last() =~= v@.take(i as int));
        let ghost before = views(r@);
        match &v[i] {
            Some(c) => {
                r.push(c.clone());
                assert(views(r@) =~= before.push(c@));
            },
            None => {},
        }
        i = i + 1;
    }
    assert(v@.take(v@.len() as int) =~= v@);
    r
}

/// The complete solutions among `v`, in order.
fn solutions_from(v: &Vec<SolutionReply>) -> (r: Vec<Solution>)
    ensures
        solutions_view(r@) == kept_solutions(v@),
{
    let mut r: Vec<Solution> = Vec::new();
    let mut i: usize = 0;
    while i < v.len()
        invariant
            i <= v@.len(),
            solutions_view(r@) == kept_solutions(v@.take(i as int)),
        decreases v.len() - i,
    {
        assert(v@.take(i + 1).drop_last() =~= v@.take(i as int));
        let ghost before = solutions_view(r@);
        let s = &v[i];
        match (&s.description, &s.risk_level) {
            (Some(d), Some(level)) => {
                let sol = Solution {
                    description: d.clone(),
                    command: s.command.clone(),
                    risk_level: risk_level_named(level.as_str()),
                };
                r.push(sol);
                assert(solutions_view(r@) =~= before.push(
                    (d@, opt_view(s.command), risk_named(level@)),
                ));
            },
            _ => {},
        }
        i = i + 1;
    }
    assert(v@.take(v@.len() as int) =~= v@);
    r
}

impl ErrorExplainer {
    /// An explainer that knows the built-in patterns.
    pub fn new() -> (r: Self)
        ensures
            r@ == builtin_error_patterns(),
    {
        ErrorExplainer { pattern_matcher: PatternMatcher::new() }
    }

    /// The first step of explaining `error_text`, met in `working_directory`
    /// by `user`: the explanation of the first known pattern that
    /// recognises it, or else the prompt to ask a model.
    pub fn explain(&self, error_text: &str, working_directory: &str, user: &str) -> (r: ExplainStep)
        ensures
            match r {
                ExplainStep::Known(e) => match_with(self@, error_text@) == Some(explanation_view(e)),
                ExplainStep::AskModel(p) => match_with(self@, error_text@) is None && p@ == error_prompt(
                    error_text@,
                    working_directory@,
                    user@,
                ),
            },
    {
        match self.pattern_matcher.match_pattern(error_text) {
            Some(e) => ExplainStep::Known(e),
            None => ExplainStep::AskModel(self.build_error_explanation_prompt(error_text, working_directory, user)),
        }
    }

    /// The prompt asking a model to explain `error`.
    pub fn build_error_explanation_prompt(&self, error: &str, working_directory: &str, user: &str) -> (r: String)
        ensures
            r@ == error_prompt(error@, working_directory@, user@),
    {
        let mut p = owned(EXPLAIN_PROMPT_OPENING);
        p.append(error);
        p.append(EXPLAIN_PROMPT_DIRECTORY);
        p.append(working_directory);
        p.append(EXPLAIN_PROMPT_USER);
        p.append(user);
        p.append(EXPLAIN_PROMPT_CLOSING);
        p
    }

    /// The explanation in a model's answer, given as decoded from JSON, or
    /// the reason it could not be decoded.
    pub fn parse_llm_explanation(&self, reply: Result<ExplanationReply, String>) -> (r: Result<ErrorExplanation, String>)
        ensures
            match reply {
                Ok(a) => r matches Ok(e) && explanation_view(e) == explanation_from_reply(a),
                Err(why) => r matches Err(m) && m@ == BAD_JSON_PREFIX@ + why@,
            },
    {
        match reply {
            Err(why) => {
                let mut m = owned(BAD_JSON_PREFIX);
                m.append(why.as_str());
                Err(m)
            },
            Ok(a) => {
                let error_type = match &a.error_type {
                    Some(t) => t.clone(),
                    None => owned(UNKNOWN_ERROR_TYPE),
                };
                let reason = match &a.reason {
                    Some(t) => t.clone(),
                    None => owned(NO_REASON),
                };
                let possible_causes = match &a.possible_causes {
                    Some(c) => causes_from(c),
                    None => Vec::new(),
                };
                let solutions = match &a.solutions {
                    Some(s) => solutions_from(s),
                    None => Vec::new(),
                };
                let recommended_solution: usize = match a.recommended_solution {
                    Some(n) => n as usize,
                    None => 0,
                };
                let e = ErrorExplanation {
                    error_type,
                    reason,
                    possible_causes,
                    solutions,
                    recommended_solution,
                    documentation_links: Vec::new(),
                };
                assert(views(e.possible_causes@) =~= explanation_from_reply(a).2);
                assert(solutions_view(e.solutions@) =~= explanation_from_reply(a).3);
                assert(views(e.documentation_links@) =~= seq![]);
                Ok(e)
            },
        }
    }
}

impl Default for ErrorExplainer {
    fn default() -> (r: Self)
        ensures
            r@ == builtin_error_patterns(),
    {
        ErrorExplainer::new()
    }
}

} // verus!
