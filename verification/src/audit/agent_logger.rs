//! Records of troubleshooting sessions as the session log stores them. The
//! database is kept by the application; what goes into each record is
//! decided here.
use crate::agent::agent_loop::count_steps;
use crate::agent::{AgentState, StepType};
use vstd::prelude::*;

verus! {

/// A stored session, without its steps.
#[derive(Debug, Clone)]
pub struct AgentSessionSummary {
    pub session_id: String,
    pub task_description: String,
    pub start_time: i64,
    pub end_time: Option<i64>,
    pub status: String,
    pub total_steps: i64,
    pub total_actions: i64,
    pub duration_ms: Option<i64>,
    pub root_cause: Option<String>,
}

/// A stored session with its steps.
#[derive(Debug, Clone)]
pub struct AgentSessionDetail {
    pub session_id: String,
    pub task_description: String,
    pub start_time: i64,
    pub end_time: Option<i64>,
    pub status: String,
    pub total_steps: i64,
    pub total_actions: i64,
    pub duration_ms: Option<i64>,
    pub root_cause: Option<String>,
    pub solution_plan: Option<String>,
    pub steps: Vec<AgentStepSummary>,
}

/// A stored step.
#[derive(Debug, Clone)]
pub struct AgentStepSummary {
    pub step_number: i64,
    pub step_type: String,
    pub content: String,
    pub tool_used: Option<String>,
    pub success: Option<i32>,
    pub timestamp: i64,
}

/// The name under which a step type is stored.
pub open spec fn step_type_code(t: StepType) -> Seq<char> {
    match t {
        StepType::Thought => "THOUGHT"@,
        StepType::Action => "ACTION"@,
        StepType::Observation => "OBSERVATION"@,
        StepType::Reflection => "REFLECTION"@,
        StepType::Solution => "SOLUTION"@,
    }
}

/// The name under which a step type is stored.
pub fn step_type_label(t: StepType) -> (r: &'static str)
    ensures
        r@ == step_type_code(t),
{
    match t {
        StepType::Thought => "THOUGHT",
        StepType::Action => "ACTION",
        StepType::Observation => "OBSERVATION",
        StepType::Reflection => "REFLECTION",
        StepType::Solution => "SOLUTION",
    }
}

/// A step's outcome as stored: 1 for success, 0 for failure.
pub fn success_code(success: Option<bool>) -> (r: Option<i32>)
    ensures
        r == (match success {
            Some(b) => Some(if b { 1i32 } else { 0i32 }),
            None => None,
        }),
{
    match success {
        Some(b) => Some(if b { 1 } else { 0 }),
        None => None,
    }
}

/// The number of steps of a finished session and how many of them were
/// actions, as stored.
pub fn session_totals(state: &AgentState) -> (r: (i64, i64))
    ensures
        r.0 == state.history@.len() as i64,
        r.1 == count_steps(state.history@, StepType::Action) as i64,
{
    let actions = state.count_steps_of(StepType::Action);
    (state.history.len() as i64, actions as i64)
}

} // verus!
