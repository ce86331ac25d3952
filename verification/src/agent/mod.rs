//! The troubleshooting agent: its state and root-cause diagnosis.
pub mod agent_loop;
pub mod diagnosis;

pub use agent_loop::{AgentState, AgentStatus, AgentStep, StepType};
pub use diagnosis::{DiagnosisStrategy, ProblemContext, RootCauseAnalyzer};
