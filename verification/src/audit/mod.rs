//! The command audit log: its entries, the session log's records, and how
//! stored history is shown.
pub mod agent_logger;
pub mod logger;
pub mod query;

pub use agent_logger::{AgentSessionDetail, AgentSessionSummary, AgentStepSummary};
pub use logger::{
    audit_entry_cancelled, audit_entry_from_execution, AuditContext, AuditLogEntry, UserAction,
};
pub use query::QueryResult;
