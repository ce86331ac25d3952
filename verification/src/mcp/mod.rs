//! The assistant's tools as offered to an MCP client: what each tool
//! answers. The protocol loop and running commands are done by the
//! application.
pub mod tools;
pub mod types;

pub use tools::KaidoTools;
pub use types::{ToolCallResult, ToolContent, ToolDefinition};
