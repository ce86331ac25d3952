//! Results of MCP tool calls.
use vstd::prelude::*;

verus! {

/// A piece of a tool's answer.
#[derive(Debug, Clone)]
pub enum ToolContent {
    Text { text: String },
}

/// A tool's answer: its content, and whether it reports an error.
#[derive(Debug, Clone)]
pub struct ToolCallResult {
    pub content: Vec<ToolContent>,
    pub is_error: bool,
}

/// The answer holds the single text `t` and reports an error exactly when
/// `err`.
pub open spec fn answers(r: ToolCallResult, t: Seq<char>, err: bool) -> bool {
    &&& r.is_error == err
    &&& r.content@.len() == 1
    &&& r.content@[0] matches ToolContent::Text { text } && text@ == t
}

/// A tool as announced to the client: its name, what it does, and the JSON
/// schema of its input (as JSON text).
#[derive(Debug, Clone)]
pub struct ToolDefinition {
    pub name: String,
    pub description: String,
    pub input_schema: String,
}

impl ToolCallResult {
    /// A successful answer holding `text`.
    pub fn success(text: String) -> (r: Self)
        ensures
            answers(r, text@, false),
    {
        let mut content: Vec<ToolContent> = Vec::new();
        content.push(ToolContent::Text { text });
        ToolCallResult { content, is_error: false }
    }

    /// An error answer holding `text`.
    pub fn error(text: String) -> (r: Self)
        ensures
            answers(r, text@, true),
    {
        let mut content: Vec<ToolContent> = Vec::new();
        content.push(ToolContent::Text { text });
        ToolCallResult { content, is_error: true }
    }
}

} // verus!
