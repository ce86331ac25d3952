//! Context gathered for the coach about files and commands.
use vstd::prelude::*;

verus! {

/// Gathers context for the coach; no source of context is wired in yet, so
/// it gathers nothing.
pub struct ContextCollector;

impl ContextCollector {
    pub fn new() -> (r: Self) {
        ContextCollector
    }

    /// Context about a file: none.
    pub fn collect_for_file(&self, file_path: &str) -> (r: String)
        ensures
            r@.len() == 0,
    {
        String::new()
    }

    /// Context about a command and its output: none.
    pub fn collect_for_command(&self, cmd: &str, output: &str) -> (r: String)
        ensures
            r@.len() == 0,
    {
        String::new()
    }
}

impl Default for ContextCollector {
    fn default() -> (r: Self) {
        ContextCollector::new()
    }
}

} // verus!
