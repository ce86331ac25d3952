//! Results of kubectl runs and how they are shown.
use vstd::prelude::*;
use crate::text::{byte_boundary, byte_len, dec_int, i64_to_dec, lemma_byte_len_concat, owned, prefix_bytes, split_words, str_byte_len, str_eq, str_trim, take_bytes, trim, views, words};

verus! {

/// Result of a kubectl command execution.
#[derive(Debug, Clone)]
pub struct ExecutionResult {
    /// Exit code, if the process exited normally.
    pub exit_code: Option<i32>,
    /// Standard output.
    pub stdout: String,
    /// Standard error.
    pub stderr: String,
    /// Execution duration in milliseconds.
    pub execution_duration_ms: i64,
}

/// The marker appended to an output cut by `truncate_output`.
pub open spec fn truncated_marker() -> Seq<char> {
    "\n... (truncated)"@
}

/// `s` cut to `max` bytes and marked, when it is longer than `max` bytes.
pub open spec fn truncated_to(s: Seq<char>, max: nat) -> Seq<char> {
    if byte_len(s) > max { take_bytes(s, max as int) + truncated_marker() } else { s }
}

/// `{:?}` of an optional exit code.
pub open spec fn debug_exit_code(o: Option<i32>) -> Seq<char> {
    match o {
        Some(c) => "Some("@ + dec_int(c as int) + ")"@,
        None => "None"@,
    }
}

/// Whether an execution exited with status 0.
pub open spec fn succeeded(r: ExecutionResult) -> bool {
    r.exit_code == Some(0i32)
}

/// What `format_output` shows for a failed command, before the fallback.
pub open spec fn failure_text(stdout: Seq<char>, stderr: Seq<char>) -> Seq<char> {
    if stderr.len() > 0 {
        (if stdout.len() > 0 { stdout + "\n\n"@ } else { stdout }) + "Error: "@ + stderr
    } else {
        stdout
    }
}

/// What `format_output` shows for an execution result.
pub open spec fn formatted_output(r: ExecutionResult) -> Seq<char> {
    if succeeded(r) {
        if trim(r.stdout@).len() == 0 { "(No output - command succeeded)"@ } else { r.stdout@ }
    } else {
        let t = failure_text(r.stdout@, r.stderr@);
        if trim(t).len() == 0 { "Command failed with exit code: "@ + debug_exit_code(r.exit_code) } else { t }
    }
}

/// `{:?}` of an optional exit code.
pub fn debug_exit_code_string(o: Option<i32>) -> (r: String)
    ensures
        r@ == debug_exit_code(o),
{
    match o {
        Some(c) => {
            let mut r = owned("Some(");
            let d = i64_to_dec(c as i64);
            r.append(d.as_str());
            r.append(")");
            r
        },
        None => owned("None"),
    }
}

/// `s` cut to `max` bytes with the truncation marker, if it is longer.
fn truncate_string(s: String, max: usize) -> (r: String)
    requires
        byte_len(s@) > max ==> byte_boundary(s@, max as int),
    ensures
        r@ == truncated_to(s@, max as nat),
{
    if str_byte_len(s.as_str()) > max {
        let mut p = prefix_bytes(s.as_str(), max);
        p.append("\n... (truncated)");
        p
    } else {
        s
    }
}

impl ExecutionResult {
    /// A new execution result.
    pub fn new(exit_code: Option<i32>, stdout: String, stderr: String, execution_duration_ms: i64) -> (r: Self)
        ensures
            r.exit_code == exit_code,
            r.stdout == stdout,
            r.stderr == stderr,
            r.execution_duration_ms == execution_duration_ms,
    {
        ExecutionResult { exit_code, stdout, stderr, execution_duration_ms }
    }

    /// Whether the command exited with status 0.
    pub fn is_success(&self) -> (b: bool)
        ensures
            b == succeeded(*self),
    {
        match self.exit_code {
            Some(c) => c == 0,
            None => false,
        }
    }

    /// Cuts stdout and stderr to `max_bytes` bytes each, marking what was cut.
    /// The cut must fall on a character boundary of each output it shortens.
    pub fn truncate_output(&mut self, max_bytes: usize)
        requires
            byte_len(old(self).stdout@) > max_bytes ==> byte_boundary(old(self).stdout@, max_bytes as int),
            byte_len(old(self).stderr@) > max_bytes ==> byte_boundary(old(self).stderr@, max_bytes as int),
        ensures
            final(self).stdout@ == truncated_to(old(self).stdout@, max_bytes as nat),
            final(self).stderr@ == truncated_to(old(self).stderr@, max_bytes as nat),
            final(self).exit_code == old(self).exit_code,
            final(self).execution_duration_ms == old(self).execution_duration_ms,
    {
        let out = self.stdout.clone();
        self.stdout = truncate_string(out, max_bytes);
        let err = self.stderr.clone();
        self.stderr = truncate_string(err, max_bytes);
    }
}

/// Most bytes of each output kept for the log.
pub const LOG_OUTPUT_LIMIT: usize = 10240;

/// Why a command was not run.
pub const NOT_KUBECTL_MESSAGE: &'static str = "Command must start with 'kubectl'";

/// A command is a kubectl command: its first word is `kubectl`.
pub open spec fn is_kubectl_command(command: Seq<char>) -> bool {
    words(command).len() > 0 && words(command)[0] == "kubectl"@
}

/// The arguments to pass to kubectl for `command` (its words after the
/// first), or the refusal when the command is not a kubectl command.
pub fn kubectl_args(command: &str) -> (r: Result<Vec<String>, String>)
    ensures
        match r {
            Ok(args) => is_kubectl_command(command@) && views(args@) == words(command@).drop_first(),
            Err(m) => !is_kubectl_command(command@) && m@ == NOT_KUBECTL_MESSAGE@,
        },
{
    let parts = split_words(command);
    if parts.len() == 0 || !str_eq(parts[0].as_str(), "kubectl") {
        return Err(owned(NOT_KUBECTL_MESSAGE));
    }
    let mut args: Vec<String> = Vec::new();
    let mut i: usize = 1;
    while i < parts.len()
        invariant
            1 <= i <= parts@.len(),
            views(parts@) == words(command@),
            views(args@) == words(command@).subrange(1, i as int),
        decreases parts.len() - i,
    {
        let ghost before = views(args@);
        args.push(parts[i].clone());
        assert(views(args@) =~= before.push(words(command@)[i as int]));
        assert(words(command@).subrange(1, i + 1) =~= words(command@).subrange(1, i as int).push(
            words(command@)[i as int],
        ));
        i = i + 1;
    }
    assert(words(command@).subrange(1, parts@.len() as int) =~= words(command@).drop_first());
    Ok(args)
}

/// The result of a kubectl run as it is logged: both outputs cut to
/// `LOG_OUTPUT_LIMIT` bytes and marked when longer.
pub fn logged_result(exit_code: Option<i32>, stdout: String, stderr: String, execution_duration_ms: i64) -> (r: ExecutionResult)
    requires
        byte_len(stdout@) > LOG_OUTPUT_LIMIT ==> byte_boundary(stdout@, LOG_OUTPUT_LIMIT as int),
        byte_len(stderr@) > LOG_OUTPUT_LIMIT ==> byte_boundary(stderr@, LOG_OUTPUT_LIMIT as int),
    ensures
        r.exit_code == exit_code,
        r.stdout@ == truncated_to(stdout@, LOG_OUTPUT_LIMIT as nat),
        r.stderr@ == truncated_to(stderr@, LOG_OUTPUT_LIMIT as nat),
        r.execution_duration_ms == execution_duration_ms,
{
    let mut r = ExecutionResult::new(exit_code, stdout, stderr, execution_duration_ms);
    r.truncate_output(LOG_OUTPUT_LIMIT);
    r
}

/// Formats an execution result for display.
pub fn format_output(result: &ExecutionResult) -> (r: String)
    ensures
        r@ == formatted_output(*result),
{
    if result.is_success() {
        let t = str_trim(result.stdout.as_str());
        if t.as_str().is_empty() {
            owned("(No output - command succeeded)")
        } else {
            result.stdout.clone()
        }
    } else {
        let mut output = String::new();
        if !result.stdout.as_str().is_empty() {
            output.append(result.stdout.as_str());
        }
        if !result.stderr.as_str().is_empty() {
            if !output.as_str().is_empty() {
                output.append("\n\n");
            }
            output.append("Error: ");
            output.append(result.stderr.as_str());
        }
        assert(output@ == failure_text(result.stdout@, result.stderr@));
        let t = str_trim(output.as_str());
        if t.as_str().is_empty() {
            let mut r = owned("Command failed with exit code: ");
            let d = debug_exit_code_string(result.exit_code);
            r.append(d.as_str());
            r
        } else {
            output
        }
    }
}

/// A truncated output takes at most `max` bytes and the marker.
pub proof fn law_truncated_output_bounded(s: Seq<char>, max: nat)
    requires
        byte_len(s) > max ==> byte_boundary(s, max as int),
    ensures
        byte_len(truncated_to(s, max)) <= max + byte_len(truncated_marker()),
{
    if byte_len(s) > max {
        let k = choose|k: int| 0 <= k <= s.len() && byte_len(s.take(k)) == max;
        lemma_byte_len_concat(take_bytes(s, max as int), truncated_marker());
    }
}

} // verus!
