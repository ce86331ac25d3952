//! Entries of the command audit log: what is recorded for a command that ran
//! or was cancelled, and how long outputs are cut before they are stored.
//! The database itself is kept by the application.
use crate::clock::{epoch_offset, system_now};
use crate::kubectl::{ExecutionResult, RiskLevel};
use crate::text::{
    byte_boundary, byte_len, lemma_byte_len_concat, opt_view, owned, prefix_bytes, str_byte_len,
    take_bytes,
};
use vstd::prelude::*;

verus! {

/// Most bytes of standard output or error kept in an entry (10 KiB).
pub const MAX_OUTPUT_LENGTH: usize = 10240;

/// Appended to an output that was cut.
pub const TRUNCATION_NOTICE: &'static str = "\n\n[OUTPUT TRUNCATED]";

/// What the user did with a proposed command.
#[derive(Debug, Clone, Copy, PartialEq, Eq, Structural)]
pub enum UserAction {
    /// The command was run.
    Executed,
    /// The user declined to run it.
    Cancelled,
    /// The user changed it before it ran.
    Edited,
}

/// The name stored for an action.
pub open spec fn user_action_name(a: UserAction) -> Seq<char> {
    match a {
        UserAction::Executed => "EXECUTED"@,
        UserAction::Cancelled => "CANCELLED"@,
        UserAction::Edited => "EDITED"@,
    }
}

impl UserAction {
    /// The name stored for this action.
    pub fn as_str(&self) -> (r: &'static str)
        ensures
            r@ == user_action_name(*self),
    {
        match self {
            UserAction::Executed => "EXECUTED",
            UserAction::Cancelled => "CANCELLED",
            UserAction::Edited => "EDITED",
        }
    }
}

/// One row of the audit log.
#[derive(Debug, Clone)]
pub struct AuditLogEntry {
    /// Unix time, in seconds.
    pub timestamp: i64,
    /// Name of the system user.
    pub user_id: String,
    /// The request in the user's words.
    pub natural_language_input: String,
    /// The kubectl command.
    pub kubectl_command: String,
    /// The proposed command before the user edited it, if edited.
    pub original_command: Option<String>,
    /// The translation's confidence (0-100); absent for a typed command.
    pub confidence_score: Option<u8>,
    pub risk_level: RiskLevel,
    /// Context name.
    pub environment: String,
    pub cluster: String,
    pub namespace: Option<String>,
    /// Exit code; absent when the command did not run.
    pub exit_code: Option<i32>,
    pub stdout: Option<String>,
    pub stderr: Option<String>,
    pub execution_duration_ms: Option<i64>,
    pub user_action: UserAction,
}

/// What an entry is made from, besides the execution result.
pub struct AuditContext<'a> {
    pub natural_language: &'a str,
    pub kubectl_command: &'a str,
    pub confidence_score: Option<u8>,
    pub risk_level: RiskLevel,
    pub environment: &'a str,
    pub cluster: &'a str,
    pub namespace: Option<&'a str>,
}

/// An optional borrowed string as an optional character sequence.
pub open spec fn opt_str_view(o: Option<&str>) -> Option<Seq<char>> {
    match o {
        Some(s) => Some(s@),
        None => None,
    }
}

/// An output as stored: absent when empty.
pub open spec fn stored_output(s: Seq<char>) -> Option<Seq<char>> {
    if s.len() == 0 {
        None
    } else {
        Some(s)
    }
}

/// `s` as stored in the log: at most `MAX_OUTPUT_LENGTH` bytes, followed by
/// the truncation notice when it was longer.
pub open spec fn log_truncated(s: Seq<char>) -> Seq<char> {
    if byte_len(s) <= MAX_OUTPUT_LENGTH {
        s
    } else {
        take_bytes(s, MAX_OUTPUT_LENGTH as int) + TRUNCATION_NOTICE@
    }
}

/// `output` cut to `MAX_OUTPUT_LENGTH` bytes, with a notice, when it is
/// longer; the cut must fall on a character boundary. The result is never
/// longer than the limit and the notice together.
pub fn truncate_output(output: &str) -> (r: String)
    requires
        byte_len(output@) > MAX_OUTPUT_LENGTH ==> byte_boundary(output@, MAX_OUTPUT_LENGTH as int),
    ensures
        r@ == log_truncated(output@),
        byte_len(r@) <= MAX_OUTPUT_LENGTH + byte_len(TRUNCATION_NOTICE@),
{
    if str_byte_len(output) <= MAX_OUTPUT_LENGTH {
        proof {
            lemma_byte_len_concat(output@, TRUNCATION_NOTICE@);
        }
        owned(output)
    } else {
        let mut cut = prefix_bytes(output, MAX_OUTPUT_LENGTH);
        cut.append(TRUNCATION_NOTICE);
        proof {
            let k = choose|k: int|
                0 <= k <= output@.len() && byte_len(output@.take(k)) == MAX_OUTPUT_LENGTH;
            lemma_byte_len_concat(take_bytes(output@, MAX_OUTPUT_LENGTH as int), TRUNCATION_NOTICE@);
        }
        cut
    }
}

/// Calls `users::get_current_username` and converts the name to a
/// `String`; nothing is said of who the user is.
#[verifier::external_body]
fn current_username() -> Option<String> {
    match users::get_current_username() {
        Some(name) => name.into_string().ok(),
        None => None,
    }
}

/// The user name recorded for a name looked up: the name itself, or
/// `unknown` when there is none.
pub open spec fn user_or_unknown_text(name: Option<Seq<char>>) -> Seq<char> {
    match name {
        Some(n) => n,
        None => "unknown"@,
    }
}

/// The user name recorded for a looked-up name: the name, or `unknown`.
pub fn user_or_unknown(name: Option<String>) -> (r: String)
    ensures
        r@ == user_or_unknown_text(opt_view(name)),
{
    match name {
        Some(n) => n,
        None => owned("unknown"),
    }
}

/// Name of the user running the program, or `unknown`.
pub fn current_user() -> (r: String) {
    user_or_unknown(current_username())
}

/// Unix time in seconds for a clock reading given as seconds after 1970
/// (`Ok`) or before it (`Err`, negative time); as an `i64`, the seconds
/// after 1970 are converted as `as` does and a time too far before 1970
/// is `i64::MIN`.
pub open spec fn unix_seconds_of(offset: Result<u64, u64>) -> i64 {
    match offset {
        Ok(s) => s as i64,
        Err(s) => if s <= i64::MAX {
            (-(s as int)) as i64
        } else {
            i64::MIN
        },
    }
}

/// Unix time in seconds for a clock reading after or before 1970.
pub fn unix_seconds(offset: Result<u64, u64>) -> (r: i64)
    ensures
        r == unix_seconds_of(offset),
{
    match offset {
        Ok(s) => s as i64,
        Err(s) => {
            if s <= 9223372036854775807u64 {
                let v: i64 = s as i64;
                -v
            } else {
                i64::MIN
            }
        },
    }
}

/// The current Unix time in seconds (negative when the clock reads before
/// 1970).
pub fn current_timestamp() -> i64 {
    unix_seconds(epoch_offset(system_now()))
}

/// The entry for a command that ran, recorded at `timestamp` by `user_id`.
pub fn audit_entry_from_execution_at(
    ctx: AuditContext,
    result: &ExecutionResult,
    user_action: UserAction,
    timestamp: i64,
    user_id: String,
) -> (r: AuditLogEntry)
    ensures
        r.timestamp == timestamp,
        r.user_id == user_id,
        r.natural_language_input@ == ctx.natural_language@,
        r.kubectl_command@ == ctx.kubectl_command@,
        r.original_command is None,
        r.confidence_score == ctx.confidence_score,
        r.risk_level == ctx.risk_level,
        r.environment@ == ctx.environment@,
        r.cluster@ == ctx.cluster@,
        opt_view(r.namespace) == opt_str_view(ctx.namespace),
        r.exit_code == result.exit_code,
        opt_view(r.stdout) == stored_output(result.stdout@),
        opt_view(r.stderr) == stored_output(result.stderr@),
        r.execution_duration_ms == Some(result.execution_duration_ms),
        r.user_action == user_action,
{
    let namespace = match ctx.namespace {
        Some(n) => Some(owned(n)),
        None => None,
    };
    let stdout = if result.stdout.as_str().unicode_len() == 0 {
        None
    } else {
        Some(owned(result.stdout.as_str()))
    };
    let stderr = if result.stderr.as_str().unicode_len() == 0 {
        None
    } else {
        Some(owned(result.stderr.as_str()))
    };
    AuditLogEntry {
        timestamp,
        user_id,
        natural_language_input: owned(ctx.natural_language),
        kubectl_command: owned(ctx.kubectl_command),
        original_command: None,
        confidence_score: ctx.confidence_score,
        risk_level: ctx.risk_level,
        environment: owned(ctx.environment),
        cluster: owned(ctx.cluster),
        namespace,
        exit_code: result.exit_code,
        stdout,
        stderr,
        execution_duration_ms: Some(result.execution_duration_ms),
        user_action,
    }
}

/// The entry for a command that ran, stamped with the current time and
/// user.
pub fn audit_entry_from_execution(
    ctx: AuditContext,
    result: &ExecutionResult,
    user_action: UserAction,
) -> (r: AuditLogEntry)
    ensures
        r.natural_language_input@ == ctx.natural_language@,
        r.kubectl_command@ == ctx.kubectl_command@,
        r.original_command is None,
        r.confidence_score == ctx.confidence_score,
        r.risk_level == ctx.risk_level,
        r.environment@ == ctx.environment@,
        r.cluster@ == ctx.cluster@,
        opt_view(r.namespace) == opt_str_view(ctx.namespace),
        r.exit_code == result.exit_code,
        opt_view(r.stdout) == stored_output(result.stdout@),
        opt_view(r.stderr) == stored_output(result.stderr@),
        r.execution_duration_ms == Some(result.execution_duration_ms),
        r.user_action == user_action,
{
    let timestamp = current_timestamp();
    let user_id = current_user();
    audit_entry_from_execution_at(ctx, result, user_action, timestamp, user_id)
}

/// The entry for a command the user cancelled, recorded at `timestamp` by
/// `user_id`: nothing ran, so it has no exit code, output or duration.
pub fn audit_entry_cancelled_at(
    natural_language: &str,
    kubectl_command: &str,
    confidence_score: Option<u8>,
    risk_level: RiskLevel,
    environment: &str,
    cluster: &str,
    namespace: Option<&str>,
    timestamp: i64,
    user_id: String,
) -> (r: AuditLogEntry)
    ensures
        r.timestamp == timestamp,
        r.user_id == user_id,
        r.natural_language_input@ == natural_language@,
        r.kubectl_command@ == kubectl_command@,
        r.original_command is None,
        r.confidence_score == confidence_score,
        r.risk_level == risk_level,
        r.environment@ == environment@,
        r.cluster@ == cluster@,
        opt_view(r.namespace) == opt_str_view(namespace),
        r.exit_code is None,
        r.stdout is None,
        r.stderr is None,
        r.execution_duration_ms is None,
        r.user_action == UserAction::Cancelled,
{
    let ns = match namespace {
        Some(n) => Some(owned(n)),
        None => None,
    };
    AuditLogEntry {
        timestamp,
        user_id,
        natural_language_input: owned(natural_language),
        kubectl_command: owned(kubectl_command),
        original_command: None,
        confidence_score,
        risk_level,
        environment: owned(environment),
        cluster: owned(cluster),
        namespace: ns,
        exit_code: None,
        stdout: None,
        stderr: None,
        execution_duration_ms: None,
        user_action: UserAction::Cancelled,
    }
}

/// The entry for a command the user cancelled, stamped with the current
/// time and user.
pub fn audit_entry_cancelled(
    natural_language: &str,
    kubectl_command: &str,
    confidence_score: Option<u8>,
    risk_level: RiskLevel,
    environment: &str,
    cluster: &str,
    namespace: Option<&str>,
) -> (r: AuditLogEntry)
    ensures
        r.natural_language_input@ == natural_language@,
        r.kubectl_command@ == kubectl_command@,
        r.original_command is None,
        r.confidence_score == confidence_score,
        r.risk_level == risk_level,
        r.environment@ == environment@,
        r.cluster@ == cluster@,
        opt_view(r.namespace) == opt_str_view(namespace),
        r.exit_code is None,
        r.stdout is None,
        r.stderr is None,
        r.execution_duration_ms is None,
        r.user_action == UserAction::Cancelled,
{
    let timestamp = current_timestamp();
    let user_id = current_user();
    audit_entry_cancelled_at(
        natural_language,
        kubectl_command,
        confidence_score,
        risk_level,
        environment,
        cluster,
        namespace,
        timestamp,
        user_id,
    )
}

} // verus!
