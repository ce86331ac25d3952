use kaido::audit::logger::unix_seconds;
use kaido::audit::logger::user_or_unknown;
use kaido::audit::agent_logger::{session_totals, step_type_label, success_code};
use kaido::audit::logger::{
    audit_entry_cancelled, audit_entry_cancelled_at, audit_entry_from_execution_at,
    truncate_output, AuditContext, UserAction, MAX_OUTPUT_LENGTH,
};
use kaido::audit::query::{format_table, QueryResult};
use kaido::agent::{AgentState, StepType};
use kaido::kubectl::{ExecutionResult, RiskLevel};

#[test]
fn test_truncate_output_short() {
    let short_output = "Hello, world!";
    assert_eq!(truncate_output(short_output), short_output);
}

#[test]
fn test_truncate_output_long() {
    let long_output = "x".repeat(20 * 1024); // 20KB
    let truncated = truncate_output(&long_output);
    assert!(truncated.len() <= MAX_OUTPUT_LENGTH + 50);
    assert!(truncated.ends_with("[OUTPUT TRUNCATED]"));
}

#[test]
fn truncate_output_exact_limit() {
    let at_limit = "y".repeat(MAX_OUTPUT_LENGTH);
    assert_eq!(truncate_output(&at_limit), at_limit);
    let over = "y".repeat(MAX_OUTPUT_LENGTH + 1);
    let t = truncate_output(&over);
    assert_eq!(t, format!("{}\n\n[OUTPUT TRUNCATED]", "y".repeat(MAX_OUTPUT_LENGTH)));
}

#[test]
fn test_user_action_as_str() {
    assert_eq!(UserAction::Executed.as_str(), "EXECUTED");
    assert_eq!(UserAction::Cancelled.as_str(), "CANCELLED");
    assert_eq!(UserAction::Edited.as_str(), "EDITED");
}

#[test]
fn entry_from_execution_copies_context() {
    let ctx = AuditContext {
        natural_language: "show pods",
        kubectl_command: "kubectl get pods",
        confidence_score: Some(95),
        risk_level: RiskLevel::Low,
        environment: "dev-cluster",
        cluster: "dev",
        namespace: Some("default"),
    };
    let result = ExecutionResult {
        exit_code: Some(0),
        stdout: "pod1".to_string(),
        stderr: String::new(),
        execution_duration_ms: 123,
    };
    let e = audit_entry_from_execution_at(ctx, &result, UserAction::Executed, 1700000000, "alice".to_string());
    assert_eq!(e.timestamp, 1700000000);
    assert_eq!(e.user_id, "alice");
    assert_eq!(e.kubectl_command, "kubectl get pods");
    assert_eq!(e.namespace, Some("default".to_string()));
    assert_eq!(e.stdout, Some("pod1".to_string()));
    assert_eq!(e.stderr, None);
    assert_eq!(e.execution_duration_ms, Some(123));
    assert_eq!(e.original_command, None);
}

#[test]
fn cancelled_entry_has_no_outcome() {
    let e = audit_entry_cancelled_at("delete pods", "kubectl delete pods --all", Some(80), RiskLevel::High, "prod", "main", None, 5, "bob".to_string());
    assert_eq!(e.user_action, UserAction::Cancelled);
    assert_eq!(e.exit_code, None);
    assert_eq!(e.stdout, None);
    assert_eq!(e.execution_duration_ms, None);
    assert_eq!(e.namespace, None);
    let live = audit_entry_cancelled("x", "kubectl get x", None, RiskLevel::Low, "dev", "c", Some("ns"));
    assert_eq!(live.user_action, UserAction::Cancelled);
    assert_eq!(live.namespace, Some("ns".to_string()));
}

fn row(cmd: &str, env: &str) -> QueryResult {
    QueryResult {
        id: 1,
        executed_at: "2025-10-25 10:00:00".to_string(),
        user_id: "testuser".to_string(),
        natural_language_input: "show pods".to_string(),
        kubectl_command: cmd.to_string(),
        risk_level: "LOW".to_string(),
        environment: env.to_string(),
        user_action: "EXECUTED".to_string(),
        exit_code: Some(0),
    }
}

#[test]
fn test_format_table() {
    let results = vec![row("kubectl get pods", "dev")];

    let formatted = format_table(&results, 20);
    assert!(formatted.contains("ID"));
    assert!(formatted.contains("Time"));
    assert!(formatted.contains("kubectl get pods"));
    assert!(formatted.contains("Total: 1 results"));
}

#[test]
fn test_format_table_empty() {
    let results = vec![];
    let formatted = format_table(&results, 20);
    assert_eq!(formatted, "No commands found.");
}

#[test]
fn test_format_table_truncation() {
    let results = vec![row(
        "kubectl get pods -n namespace-with-very-long-name --selector=app=myapp",
        "development-cluster",
    )];

    let formatted = format_table(&results, 20);
    // Should truncate long command and environment
    assert!(formatted.contains("..."));
}

#[test]
fn format_table_row_and_footer_exact() {
    let results = vec![row("kubectl get pods", "dev"), row("kubectl get svc", "dev")];
    let formatted = format_table(&results, 1);
    let lines: Vec<&str> = formatted.lines().collect();
    assert_eq!(lines[1], "-".repeat(100));
    assert_eq!(
        lines[2],
        format!("{:<6} {:<20} {:<40} {:<15} {:<10} {:<8}", 1, "2025-10-25 10:00:00", "kubectl get pods", "dev", "EXECUTED", "0")
    );
    assert!(formatted.ends_with("\nShowing 1 of 2 results. Use pagination for more.\n"));
}

#[test]
fn query_result_helpers() {
    let mut r = row("kubectl get pods", "dev");
    assert!(!r.is_failed());
    r.exit_code = Some(2);
    assert!(r.is_failed());
    r.exit_code = None;
    assert!(!r.is_failed());
    assert_eq!(r.risk_level_enum(), RiskLevel::Low);
    r.risk_level = "MEDIUM".to_string();
    assert_eq!(r.risk_level_enum(), RiskLevel::Medium);
    r.risk_level = "??".to_string();
    assert_eq!(r.risk_level_enum(), RiskLevel::High);
    assert_eq!(r.display_summary(), "2025-10-25 10:00:00 | testuser | kubectl get pods | ??");
}

#[test]
fn session_records() {
    assert_eq!(step_type_label(StepType::Observation), "OBSERVATION");
    assert_eq!(success_code(Some(true)), Some(1));
    assert_eq!(success_code(Some(false)), Some(0));
    assert_eq!(success_code(None), None);
    let mut state = AgentState::new("task".to_string());
    state.add_step(StepType::Thought, "think".to_string(), None, None);
    state.add_step(StepType::Action, "act".to_string(), Some("kubectl".to_string()), Some(true));
    assert_eq!(session_totals(&state), (2, 1));
}

#[test]
fn user_name_or_unknown() {
    assert_eq!(user_or_unknown(Some("alice".to_string())), "alice");
    assert_eq!(user_or_unknown(None), "unknown");
}

#[test]
fn unix_seconds_before_and_after_1970() {
    assert_eq!(unix_seconds(Ok(1_700_000_000)), 1_700_000_000);
    assert_eq!(unix_seconds(Err(5)), -5);
    assert_eq!(unix_seconds(Err(u64::MAX)), i64::MIN);
    assert_eq!(unix_seconds(Err(0)), 0);
}
