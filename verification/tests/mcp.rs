use kaido::kubectl::RiskLevel;
use kaido::mcp::tools::KaidoTools;
use kaido::mcp::types::ToolContent;

#[test]
fn test_tool_definitions() {
    let tools = KaidoTools::new();
    let definitions = tools.get_definitions();

    assert_eq!(definitions.len(), 6);

    let names: Vec<_> = definitions.iter().map(|d| d.name.as_str()).collect();
    assert!(names.contains(&"kaido_diagnose"));
    assert!(names.contains(&"kaido_execute"));
    assert!(names.contains(&"kaido_explain"));
    assert!(names.contains(&"kaido_get_context"));
    assert!(names.contains(&"kaido_list_tools"));
    assert!(names.contains(&"kaido_check_risk"));
}

#[test]
fn test_risk_assessment() {
    let tools = KaidoTools::new();

    // Low risk
    assert!(matches!(tools.assess_risk("kubectl get pods", None), RiskLevel::Low));

    // High risk
    assert!(matches!(tools.assess_risk("kubectl delete pod nginx", None), RiskLevel::High));

    // Unknown command with delete
    assert!(matches!(tools.assess_risk("some-tool delete everything", None), RiskLevel::High));
}

#[test]
fn risk_by_keywords() {
    let tools = KaidoTools::new();
    assert_eq!(tools.assess_risk("mysql -e 'UPDATE t SET a=1'", None), RiskLevel::Medium);
    assert_eq!(tools.assess_risk("RM -rf /tmp/x", None), RiskLevel::High);
}

#[test]
fn test_list_tools() {
    let tools = KaidoTools::new();
    let result = tools.list_tools();

    assert!(!result.is_error);
    let ToolContent::Text { text } = &result.content[0];
    assert!(text.contains("kubectl"));
    assert!(text.contains("docker"));
    assert!(text.contains("nginx"));
    assert!(text.contains("## drush\n- **Status:** available\n"));
}

#[test]
fn check_risk_report_and_missing_command() {
    let tools = KaidoTools::new();
    let missing = tools.check_risk("", None, false);
    assert!(missing.is_error);
    let r = tools.check_risk("kubectl delete ns prod", None, true);
    assert!(!r.is_error);
    let ToolContent::Text { text } = &r.content[0];
    assert!(text.starts_with("# Risk Assessment\n\n**Command:** `kubectl delete ns prod`"));
    assert!(text.contains("**Risk Level:** HIGH"));
    assert!(text.ends_with("- **WARNING:** Production environment detected!\n"));
}

#[test]
fn diagnostics_and_suggestions() {
    let tools = KaidoTools::new();
    let cmds = tools.get_diagnostic_commands("Pod keeps CRASHING");
    let names: Vec<&str> = cmds.iter().map(|(n, _)| *n).collect();
    assert_eq!(names, vec!["Pod Status", "Recent Events"]);
    let general = tools.get_diagnostic_commands("something odd");
    assert_eq!(general[0].1, "uptime");
    assert_eq!(general[1].1, "df -h");
    assert!(tools.get_suggestions("nginx returns 502").starts_with("1. Check if the upstream"));
    assert!(tools.get_suggestions("port already in use").starts_with("1. Find process using port"));
}

#[test]
fn explain_tool_answer() {
    let tools = KaidoTools::new();
    let r = tools.explain("docker ps -a");
    let ToolContent::Text { text } = &r.content[0];
    assert!(text.starts_with("docker = \"Container management tool\""));
    assert!(tools.explain("").is_error);
}
