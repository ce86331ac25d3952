use kaido::error::explainer::{ErrorExplainer, ExplainStep, ExplanationReply, SolutionReply};
use kaido::error::patterns::{extract_filename_from_drush_error, PatternMatcher};
use kaido::kubectl::RiskLevel;

#[test]
fn test_mysql_error_1064() {
    let matcher = PatternMatcher::new();
    let error = "ERROR 1064 (42000) at line 1: You have an error in your SQL syntax";

    let explanation = matcher.match_pattern(error);
    assert!(explanation.is_some());

    let exp = explanation.unwrap();
    assert_eq!(exp.error_type, "SQL Syntax Error");
    assert!(!exp.solutions.is_empty());
}

#[test]
fn test_drush_sqlq_error() {
    let matcher = PatternMatcher::new();
    let error = "ERROR 1064 at line 1: drush sqlq database.mysql";

    let explanation = matcher.match_pattern(error);
    assert!(explanation.is_some());

    let exp = explanation.unwrap();
    assert_eq!(exp.error_type, "Drush SQL File Execution Error");
    assert_eq!(exp.solutions.len(), 3);
    assert!(exp.solutions[0].command.as_ref().unwrap().contains("sql:cli"));
    assert_eq!(exp.solutions[0].command, Some("vendor/bin/drush sql:cli < database.mysql".to_string()));
    assert_eq!(exp.possible_causes[0], "工具：drush");
    assert_eq!(exp.recommended_solution, 0);
}

#[test]
fn test_kubectl_permission_error() {
    let matcher = PatternMatcher::new();
    let error = "Error from server (Forbidden): kubectl get pods forbidden: User cannot list resource";

    let explanation = matcher.match_pattern(error);
    assert!(explanation.is_some());

    let exp = explanation.unwrap();
    assert_eq!(exp.error_type, "Kubernetes RBAC Permission Denied");
}

#[test]
fn test_docker_daemon_error() {
    let matcher = PatternMatcher::new();
    let error = "Cannot connect to the Docker daemon at unix:///var/run/docker.sock";

    let explanation = matcher.match_pattern(error);
    assert!(explanation.is_some());

    let exp = explanation.unwrap();
    assert_eq!(exp.error_type, "Docker Daemon Not Running");
    assert!(exp.solutions.len() >= 2);
}

#[test]
fn test_no_match() {
    let matcher = PatternMatcher::new();
    let error = "Some random error that doesn't match any pattern";

    let explanation = matcher.match_pattern(error);
    assert!(explanation.is_none());
}

#[test]
fn sql_file_extraction() {
    assert_eq!(extract_filename_from_drush_error("load dump.sql now"), Some("dump.sql".to_string()));
    assert_eq!(extract_filename_from_drush_error("nothing here"), None);
}

#[test]
fn explainer_uses_known_pattern_first() {
    let explainer = ErrorExplainer::new();
    match explainer.explain("Cannot connect to the Docker daemon at unix:///var/run/docker.sock", "/srv", "ops") {
        ExplainStep::Known(e) => {
            assert_eq!(e.error_type, "Docker Daemon Not Running");
            assert_eq!(e.solutions.len(), 3);
            assert_eq!(e.recommended_solution, 0);
        }
        ExplainStep::AskModel(_) => panic!("a known pattern should explain it"),
    }
}

#[test]
fn explainer_asks_model_for_unknown_error() {
    let explainer = ErrorExplainer::default();
    match explainer.explain("segfault in libfoo", "/home/ops", "alice") {
        ExplainStep::AskModel(prompt) => {
            assert!(prompt.starts_with("\nYou are an expert DevOps engineer."));
            assert!(prompt.contains("Error Message:\n```\nsegfault in libfoo\n```"));
            assert!(prompt.contains("- Working Directory: /home/ops\n- User: alice\n"));
            assert!(prompt.ends_with("\"recommended_solution\": 0\n}\n"));
        }
        ExplainStep::Known(_) => panic!("no pattern knows this error"),
    }
}

#[test]
fn explanation_from_model_answer() {
    let explainer = ErrorExplainer::new();
    let reply = ExplanationReply {
        error_type: Some("Disk Full".to_string()),
        reason: None,
        possible_causes: Some(vec![Some("logs".to_string()), None, Some("cache".to_string())]),
        solutions: Some(vec![
            SolutionReply { description: Some("clean logs".to_string()), command: Some("rm -rf /var/log/old".to_string()), risk_level: Some("critical".to_string()) },
            SolutionReply { description: None, command: None, risk_level: Some("low".to_string()) },
            SolutionReply { description: Some("check usage".to_string()), command: None, risk_level: Some("medium".to_string()) },
            SolutionReply { description: Some("no level".to_string()), command: None, risk_level: None },
            SolutionReply { description: Some("odd level".to_string()), command: None, risk_level: Some("extreme".to_string()) },
        ]),
        recommended_solution: Some(1),
    };
    let e = explainer.parse_llm_explanation(Ok(reply)).unwrap();
    assert_eq!(e.error_type, "Disk Full");
    assert_eq!(e.reason, "無法解釋此錯誤");
    assert_eq!(e.possible_causes, vec!["logs".to_string(), "cache".to_string()]);
    assert_eq!(e.solutions.len(), 3);
    assert_eq!(e.solutions[0].risk_level, RiskLevel::High);
    assert_eq!(e.solutions[0].command.as_deref(), Some("rm -rf /var/log/old"));
    assert_eq!(e.solutions[1].description, "check usage");
    assert_eq!(e.solutions[1].risk_level, RiskLevel::Medium);
    assert_eq!(e.solutions[2].risk_level, RiskLevel::Low);
    assert_eq!(e.recommended_solution, 1);
    assert!(e.documentation_links.is_empty());
}

#[test]
fn explanation_defaults_and_bad_json() {
    let explainer = ErrorExplainer::new();
    let empty = ExplanationReply { error_type: None, reason: None, possible_causes: None, solutions: None, recommended_solution: None };
    let e = explainer.parse_llm_explanation(Ok(empty)).unwrap();
    assert_eq!(e.error_type, "Unknown Error");
    assert!(e.possible_causes.is_empty());
    assert!(e.solutions.is_empty());
    assert_eq!(e.recommended_solution, 0);
    let err = explainer.parse_llm_explanation(Err("expected value at line 1 column 1".to_string())).unwrap_err();
    assert_eq!(err, "Failed to parse LLM response as JSON: expected value at line 1 column 1");
}

#[test]
fn test_error_explainer_creation() {
    let explainer = ErrorExplainer::new();
    assert!(matches!(explainer.explain("kubectl error", ".", "user"), ExplainStep::AskModel(_)));
}
