use kaido::auth::{AuthConfig, ProviderAuth};
use kaido::coach::event_router::{DiagnosticContext, EventRouter, SkillMatch};
use kaido::coach::ui::{PanelLine, PanelPosition, SidePanel};
use kaido::coach::{CoachCommand, CoachResponse, ContextCollector};
use kaido::config::{audit_db_path, config_path_under, join_path, Config, LogLevel};

#[test]
fn coach_response_builders() {
    let r = CoachResponse::new();
    assert!(r.is_empty());
    let r = r.with_diagnosis("d").add_command("ls", "list");
    assert!(!r.is_empty());
    assert_eq!(r.diagnosis, Some("d".to_string()));
    assert_eq!(r.commands[0].cmd, "ls");
}

#[test]
fn router_quiet_on_success_and_when_disabled() {
    let mut router = EventRouter::new();
    assert!(router.process_command_result(0, "", &[], None).is_none());
    router.set_enabled(false);
    assert!(router.process_command_result(1, "boom", &[], None).is_none());
}

#[test]
fn router_combines_diagnostic_and_skill() {
    let router = EventRouter::default();
    let diag = DiagnosticContext {
        explanation: "port busy".to_string(),
        learn: None,
        commands: vec![CoachCommand { cmd: "lsof -i :80".to_string(), purpose: "find it".to_string() }],
    };
    let skill = SkillMatch {
        pattern: "EADDRINUSE".to_string(),
        causes: vec!["another server".to_string(), "old process".to_string()],
        teaches: vec!["ports".to_string()],
    };
    let r = router.process_command_result(1, "address in use", &[diag], Some(&skill)).unwrap();
    assert_eq!(r.diagnosis, Some("port busy".to_string()));
    assert_eq!(r.explanation, Some("another server, old process".to_string()));
    assert_eq!(r.best_practice, Some("ports".to_string()));
    assert_eq!(r.commands.len(), 1);
    assert!(router.process_command_result(3, "", &[], None).is_none());
    assert_eq!(EventRouter::error_message(3, ""), "Exit code: 3");
}

#[test]
fn side_panel_content() {
    let mut panel = SidePanel::new(30);
    panel.set_position(PanelPosition::Left);
    panel.set_width(50);
    assert_eq!(panel.width(), 50);
    let idle = panel.build_content(&CoachResponse::new());
    assert_eq!(idle.len(), 4);
    let resp = CoachResponse::new().with_diagnosis("a\nb\nc\nd");
    let lines = panel.build_content(&resp);
    assert_eq!(lines.len(), 5);
    match &lines[3] {
        PanelLine::Text(t) => assert_eq!(t, "   c"),
        _ => panic!("expected text"),
    }
    let c = ContextCollector::new();
    assert!(c.collect_for_file("/x").is_empty());
    assert!(c.collect_for_command("ls", "out").is_empty());
}

#[test]
fn config_defaults_and_paths() {
    let c = Config::default();
    assert_eq!(c.ai.model, "gpt-4-turbo-preview");
    assert_eq!(c.ai.timeout_seconds, 10);
    assert_eq!(c.audit.retention_days, 90);
    assert!(c.safety.confirm_destructive);
    assert_eq!(c.display.show_confidence_threshold, 70);
    assert_eq!(LogLevel::Verbose.as_str(), "verbose");
    assert_eq!(join_path("/home/u", ".kaido"), "/home/u/.kaido");
    assert_eq!(join_path("/home/u/", ".kaido"), "/home/u/.kaido");
    assert_eq!(audit_db_path(None), "./.kaido/audit.db");
    assert_eq!(config_path_under(Some("/h".to_string())), Ok("/h/.kaido/config.toml".to_string()));
    assert!(config_path_under(None).is_err());
}

#[test]
fn copilot_token_prefers_access() {
    let mut auth = AuthConfig::default();
    assert_eq!(auth.get_copilot_token(), None);
    auth.providers.push((
        "github-copilot".to_string(),
        ProviderAuth { auth_type: "oauth".to_string(), refresh: Some("r".to_string()), access: None, key: None, expires: None },
    ));
    assert_eq!(auth.get_copilot_token(), Some("r".to_string()));
    auth.providers[0].1.access = Some("a".to_string());
    assert_eq!(auth.get_copilot_token(), Some("a".to_string()));
}

#[test]
fn any_filled_response_is_not_empty() {
    assert!(CoachResponse::new().is_empty());
    assert!(!CoachResponse::new().with_diagnosis("").is_empty());
    assert!(!CoachResponse::new().with_explanation("e").is_empty());
    assert!(!CoachResponse::new().with_best_practice("b").is_empty());
    assert!(!CoachResponse::new().add_command("", "").is_empty());
}
