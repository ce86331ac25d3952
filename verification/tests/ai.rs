use kaido::ai::explainer::CommandExplainer;
use kaido::ai::ollama::{extract_code_block, extract_command, OllamaBackend, OllamaStatus};
use kaido::ai::parser::single_command_fallback;
use kaido::ai::prompt_builder::PromptBuilder;
use kaido::ai::react::{NextAction, ReActStep};

#[test]
fn test_build_explain_prompt() {
    let prompt = CommandExplainer::build_explain_prompt("lsof -i :80", "network");

    assert!(prompt.contains("lsof -i :80"));
    assert!(prompt.contains("network"));
    assert!(prompt.contains("beginner"));
}

#[test]
fn test_format_explanation() {
    let raw = "```\nlsof = list open files\n\nUseful for finding ports.\n```";
    let formatted = CommandExplainer::format_explanation(raw);

    assert!(!formatted.contains("```"));
    assert!(formatted.contains("lsof"));
}

#[test]
fn format_explanation_strips_markers_and_keeps_twelve_lines() {
    let raw = "  **Bold** and *em*\nline2\nline3\nline4\nline5\nline6\nline7\nline8\nline9\nline10\nline11\nline12\nline13\n";
    let formatted = CommandExplainer::format_explanation(raw);
    assert_eq!(formatted.lines().count(), 12);
    assert!(formatted.starts_with("Bold and em\nline2"));
    assert!(!formatted.contains("line13"));
}

#[test]
fn explain_sync_kubectl_exact() {
    let text = CommandExplainer::explain_sync("kubectl get pods -n kube-system", "kubectl");
    assert_eq!(
        text,
        "kubectl = \"Kubernetes command-line tool\"\n\nKubernetes manages containerized applications across clusters.\n\nFlags:\n  get -> retrieve resources\n  -n -> specify namespace\n\nWhen to use: Managing Kubernetes deployments, debugging pods, viewing logs."
    );
}

#[test]
fn explain_sync_unknown_command_has_no_flags() {
    let text = CommandExplainer::explain_sync("frobnicate --all", "other");
    assert_eq!(
        text,
        "frobnicate = \"command-line tool\"\n\nThis tool helps manage system operations.\n\nWhen to use: Various system administration tasks."
    );
}

#[test]
fn test_extract_command() {
    let text = "Here's the command:\n```bash\nls -la\n```";
    assert_eq!(extract_command(text), Some("ls -la".to_string()));

    let text = "```\nkubectl get pods\n```";
    assert_eq!(extract_command(text), Some("kubectl get pods".to_string()));

    let text = "No code block here";
    assert_eq!(extract_command(text), None);
}

#[test]
fn extract_command_skips_shell_marker_only_when_asked() {
    let text = "```shell\nuptime\n```";
    assert_eq!(extract_command(text), Some("uptime".to_string()));
    assert_eq!(extract_code_block(text, false), Some("shell\nuptime".to_string()));
    assert_eq!(extract_command("```\nunterminated"), None);
}

#[test]
fn test_default_config() {
    let backend = OllamaBackend::new();
    assert_eq!(backend.base_url, "http://localhost:11434");
    assert_eq!(backend.model, "llama3.2");
    assert_eq!(backend.model_name(), "llama3.2");
}

#[test]
fn test_recommend_model_priority() {
    // Should prefer codestral over others
    let models = vec![
        "llama3.2:3b".to_string(),
        "codestral:22b".to_string(),
        "qwen2.5:7b".to_string(),
    ];
    assert_eq!(
        OllamaBackend::recommend_model(&models),
        Some("codestral:22b".to_string())
    );

    // Should prefer qwen2.5:14b over smaller versions
    let models = vec![
        "llama3.2:3b".to_string(),
        "qwen2.5:14b".to_string(),
        "qwen2.5:7b".to_string(),
    ];
    assert_eq!(
        OllamaBackend::recommend_model(&models),
        Some("qwen2.5:14b".to_string())
    );

    // Should return first if no priority match
    let models = vec!["phi:latest".to_string(), "custom:v1".to_string()];
    assert_eq!(
        OllamaBackend::recommend_model(&models),
        Some("phi:latest".to_string())
    );

    // Empty list returns None
    let models: Vec<String> = vec![];
    assert_eq!(OllamaBackend::recommend_model(&models), None);
}

#[test]
fn status_from_probe() {
    let down = OllamaStatus::from_probe(false, vec!["llama3.2".to_string()]);
    assert!(!down.available);
    assert!(down.models.is_empty());
    assert_eq!(down.recommended_model, None);
    let up = OllamaStatus::from_probe(true, vec!["mistral:7b".to_string(), "llama3.2".to_string()]);
    assert!(up.available);
    assert_eq!(up.recommended_model, Some("llama3.2".to_string()));
}

#[test]
fn test_single_command_fallback() {
    let seq = single_command_fallback("ls -la");
    assert_eq!(seq.commands.len(), 1);
    assert_eq!(seq.commands[0].cmd, "ls -la");
    assert_eq!(seq.task, "Execute command");
    assert_eq!(seq.commands[0].description, "Direct command execution");
}

#[test]
fn test_prompt_builder() {
    let (system, user) = PromptBuilder::new()
        .with_system_prompt("You are a kubectl expert")
        .with_user_input("show pods")
        .build();

    assert_eq!(system, "You are a kubectl expert");
    assert_eq!(user, "show pods");
}

#[test]
fn react_step_and_done_action() {
    let step = ReActStep::new("t".to_string(), "ls".to_string(), "out".to_string());
    assert_eq!(step.command, "ls");
    let done = NextAction::done();
    assert!(done.done);
    assert_eq!(done.thought, "Task completed");
    assert!(done.command.is_empty());
}
