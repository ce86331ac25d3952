use kaido::mentor::cache::cache_key;
use kaido::mentor::detector::ErrorDetector;
use kaido::mentor::engine::{extract_command_name, generate_from_pattern, pattern_suffices};
use kaido::mentor::llm_fallback::{LLMMentor, LlmReply};
use kaido::mentor::{ErrorInfo, ErrorType, GuidanceSource, SourceLocation};

fn create_test_error() -> ErrorInfo {
    ErrorInfo::new(ErrorType::CommandNotFound, 127, "command not found: foo", "foo --bar")
        .with_output("bash: foo: command not found")
}

#[test]
fn test_build_prompt() {
    let error = create_test_error();
    let prompt = LLMMentor::build_prompt(&error);

    assert!(prompt.contains("foo --bar"));
    assert!(prompt.contains("127"));
    assert!(prompt.contains("Command Not Found"));
    assert!(prompt.contains("JSON"));
}

#[test]
fn build_prompt_truncates_output() {
    let error = create_test_error().with_output(&"z".repeat(1500));
    let prompt = LLMMentor::build_prompt(&error);
    assert!(prompt.contains(&format!("{}...(truncated)\n```", "z".repeat(1000))));
}

#[test]
fn test_extract_json_direct() {
    let response = r#"{"key_message": "test", "explanation": "test"}"#;
    let json = LLMMentor::extract_json(response);
    assert!(json.starts_with('{'));
    assert!(json.ends_with('}'));
}

#[test]
fn test_extract_json_from_markdown() {
    let response = r#"Here's the guidance:
```json
{"key_message": "test", "explanation": "test"}
```
"#;
    let json = LLMMentor::extract_json(response);
    assert!(json.contains("key_message"));
}

#[test]
fn test_extract_json_with_extra_text() {
    let response = r#"Let me help you:
{"key_message": "test", "explanation": "test"}
Hope this helps!"#;
    let json = LLMMentor::extract_json(response);
    assert!(json.starts_with('{'));
}

#[test]
fn extract_json_cases_exact() {
    assert_eq!(LLMMentor::extract_json("  {\"a\": {\"b\": 1}} trailing"), "{\"a\": {\"b\": 1}}");
    assert_eq!(LLMMentor::extract_json("x\n```\n{\"k\":1}\n```"), "{\"k\":1}");
    assert_eq!(LLMMentor::extract_json("see {\"k\":2} and } end"), "{\"k\":2} and }");
    assert_eq!(LLMMentor::extract_json(" plain text "), "plain text");
    assert!(LLMMentor::json_cut_ok("{\"a\":1}"));
}

#[test]
fn test_extract_explanation() {
    let response = "First paragraph with explanation.\n\nSecond paragraph.";
    let explanation = LLMMentor::extract_explanation(response);
    assert_eq!(explanation, "First paragraph with explanation.");
}

#[test]
fn extract_explanation_cuts_long_paragraph() {
    let response = "w".repeat(250);
    assert_eq!(LLMMentor::extract_explanation(&response), format!("{}...", "w".repeat(200)));
}

#[test]
fn test_parse_valid_response() {
    let error = create_test_error();
    let reply = LlmReply {
        key_message: "command not found".to_string(),
        explanation: "The command foo is not installed".to_string(),
        search_keywords: vec!["install foo".to_string()],
        next_steps: vec![("Install foo".to_string(), Some("brew install foo".to_string()))],
        related_concepts: vec!["PATH".to_string()],
    };
    let guidance = LLMMentor::guidance_from(Some(reply), "", &error);
    assert_eq!(guidance.key_message, "command not found");
    assert_eq!(guidance.source, GuidanceSource::LLM);
    assert_eq!(guidance.next_steps.len(), 1);
}

#[test]
fn test_parse_invalid_response_fallback() {
    let error = create_test_error();
    let response = "This is not valid JSON but contains useful information.";

    let guidance = LLMMentor::guidance_from(None, response, &error);
    // Should fall back gracefully
    assert_eq!(guidance.source, GuidanceSource::LLM);
    assert!(!guidance.explanation.is_empty());
    assert_eq!(guidance.key_message, "command not found: foo");
}

#[test]
fn test_command_not_found_guidance() {
    let error = ErrorInfo::new(ErrorType::CommandNotFound, 1, "command not found: kubectl", "test command");
    let guidance = generate_from_pattern(&error);

    assert_eq!(guidance.source, GuidanceSource::Pattern);
    assert!(!guidance.next_steps.is_empty());
    assert!(guidance.explanation.contains("kubectl"));
    assert_eq!(guidance.next_steps[1].command, Some("brew install kubectl".to_string()));
    assert!(pattern_suffices(&guidance));
}

#[test]
fn test_permission_denied_guidance() {
    let error = ErrorInfo::new(ErrorType::PermissionDenied, 1, "Permission denied", "test command");
    let guidance = generate_from_pattern(&error);

    assert!(guidance.explanation.contains("permission"));
    assert!(guidance
        .next_steps
        .iter()
        .any(|s| s.command.as_ref().is_some_and(|c| c.contains("sudo"))));
}

#[test]
fn test_unknown_error_fallback() {
    let error = ErrorInfo::new(ErrorType::Unknown, 1, "some unknown error", "test command");
    let guidance = generate_from_pattern(&error);

    assert_eq!(guidance.source, GuidanceSource::Fallback);
    assert_eq!(guidance.next_steps.len(), 2);
    assert!(!pattern_suffices(&guidance));
}

#[test]
fn configuration_guidance_points_at_location() {
    let error = ErrorInfo::new(ErrorType::ConfigurationError, 1, "unknown directive", "nginx -t")
        .with_location(SourceLocation::new("/etc/nginx/nginx.conf").with_line(42));
    let g = generate_from_pattern(&error);
    assert_eq!(
        g.explanation,
        "There's an error in /etc/nginx/nginx.conf:42. Check the file for typos or invalid directives."
    );
    assert_eq!(g.next_steps[0].command, Some("vim /etc/nginx/nginx.conf +42".to_string()));
}

#[test]
fn test_extract_command_name() {
    assert_eq!(extract_command_name("command not found: kubectl"), "kubectl");
    assert_eq!(extract_command_name("bash: foo: command not found"), "foo");
    assert_eq!(extract_command_name("docker: not found"), "docker");
    assert_eq!(extract_command_name(""), "command");
    assert_eq!(extract_command_name("zsh: bar: command not found"), "bar");
}

#[test]
fn test_cache_key_generation() {
    let error = ErrorInfo::new(ErrorType::CommandNotFound, 127, "command not found: kubectl", "kubectl get pods");
    let key = cache_key(&error);

    assert!(key.contains("Command Not Found"));
    assert!(key.contains("kubectl"));
    assert_eq!(key, "Command Not Found:command not found kubectl");
}

#[test]
fn test_similar_errors_same_cache() {
    let error1 = ErrorInfo::new(ErrorType::CommandNotFound, 127, "command not found: KUBECTL", "KUBECTL get pods");
    let error2 = ErrorInfo::new(ErrorType::CommandNotFound, 127, "Command Not Found: kubectl", "kubectl get pods");
    assert_eq!(cache_key(&error1), cache_key(&error2));
}

fn analyze(output: &str, code: i32) -> Option<ErrorInfo> {
    ErrorDetector::new().analyze(output, Some(code), "test command")
}

#[test]
fn test_detect_command_not_found() {
    let error = analyze("bash: foo: command not found", 127).unwrap();
    assert_eq!(error.error_type, ErrorType::CommandNotFound);
    assert!(error.key_message.contains("command not found"));
}

#[test]
fn test_detect_permission_denied() {
    let error = analyze("cat: /etc/shadow: Permission denied", 1).unwrap();
    assert_eq!(error.error_type, ErrorType::PermissionDenied);
}

#[test]
fn test_detect_file_not_found() {
    let error = analyze("cat: /nonexistent: No such file or directory", 1).unwrap();
    assert_eq!(error.error_type, ErrorType::FileNotFound);
}

#[test]
fn test_detect_connection_refused() {
    let error = analyze("curl: (7) Failed to connect: Connection refused", 7).unwrap();
    assert_eq!(error.error_type, ErrorType::ConnectionRefused);
}

#[test]
fn test_detect_nginx_config_error() {
    let error = analyze(
        "nginx: [emerg] unknown directive \"proxy_passs\" in /etc/nginx/nginx.conf:42",
        1,
    )
    .unwrap();
    assert_eq!(error.error_type, ErrorType::ConfigurationError);
    assert_eq!(error.key_message, "unknown directive \"proxy_passs\" in /etc/nginx/nginx.conf:42");
}

#[test]
fn test_detect_docker_error() {
    let error = analyze("Unable to find image 'nonexistent:latest' locally", 1).unwrap();
    assert_eq!(error.error_type, ErrorType::DockerError);
}

#[test]
fn test_detect_kubernetes_error() {
    let error = analyze("Error from server (NotFound): pods \"my-pod\" not found", 1).unwrap();
    assert_eq!(error.error_type, ErrorType::KubernetesError);
}

#[test]
fn test_detect_port_in_use() {
    let error = analyze("Error: listen EADDRINUSE: address already in use :::3000", 1).unwrap();
    assert_eq!(error.error_type, ErrorType::PortInUse);
}

#[test]
fn test_extract_source_location() {
    let detector = ErrorDetector::new();
    let location = detector.extract_source_location("Error in /etc/nginx/nginx.conf:42:10 - unknown directive");

    assert!(location.is_some());
    let loc = location.unwrap();
    assert_eq!(loc.file, "/etc/nginx/nginx.conf");
    assert_eq!(loc.line, Some(42));
    assert_eq!(loc.column, Some(10));
}

#[test]
fn test_no_error_on_success() {
    let detector = ErrorDetector::new();
    assert!(detector.analyze("success", Some(0), "echo success").is_none());
}

#[test]
fn test_no_error_on_interrupt() {
    let detector = ErrorDetector::new();
    assert!(detector.analyze("^C", Some(130), "sleep 100").is_none());
}

#[test]
fn test_git_error() {
    let error = analyze("fatal: not a git repository", 128).unwrap();
    assert_eq!(error.error_type, ErrorType::GitError);
}

#[test]
fn test_dependency_error() {
    let error = analyze("Error: Cannot find module 'express'", 1).unwrap();
    assert_eq!(error.error_type, ErrorType::DependencyError);
}

#[test]
fn unmatched_output_falls_back_to_exit_code_and_error_line() {
    let error = analyze("starting\n  build FAILED at step 3  \nbye", 2).unwrap();
    assert_eq!(error.error_type, ErrorType::InvalidArgument);
    assert_eq!(error.key_message, "build FAILED at step 3");
    assert_eq!(error.context_lines, vec!["starting", "build FAILED at step 3", "bye"]);
    let unknown = ErrorDetector::new().analyze("", None, "x").unwrap();
    assert_eq!(unknown.exit_code, 1);
    assert_eq!(unknown.key_message, "Unknown error");
}
