use kaido::kubectl::executor::{kubectl_args, logged_result, LOG_OUTPUT_LIMIT};
use kaido::kubectl::context::{KubeContextEntry, Kubeconfig, KubeconfigError, NamedKubeContext};
use kaido::kubectl::openai::{build_system_prompt, build_user_prompt, handle_openai_error, is_retryable_error, validate_translation, TranslationError};
use kaido::kubectl::{format_output, EnvironmentType, ExecutionResult, KubectlContext, RiskLevel, TranslationResult};

#[test]
fn test_high_risk_classification() {
    assert_eq!(RiskLevel::classify("kubectl delete deployment nginx"), RiskLevel::High);
    assert_eq!(RiskLevel::classify("kubectl delete pod test-pod -n production"), RiskLevel::High);
    assert_eq!(RiskLevel::classify("kubectl drain node-01"), RiskLevel::High);
    assert_eq!(RiskLevel::classify("kubectl scale deployment nginx --replicas=0"), RiskLevel::High);
}

#[test]
fn test_medium_risk_classification() {
    assert_eq!(RiskLevel::classify("kubectl apply -f deployment.yaml"), RiskLevel::Medium);
    assert_eq!(RiskLevel::classify("kubectl scale deployment nginx --replicas=3"), RiskLevel::Medium);
    assert_eq!(RiskLevel::classify("kubectl create configmap my-config"), RiskLevel::Medium);
    assert_eq!(RiskLevel::classify("kubectl rollout restart deployment/nginx"), RiskLevel::Medium);
}

#[test]
fn test_low_risk_classification() {
    assert_eq!(RiskLevel::classify("kubectl get pods"), RiskLevel::Low);
    assert_eq!(RiskLevel::classify("kubectl describe service nginx"), RiskLevel::Low);
    assert_eq!(RiskLevel::classify("kubectl logs nginx-pod"), RiskLevel::Low);
    assert_eq!(RiskLevel::classify("kubectl top nodes"), RiskLevel::Low);
}

#[test]
fn test_string_conversion() {
    assert_eq!(RiskLevel::Low.as_str(), "LOW");
    assert_eq!(RiskLevel::Medium.as_str(), "MEDIUM");
    assert_eq!(RiskLevel::High.as_str(), "HIGH");
}

#[test]
fn test_requires_confirmation() {
    assert!(!RiskLevel::Low.requires_confirmation());
    assert!(RiskLevel::Medium.requires_confirmation());
    assert!(RiskLevel::High.requires_confirmation());
}

#[test]
fn classify_ignores_case() {
    assert_eq!(RiskLevel::classify("KUBECTL DELETE POD web"), RiskLevel::High);
    assert_eq!(RiskLevel::classify("kubectl Scale deploy x --Replicas=0"), RiskLevel::High);
    assert_eq!(RiskLevel::classify("Kubectl APPLY -f x"), RiskLevel::Medium);
    assert_eq!(RiskLevel::classify_lowered("KUBECTL DELETE POD web"), RiskLevel::Low);
}

#[test]
fn test_translation_result() {
    let result = TranslationResult::new(
        "kubectl get pods -n default".to_string(),
        95,
        "Standard pod listing in current namespace".to_string(),
    );
    assert!(result.is_valid_command());
    assert!(!result.is_low_confidence(70));
    assert!(!result.needs_clarification());
}

#[test]
fn test_low_confidence() {
    let result = TranslationResult::new("kubectl logs".to_string(), 40, "NEEDS_CLARIFICATION: Which pod?".to_string());
    assert!(result.is_low_confidence(70));
    assert!(result.needs_clarification());
}

#[test]
fn test_invalid_command() {
    let result = TranslationResult::new("docker ps".to_string(), 50, "Wrong tool".to_string());
    assert!(!result.is_valid_command());
}

#[test]
fn valid_command_after_trim() {
    let result = TranslationResult::new("  kubectl get pods\n".to_string(), 50, String::new());
    assert!(result.is_valid_command());
    let result = TranslationResult::new("kubectl".to_string(), 50, String::new());
    assert!(!result.is_valid_command());
}

#[test]
fn test_environment_detection() {
    assert_eq!(EnvironmentType::from_context_name("prod-cluster"), EnvironmentType::Production);
    assert_eq!(EnvironmentType::from_context_name("production-us-west"), EnvironmentType::Production);
    assert_eq!(EnvironmentType::from_context_name("staging-env"), EnvironmentType::Staging);
    assert_eq!(EnvironmentType::from_context_name("dev-cluster"), EnvironmentType::Development);
    assert_eq!(EnvironmentType::from_context_name("my-cluster"), EnvironmentType::Unknown);
}

#[test]
fn environment_detection_ignores_case() {
    assert_eq!(EnvironmentType::from_context_name("PROD-EU"), EnvironmentType::Production);
    assert_eq!(EnvironmentType::from_lowered_name("PROD-EU"), EnvironmentType::Unknown);
    assert_eq!(EnvironmentType::Staging.as_str(), "staging");
}

#[test]
fn test_effective_namespace() {
    let ctx = KubectlContext::new(
        "prod-cluster".to_string(),
        "production".to_string(),
        Some("my-namespace".to_string()),
        "admin".to_string(),
    );
    assert_eq!(ctx.effective_namespace(), "my-namespace");
    let ctx_no_ns = KubectlContext::new("prod-cluster".to_string(), "production".to_string(), None, "admin".to_string());
    assert_eq!(ctx_no_ns.effective_namespace(), "default");
    assert_eq!(ctx_no_ns.environment_type, EnvironmentType::Production);
}

#[test]
fn test_execution_result_success() {
    let result = ExecutionResult::new(Some(0), "NAME   READY   STATUS\npod1   1/1     Running".to_string(), String::new(), 150);
    assert!(result.is_success());
    assert_eq!(result.exit_code, Some(0));
}

#[test]
fn test_execution_result_failure() {
    let result = ExecutionResult::new(Some(1), String::new(), "Error: pod not found".to_string(), 100);
    assert!(!result.is_success());
}

#[test]
fn test_truncate_output() {
    let mut result = ExecutionResult::new(Some(0), "a".repeat(15000), "b".repeat(15000), 200);
    result.truncate_output(10240);
    assert!(result.stdout.len() <= 10260);
    assert!(result.stderr.len() <= 10260);
    assert!(result.stdout.ends_with("(truncated)"));
}

#[test]
fn truncate_output_exact_values() {
    let mut result = ExecutionResult::new(None, "abcdef".to_string(), "xy".to_string(), 0);
    result.truncate_output(3);
    assert_eq!(result.stdout, "abc\n... (truncated)");
    assert_eq!(result.stderr, "xy");
}

#[test]
fn format_output_cases() {
    let ok_empty = ExecutionResult::new(Some(0), "  \n".to_string(), String::new(), 1);
    assert_eq!(format_output(&ok_empty), "(No output - command succeeded)");
    let ok = ExecutionResult::new(Some(0), "pods".to_string(), String::new(), 1);
    assert_eq!(format_output(&ok), "pods");
    let both = ExecutionResult::new(Some(1), "out".to_string(), "bad".to_string(), 1);
    assert_eq!(format_output(&both), "out\n\nError: bad");
    let err_only = ExecutionResult::new(Some(2), String::new(), "bad".to_string(), 1);
    assert_eq!(format_output(&err_only), "Error: bad");
    let nothing = ExecutionResult::new(Some(-3), String::new(), String::new(), 1);
    assert_eq!(format_output(&nothing), "Command failed with exit code: Some(-3)");
    let killed = ExecutionResult::new(None, " ".to_string(), String::new(), 1);
    assert_eq!(format_output(&killed), "Command failed with exit code: None");
}

#[test]
fn test_build_system_prompt() {
    let context = KubectlContext::new(
        "prod-cluster".to_string(),
        "production".to_string(),
        Some("my-namespace".to_string()),
        "admin".to_string(),
    );
    let prompt = build_system_prompt(&context);
    assert!(prompt.contains("Cluster: production"));
    assert!(prompt.contains("Namespace: my-namespace"));
    assert!(prompt.contains("Environment: production"));
    assert!(prompt.contains("SUPPORTED OPERATIONS:"));
    assert!(prompt.contains("kubectl get pods -n my-namespace\""));
}

#[test]
fn test_build_user_prompt() {
    let context = KubectlContext::new("dev-cluster".to_string(), "development".to_string(), None, "user".to_string());
    let prompt = build_user_prompt("show pods", &context);
    assert!(prompt.contains("show pods"));
    assert!(prompt.contains("Current cluster: development"));
    assert!(prompt.contains("Current namespace: default"));
    assert!(prompt.contains("Environment type: development"));
}

#[test]
fn test_is_retryable_error() {
    assert!(is_retryable_error("Request timeout"));
    assert!(is_retryable_error("Network connection failed"));
    assert!(!is_retryable_error("401 Unauthorized"));
    assert!(is_retryable_error("NETWORK down"));
}

#[test]
fn openai_error_messages() {
    assert!(handle_openai_error("401 Unauthorized").starts_with("Invalid OpenAI API key"));
    assert!(handle_openai_error("429 Too Many").starts_with("OpenAI API rate limit exceeded"));
    assert!(handle_openai_error("HTTP 503").starts_with("OpenAI service unavailable"));
    assert!(handle_openai_error("request timeout").starts_with("OpenAI request timed out"));
    assert_eq!(
        handle_openai_error("boom"),
        "OpenAI translation failed. Enter kubectl command manually.\nOriginal error: boom"
    );
}

#[test]
fn test_parse_valid_translation() {
    let result = validate_translation("kubectl get pods -n default".to_string(), 95, "Standard listing".to_string()).unwrap();
    assert_eq!(result.kubectl_command, "kubectl get pods -n default");
    assert_eq!(result.confidence_score, 95);
    assert!(result.is_valid_command());
}

#[test]
fn test_parse_invalid_command() {
    let result = validate_translation("docker ps".to_string(), 50, "Wrong tool".to_string());
    assert_eq!(result.unwrap_err(), TranslationError::NotKubectl("docker ps".to_string()));
    let result = validate_translation("kubectl get pods".to_string(), 101, String::new());
    assert_eq!(result.unwrap_err(), TranslationError::ConfidenceOutOfRange(101));
}

#[test]
fn kubeconfig_current_context() {
    let entry = |name: &str, cluster: Option<&str>, user: Option<&str>| NamedKubeContext {
        name: Some(name.to_string()),
        context: Some(KubeContextEntry {
            cluster: cluster.map(|s| s.to_string()),
            user: user.map(|s| s.to_string()),
            namespace: Some("web".to_string()),
        }),
    };
    let k = Kubeconfig {
        current_context: Some("prod-eu".to_string()),
        contexts: Some(vec![entry("dev", Some("d"), Some("u")), entry("prod-eu", Some("c1"), Some("admin"))]),
    };
    let ctx = KubectlContext::from_kubeconfig(&k).unwrap();
    assert_eq!(ctx.cluster, "c1");
    assert_eq!(ctx.user, "admin");
    assert_eq!(ctx.effective_namespace(), "web");
    assert_eq!(ctx.environment_type, EnvironmentType::Production);

    let missing = Kubeconfig { current_context: Some("x".to_string()), contexts: Some(vec![]) };
    let err = KubectlContext::from_kubeconfig(&missing).unwrap_err();
    assert_eq!(err, KubeconfigError::ContextNotFound("x".to_string()));
    assert_eq!(err.message(), "Current context 'x' not found in contexts list");
    let no_user = Kubeconfig { current_context: Some("dev".to_string()), contexts: Some(vec![entry("dev", Some("d"), None)]) };
    assert_eq!(KubectlContext::from_kubeconfig(&no_user).unwrap_err(), KubeconfigError::NoUser);
    let none = Kubeconfig { current_context: None, contexts: None };
    assert_eq!(KubectlContext::from_kubeconfig(&none).unwrap_err(), KubeconfigError::NoCurrentContext);
}

#[test]
fn kubectl_arguments_and_logged_results() {
    assert_eq!(kubectl_args("  kubectl get   pods -n web ").unwrap(), vec!["get", "pods", "-n", "web"]);
    assert_eq!(kubectl_args("kubectl").unwrap(), Vec::<String>::new());
    assert_eq!(kubectl_args("docker ps").unwrap_err(), "Command must start with 'kubectl'");
    assert_eq!(kubectl_args("").unwrap_err(), "Command must start with 'kubectl'");
    let long = "x".repeat(LOG_OUTPUT_LIMIT + 5);
    let r = logged_result(Some(0), long, "err".to_string(), 12);
    assert_eq!(r.stdout, format!("{}\n... (truncated)", "x".repeat(LOG_OUTPUT_LIMIT)));
    assert_eq!(r.stderr, "err");
    assert_eq!(r.exit_code, Some(0));
    assert_eq!(r.execution_duration_ms, 12);
}

#[test]
fn translation_error_messages() {
    let e = validate_translation("docker ps".to_string(), 50, String::new()).unwrap_err();
    assert_eq!(e.message(), "Invalid command from AI: does not start with 'kubectl '. Got: docker ps");
    let e = validate_translation("kubectl get pods".to_string(), 150, String::new()).unwrap_err();
    assert_eq!(e.message(), "Invalid confidence score: 150 (must be 0-100)");
}

#[test]
fn environment_ignores_case_and_labels_round_trip() {
    for name in ["prod-eu", "dev-cluster", "staging-1", "minikube", "dev-prod"] {
        let upper = name.to_uppercase();
        assert_eq!(EnvironmentType::from_context_name(name), EnvironmentType::from_context_name(&upper));
    }
    assert_eq!(EnvironmentType::from_context_name("DEV-PROD"), EnvironmentType::Production);
    for e in [EnvironmentType::Development, EnvironmentType::Staging, EnvironmentType::Production, EnvironmentType::Unknown] {
        assert_eq!(EnvironmentType::from_context_name(e.as_str()), e);
    }
}
