use kaido::agent::agent_loop::{
    format_observation, is_completion_thought, parse_action_from_thought, ActionCommand, AgentLoop, ThoughtOutcome, ToolOutput,
    MAX_ITERATIONS,
};
use kaido::agent::diagnosis::{
    ConfigErrorStrategy, DiagnosisStrategy, PortConflictStrategy, RootCauseCategory, ServiceDownStrategy, StrategyKind,
};
use kaido::agent::{AgentState, AgentStatus, ProblemContext, RootCauseAnalyzer, StepType};

#[test]
fn test_agent_state_creation() {
    let state = AgentState::new("Test task".to_string());
    assert_eq!(state.task, "Test task");
    assert_eq!(state.status, AgentStatus::Running);
    assert_eq!(state.iteration, 0);
}

#[test]
fn test_agent_state_add_step() {
    let mut state = AgentState::new("Test".to_string());
    state.add_step(StepType::Thought, "Thinking...".to_string(), None, None);
    assert_eq!(state.history.len(), 1);
    assert_eq!(state.history[0].step_type, StepType::Thought);
    assert_eq!(state.history[0].content, "Thinking...");
}

#[test]
fn test_should_continue() {
    let mut state = AgentState::new("Test".to_string());
    assert!(state.should_continue());
    state.iteration = MAX_ITERATIONS;
    assert!(!state.should_continue());
    state.iteration = 0;
    state.status = AgentStatus::Completed;
    assert!(!state.should_continue());
}

#[test]
fn should_continue_time_limit() {
    let state = AgentState::new("Test".to_string());
    assert!(state.should_continue_after(299_999));
    assert!(!state.should_continue_after(300_000));
}

#[test]
fn recent_steps_and_summary() {
    let mut state = AgentState::new("T".to_string());
    state.add_step(StepType::Action, "a1".to_string(), Some("shell".to_string()), None);
    state.add_step(StepType::Observation, "o1".to_string(), None, Some(true));
    state.add_step(StepType::Action, "a2".to_string(), None, None);
    state.add_step(StepType::Observation, "o2".to_string(), None, Some(false));
    let recent = state.get_recent_steps(StepType::Observation, 5);
    assert_eq!(recent.len(), 2);
    assert_eq!(recent[0].content, "o2");
    assert_eq!(recent[1].content, "o1");
    assert_eq!(state.history[3].step_number, 4);
    let s = state.summary_with_duration("1s");
    assert_eq!(s, "Task: T\nStatus: Running\nSteps: 4 (Actions: 2)\nDuration: 1s");
    state.status = AgentStatus::Failed("bad \"x\"".to_string());
    assert!(state.summary().starts_with("Task: T\nStatus: Failed(\"bad \\\"x\\\"\")\nSteps: 4"));
    state.set_last_step_explanation("why".to_string());
    assert_eq!(state.history[3].explanation, Some("why".to_string()));
}

#[test]
fn completion_and_actions() {
    assert!(is_completion_thought("SOLUTION: restart nginx"));
    assert!(is_completion_thought("The Problem Solved now"));
    assert!(!is_completion_thought("Let me check logs"));
    let a = parse_action_from_thought("I think\n  action: nginx nginx -t \nmore");
    assert_eq!(a.tool_name, "nginx");
    assert_eq!(a.command, "nginx -t");
    let b = parse_action_from_thought("ACTION: justone");
    assert_eq!(b.tool_name, "shell");
    assert_eq!(b.command, "ACTION: justone");
    let c = parse_action_from_thought("no action here");
    assert_eq!(c.tool_name, "shell");
}

#[test]
fn observations() {
    let ok = ToolOutput { exit_code: 0, stdout: "out".to_string(), stderr: String::new() };
    assert_eq!(format_observation(&ok), "out");
    let empty = ToolOutput { exit_code: 0, stdout: String::new(), stderr: String::new() };
    assert_eq!(format_observation(&empty), "Command executed successfully (no output)");
    let bad = ToolOutput { exit_code: 2, stdout: "o".to_string(), stderr: "e".to_string() };
    assert_eq!(format_observation(&bad), "Command failed (exit code 2): e");
}

#[test]
fn loop_iterations_stop() {
    let mut l = AgentLoop::new("task".to_string()).with_explain_mode(false);
    assert!(!l.explain_mode());
    assert!(l.begin_iteration(0));
    assert_eq!(l.state().iteration, 1);
    assert!(!l.begin_iteration(400_000));
    assert_eq!(l.state().status, AgentStatus::Stopped("Maximum execution time exceeded".to_string()));
    l.state_mut().add_step(StepType::Observation, "obs".to_string(), None, Some(true));
    let p = l.build_reflection_prompt();
    assert!(p.starts_with("Task: task\nLatest observation: obs\n\nReflect on progress:"));
    let t = l.build_thought_prompt(&vec!["nginx".to_string(), "docker".to_string()]);
    assert!(t.contains("Available tools: nginx, docker\n\n"));
    assert!(t.contains("Step 1: Observation - obs\n"));
}

#[test]
fn test_problem_context_creation() {
    let ctx = ProblemContext::new("Test problem".to_string());
    assert_eq!(ctx.problem_description, "Test problem");
    assert!(ctx.diagnostic_data.is_empty());
}

#[test]
fn test_port_conflict_strategy_applies() {
    let strategy = PortConflictStrategy;
    let mut problem = ProblemContext::new("Port 80 already in use".to_string());
    assert!(strategy.applies_to(&problem));
    problem.problem_description = "Service failed to start".to_string();
    assert!(!strategy.applies_to(&problem));
    assert!(ServiceDownStrategy.applies_to(&problem));
    assert!(!ConfigErrorStrategy.applies_to(&problem));
}

#[test]
fn test_root_cause_analyzer() {
    let analyzer = RootCauseAnalyzer::new();
    let problem = ProblemContext::new("nginx port conflict".to_string());
    let strategies = analyzer.get_applicable_strategies(&problem);
    assert!(!strategies.is_empty());
    let commands = analyzer.get_diagnostic_commands(&problem);
    assert!(!commands.is_empty());
}

#[test]
fn diagnostic_data_read_after_write() {
    let mut p = ProblemContext::new("x".to_string());
    p.add_diagnostic_data("netstat".to_string(), "a".to_string());
    p.add_diagnostic_data("ss".to_string(), "b".to_string());
    p.add_diagnostic_data("netstat".to_string(), "c".to_string());
    assert_eq!(p.diagnostic_data, vec![("netstat".to_string(), "c".to_string()), ("ss".to_string(), "b".to_string())]);
    p.add_error("e1".to_string());
    p.add_error("e1".to_string());
    assert_eq!(p.error_messages.len(), 1);
}

#[test]
fn analyzer_picks_most_confident() {
    let analyzer = RootCauseAnalyzer::new();
    let mut p = ProblemContext::new("nginx failed: port config invalid".to_string());
    p.service = Some("nginx".to_string());
    p.add_diagnostic_data("netstat -tuln".to_string(), "tcp 0.0.0.0:80 LISTEN\nl2\nl3\nl4".to_string());
    p.add_diagnostic_data("systemctl status nginx".to_string(), "inactive (dead)".to_string());
    p.add_diagnostic_data("nginx -t".to_string(), "syntax error near line 3".to_string());
    let cause = analyzer.analyze(&p).unwrap();
    assert_eq!(cause.category, RootCauseCategory::ConfigurationError);
    assert_eq!(cause.confidence, 95);
    assert_eq!(cause.evidence, vec!["From nginx -t: syntax error near line 3".to_string()]);
    assert_eq!(cause.affected_components, vec!["nginx".to_string()]);
    let port = PortConflictStrategy.analyze(&p).unwrap();
    assert_eq!(port.evidence, vec!["Found from netstat -tuln: tcp 0.0.0.0:80 LISTEN; l2; l3".to_string()]);
    let none = RootCauseAnalyzer::new().analyze(&ProblemContext::new("hello".to_string()));
    assert!(none.is_none());
    let cmds = ConfigErrorStrategy.diagnostic_commands(&p);
    assert_eq!(cmds.len(), 1);
    assert_eq!(cmds[0].command, "nginx -t");
    let svc = ServiceDownStrategy.diagnostic_commands(&p);
    assert_eq!(svc[2].command, "journalctl -u nginx -n 50 --no-pager");
    assert_eq!(RootCauseCategory::PortConflict.as_str(), "Port Conflict");
    assert_eq!(analyzer.get_applicable_strategies(&p), vec![StrategyKind::PortConflict, StrategyKind::ServiceDown, StrategyKind::ConfigError]);
}

#[test]
fn thought_then_action_then_observation() {
    let mut agent = AgentLoop::new("nginx down".to_string());
    assert!(agent.begin_iteration(0));
    let outcome = agent.on_thought("Check config first.\nACTION: nginx nginx -t".to_string());
    let action = match outcome {
        ThoughtOutcome::Run(a) => a,
        ThoughtOutcome::Completed => panic!("the thought asks for an action"),
    };
    assert_eq!(action.tool_name, "nginx");
    assert_eq!(action.command, "nginx -t");
    let h = &agent.state().history;
    assert_eq!(h.len(), 2);
    assert_eq!(h[0].step_type, StepType::Thought);
    assert_eq!(h[0].step_number, 1);
    assert_eq!(h[1].step_type, StepType::Action);
    assert_eq!(h[1].content, "nginx -t");
    assert_eq!(h[1].tool_used.as_deref(), Some("nginx"));

    let out = ToolOutput { exit_code: 1, stdout: String::new(), stderr: "syntax error".to_string() };
    agent.on_observation(&action, &out);
    let st = agent.state();
    assert_eq!(st.history.len(), 3);
    assert_eq!(st.history[2].step_type, StepType::Observation);
    assert_eq!(st.history[2].content, "Command failed (exit code 1): syntax error");
    assert_eq!(st.history[2].success, Some(false));
    assert_eq!(st.collected_info, vec![("nginx -t".to_string(), "Command failed (exit code 1): syntax error".to_string())]);
    assert_eq!(st.status, AgentStatus::Running);
}

#[test]
fn completion_thought_completes_loop() {
    let mut agent = AgentLoop::new("disk full".to_string());
    let outcome = agent.on_thought("Problem SOLVED: logs filled the disk".to_string());
    assert!(matches!(outcome, ThoughtOutcome::Completed));
    assert_eq!(agent.state().status, AgentStatus::Completed);
    assert_eq!(agent.state().history.len(), 1);
    assert!(!agent.state().should_continue());
    let shell = agent.on_thought("just run df -h".to_string());
    match shell {
        ThoughtOutcome::Run(ActionCommand { tool_name, command }) => {
            assert_eq!(tool_name, "shell");
            assert_eq!(command, "just run df -h");
        }
        ThoughtOutcome::Completed => panic!("no completion words"),
    }
}
