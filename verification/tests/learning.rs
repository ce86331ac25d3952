use kaido::learning::skill::{SkillDetector, SkillLevel, VerbosityMode};
use kaido::learning::summary::{SessionStats, SummaryGenerator};
use kaido::learning::tracker::is_similar_command;
use kaido::mentor::Verbosity;

#[test]
fn test_skill_level_verbosity() {
    assert_eq!(SkillLevel::Beginner.recommended_verbosity(), Verbosity::Verbose);
    assert_eq!(SkillLevel::Intermediate.recommended_verbosity(), Verbosity::Normal);
    assert_eq!(SkillLevel::Advanced.recommended_verbosity(), Verbosity::Compact);
}

#[test]
fn test_verbosity_mode_auto() {
    let mode = VerbosityMode::Auto;
    assert_eq!(mode.get_verbosity(SkillLevel::Beginner), Verbosity::Verbose);
    assert_eq!(mode.get_verbosity(SkillLevel::Advanced), Verbosity::Compact);
}

#[test]
fn test_verbosity_mode_fixed() {
    let mode = VerbosityMode::Fixed(Verbosity::Normal);
    assert_eq!(mode.get_verbosity(SkillLevel::Beginner), Verbosity::Normal);
    assert_eq!(mode.get_verbosity(SkillLevel::Advanced), Verbosity::Normal);
}

#[test]
fn skill_descriptions_and_threshold() {
    assert_eq!(SkillLevel::Beginner.description(), "Beginner - Learning the basics");
    let d = SkillDetector::new();
    assert!(d.needs_more_data(4));
    assert!(!d.needs_more_data(5));
    assert_eq!(VerbosityMode::default(), VerbosityMode::Auto);
}

#[test]
fn test_session_stats_new() {
    let stats = SessionStats::new();
    assert_eq!(stats.commands_executed, 0);
    assert_eq!(stats.errors_encountered, 0);
}

#[test]
fn test_record_command() {
    let mut stats = SessionStats::new();
    stats.record_command("kubectl get pods");
    stats.record_command("kubectl describe pod foo");
    stats.record_command("ls -la");

    assert_eq!(stats.commands_executed, 3);
    assert_eq!(stats.tool_count("kubectl"), Some(2));
    assert_eq!(stats.tool_count("ls"), Some(1));
    assert_eq!(stats.unique_commands.len(), 2);
}

#[test]
fn record_blank_command_counts_unknown() {
    let mut stats = SessionStats::new();
    stats.record_command("   ");
    assert_eq!(stats.tool_count("unknown"), Some(1));
    assert_eq!(stats.tool_count("ls"), None);
}

#[test]
fn summary_test_record_error() {
    let mut stats = SessionStats::new();
    stats.record_error("Permission Denied");
    stats.record_error("Permission Denied"); // Duplicate
    stats.record_error("File Not Found");

    assert_eq!(stats.errors_encountered, 3);
    assert_eq!(stats.concepts_learned.len(), 2); // Deduplicated
}

#[test]
fn test_generate_summary() {
    let mut stats = SessionStats::new();
    stats.record_command("kubectl get pods");
    stats.record_command("kubectl describe pod foo");
    stats.record_error("Permission Denied");
    stats.record_resolution();

    let summary = SummaryGenerator::generate(&stats);
    assert_eq!(summary.commands_executed, 2);
    assert_eq!(summary.problems_solved, 1);
    assert!(!summary.concepts.is_empty());
    assert!(!summary.tools_used.is_empty());
}

#[test]
fn tools_sorted_by_use_stably() {
    let mut stats = SessionStats::new();
    stats.record_command("ls");
    stats.record_command("git status");
    stats.record_command("git log");
    stats.record_command("cat x");
    let summary = SummaryGenerator::generate(&stats);
    let names: Vec<&str> = summary.tools_used.iter().map(|(t, _)| t.as_str()).collect();
    assert_eq!(names, vec!["git", "ls", "cat"]);
    assert_eq!(summary.concepts.len(), 0);
}

#[test]
fn concept_descriptions() {
    assert_eq!(
        SummaryGenerator::get_concept_description("Network Error"),
        "Network connectivity and troubleshooting"
    );
    assert_eq!(SummaryGenerator::get_concept_description("Weird Thing"), "Understanding weird thing");
}

#[test]
fn test_achievement_clean_start() {
    let mut stats = SessionStats::new();
    stats.record_command("ls");

    let achievement = SummaryGenerator::check_achievements(&stats);
    assert!(achievement.is_some());
    assert_eq!(achievement.unwrap().name, "Clean Start");
}

#[test]
fn test_achievement_problem_solver() {
    let mut stats = SessionStats::new();
    stats.record_error("Error 1");
    stats.record_resolution();
    stats.record_error("Error 2");
    stats.record_resolution();
    stats.record_error("Error 3");
    stats.record_resolution();

    let achievement = SummaryGenerator::check_achievements(&stats);
    assert!(achievement.is_some());
    assert_eq!(achievement.unwrap().name, "Problem Solver");
}

#[test]
fn achievement_port_detective_and_none() {
    let mut stats = SessionStats::new();
    stats.record_error("x");
    stats.record_command("lsof -i :80");
    assert_eq!(SummaryGenerator::check_achievements(&stats).unwrap().name, "Port Detective");
    let empty = SessionStats::new();
    assert!(SummaryGenerator::check_achievements(&empty).is_none());
}

#[test]
fn test_suggest_next_steps() {
    let commands = vec!["kubectl".to_string()];
    let concepts = vec![];

    let suggestions = SummaryGenerator::suggest_next_steps(&commands, &concepts);
    assert!(!suggestions.is_empty());
    assert!(suggestions.iter().any(|s| s.contains("kubectl")));
}

#[test]
fn next_steps_at_most_three_and_ordered() {
    let commands = vec!["ls".to_string(), "cd".to_string(), "nginx".to_string(), "git".to_string()];
    let concepts = vec!["Permission Denied".to_string(), "Network Error".to_string()];
    let s = SummaryGenerator::suggest_next_steps(&commands, &concepts);
    assert_eq!(
        s,
        vec![
            "Learn about file permissions with chmod".to_string(),
            "Learn about nginx access logs".to_string(),
            "Explore nginx location blocks".to_string(),
        ]
    );
}

#[test]
fn test_render_summary() {
    let mut stats = SessionStats::new();
    stats.record_command("ls");
    let summary = SummaryGenerator::generate(&stats);

    let output = SummaryGenerator::render(&summary);
    assert!(output.contains("SESSION SUMMARY"));
    assert!(output.contains("Commands executed"));
}

#[test]
fn render_with_secs_duration_lines() {
    let mut stats = SessionStats::new();
    stats.record_command("ls");
    let summary = SummaryGenerator::generate(&stats);
    let out = SummaryGenerator::render_with_secs(&summary, 125);
    assert!(out.contains(&format!("Duration: \x1b[1m{:<20}\x1b[0m", "2 min 5 sec")));
    let out = SummaryGenerator::render_with_secs(&summary, 42);
    assert!(out.contains("42 seconds"));
    assert!(out.contains("Achievement Unlocked: \"Clean Start\""));
}

#[test]
fn test_is_similar_command() {
    assert!(is_similar_command("ls -la", "ls /tmp"));
    assert!(is_similar_command("kubectl get pods", "kubectl get services"));
    assert!(!is_similar_command("ls", "cat"));
}
