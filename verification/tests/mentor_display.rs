use kaido::mentor::display::{box_width_for_terminal, truncate, truncate_fits, visible_length, wrap_text};
use kaido::mentor::{DisplayConfig, ErrorInfo, ErrorType, MentorColors, MentorDisplay, SourceLocation, Verbosity};
use kaido::mentor::{GuidanceSource, MentorGuidance, NextStep};

fn create_test_error() -> ErrorInfo {
    ErrorInfo::new(ErrorType::CommandNotFound, 127, "command not found: kubectl", "kubectl get pods")
}

fn create_error_with_location() -> ErrorInfo {
    ErrorInfo::new(ErrorType::ConfigurationError, 1, "unknown directive 'proxy_passs'", "nginx -t")
        .with_location(SourceLocation::new("/etc/nginx/nginx.conf").with_line(42))
}

#[test]
fn test_compact_render() {
    let display = MentorDisplay::new(true).with_verbosity(Verbosity::Compact);
    let error = create_test_error();
    let output = display.render(&error);
    assert!(output.contains("MENTOR"));
    assert!(output.contains("command not found"));
    assert!(output.lines().count() <= 4);
}

#[test]
fn test_normal_render() {
    let display = MentorDisplay::new(true).with_verbosity(Verbosity::Normal);
    let error = create_test_error();
    let output = display.render(&error);
    assert!(output.contains("MENTOR"));
    assert!(output.contains("Command Not Found"));
    assert!(output.contains("Key:"));
}

#[test]
fn test_verbose_render() {
    let display = MentorDisplay::new(true).with_verbosity(Verbosity::Verbose);
    let error = create_test_error();
    let output = display.render(&error);
    assert!(output.contains("MENTOR"));
    assert!(output.contains("This means:"));
    assert!(output.contains("Next steps:"));
    assert!(output.contains("Learn more:"));
}

#[test]
fn test_render_with_location() {
    let display = MentorDisplay::new(true).with_verbosity(Verbosity::Normal);
    let error = create_error_with_location();
    let output = display.render(&error);
    assert!(output.contains("Location:"));
    assert!(output.contains("nginx.conf"));
    assert!(output.contains("42"));
}

#[test]
fn test_visible_length() {
    assert_eq!(visible_length("hello"), 5);
    assert_eq!(visible_length("\x1b[31mhello\x1b[0m"), 5);
    assert_eq!(visible_length("\x1b[1;33mtest\x1b[0m"), 4);
}

#[test]
fn test_truncate() {
    assert_eq!(truncate("hello", 10), "hello");
    assert_eq!(truncate("hello world", 8), "hello...");
    assert_eq!(truncate("hi", 2), "hi");
    assert_eq!(truncate("hello", 2), "he");
}

#[test]
fn test_wrap_text() {
    let lines = wrap_text("hello world this is a test", 12);
    assert_eq!(lines.len(), 3);
    assert!(lines[0].len() <= 12);
    assert_eq!(lines, vec!["hello world", "this is a", "test"]);
    let long = wrap_text("  supercalifragilistic  x ", 5);
    assert_eq!(long, vec!["supercalifragilistic", "x"]);
}

#[test]
fn test_no_color() {
    let config = DisplayConfig { verbosity: Verbosity::Normal, terminal_width: 0, colors_enabled: false };
    let display = MentorDisplay::with_config(config);
    let error = create_test_error();
    let output = display.render(&error);
    assert!(!output.contains("\x1b["));
}

#[test]
fn test_box_width_capped() {
    let config = DisplayConfig { verbosity: Verbosity::Normal, terminal_width: 200, colors_enabled: true };
    let display = MentorDisplay::with_config(config);
    assert_eq!(display.box_width(), 80);
}

#[test]
fn test_box_width_narrow() {
    let config = DisplayConfig { verbosity: Verbosity::Normal, terminal_width: 70, colors_enabled: true };
    let display = MentorDisplay::with_config(config);
    assert_eq!(display.box_width(), 66);
}

#[test]
fn box_width_bounds() {
    assert_eq!(box_width_for_terminal(10), 40);
    assert_eq!(box_width_for_terminal(50), 50);
    assert_eq!(box_width_for_terminal(61), 57);
    assert_eq!(box_width_for_terminal(100), 96);
    assert_eq!(box_width_for_terminal(101), 80);
}

#[test]
fn every_box_line_has_the_box_width() {
    let config = DisplayConfig { verbosity: Verbosity::Verbose, terminal_width: 70, colors_enabled: false };
    let display = MentorDisplay::with_config(config);
    let output = display.render(&create_error_with_location());
    for line in output.lines().filter(|l| l.starts_with('│')) {
        assert_eq!(line.chars().count(), 66, "{}", line);
    }
    assert!(output.contains("vim /etc/nginx/nginx.conf +42"));
}

#[test]
fn compact_render_exact() {
    let config = DisplayConfig { verbosity: Verbosity::Compact, terminal_width: 44, colors_enabled: false };
    let display = MentorDisplay::with_config(config);
    let out = display.render(&ErrorInfo::new(ErrorType::Unknown, 1, "boom", "x"));
    let expected = format!(
        "┌─ MENTOR {}┐\n│ boom {}│\n└{}┘",
        "─".repeat(32),
        " ".repeat(36),
        "─".repeat(42)
    );
    assert_eq!(out, expected);
}

#[test]
fn guidance_renders() {
    let g = MentorGuidance::from_pattern("port in use", "Another process uses the port")
        .with_search(vec!["find process".to_string(), "kill".to_string()])
        .with_steps(vec![NextStep::with_command("Find it", "lsof -i :80"), NextStep::new("Stop it")])
        .with_concepts(vec!["Ports".to_string()]);
    let verbose = MentorDisplay::with_config(DisplayConfig { verbosity: Verbosity::Verbose, terminal_width: 90, colors_enabled: false });
    let out = verbose.render_guidance(&g);
    assert!(out.contains("Search: find process, kill"));
    assert!(out.contains("1. lsof -i :80"));
    assert!(out.contains("2. Stop it"));
    assert!(out.contains("Learn more: Ports"));
    let normal = MentorDisplay::with_config(DisplayConfig { verbosity: Verbosity::Normal, terminal_width: 90, colors_enabled: false });
    let out = normal.render_guidance(&g);
    assert!(out.contains("Try: lsof -i :80"));
    assert!(!out.contains("Stop it"));
}

#[test]
fn test_colors_enabled() {
    let colors = MentorColors::with_enabled(true);
    assert!(colors.is_enabled());
    assert!(!colors.border().is_empty());
    assert!(!colors.reset().is_empty());
}

#[test]
fn test_colors_disabled() {
    let colors = MentorColors::with_enabled(false);
    assert!(!colors.is_enabled());
    assert!(colors.border().is_empty());
    assert!(colors.reset().is_empty());
}

#[test]
fn test_all_colors_have_reset() {
    let colors = MentorColors::with_enabled(true);
    assert!(!colors.border().is_empty());
    assert!(!colors.title().is_empty());
    assert!(!colors.key_message().is_empty());
    assert!(!colors.location().is_empty());
    assert!(!colors.search().is_empty());
    assert!(!colors.command().is_empty());
    assert!(!colors.concept().is_empty());
    assert!(!colors.dim().is_empty());
    assert!(!colors.error_type().is_empty());
}

#[test]
fn test_error_type_from_exit_code() {
    assert_eq!(ErrorType::from_exit_code(127), ErrorType::CommandNotFound);
    assert_eq!(ErrorType::from_exit_code(126), ErrorType::PermissionDenied);
    assert_eq!(ErrorType::from_exit_code(2), ErrorType::InvalidArgument);
    assert_eq!(ErrorType::from_exit_code(137), ErrorType::OutOfMemory);
    assert_eq!(ErrorType::from_exit_code(130), ErrorType::Unknown);
}

#[test]
fn test_error_type_name() {
    assert_eq!(ErrorType::CommandNotFound.name(), "Command Not Found");
    assert_eq!(ErrorType::PermissionDenied.name(), "Permission Denied");
}

#[test]
fn test_source_location() {
    let loc = SourceLocation::new("/etc/nginx/nginx.conf").with_line(42).with_column(10);
    assert_eq!(loc.to_string(), "/etc/nginx/nginx.conf:42:10");
}

#[test]
fn test_source_location_no_column() {
    let loc = SourceLocation::new("/etc/nginx/nginx.conf").with_line(42);
    assert_eq!(loc.to_string(), "/etc/nginx/nginx.conf:42");
    let only_column = SourceLocation::new("f").with_column(3);
    assert_eq!(only_column.to_string(), "f");
}

#[test]
fn test_error_info_creation() {
    let info = ErrorInfo::new(ErrorType::CommandNotFound, 127, "command not found: foo", "foo --bar");
    assert_eq!(info.exit_code, 127);
    assert_eq!(info.error_type, ErrorType::CommandNotFound);
    assert!(info.is_real_error());
    assert!(!info.is_interrupt());
}

#[test]
fn test_error_info_interrupt() {
    let info = ErrorInfo::new(ErrorType::Unknown, 130, "", "sleep 100");
    assert!(info.is_interrupt());
    assert!(!info.is_real_error());
}

#[test]
fn test_next_step_with_command() {
    let step = NextStep::with_command("Fix the typo", "vim file.txt");
    assert_eq!(step.description, "Fix the typo");
    assert_eq!(step.command, Some("vim file.txt".to_string()));
}

#[test]
fn test_next_step_without_command() {
    let step = NextStep::new("Check the documentation");
    assert!(step.command.is_none());
}

#[test]
fn test_guidance_from_pattern() {
    let guidance = MentorGuidance::from_pattern("command not found", "The command is not installed");
    assert_eq!(guidance.source, GuidanceSource::Pattern);
}

#[test]
fn test_guidance_builder() {
    let guidance = MentorGuidance::from_pattern("error", "explanation")
        .with_search(vec!["keyword".to_string()])
        .with_steps(vec![NextStep::new("do something")])
        .with_concepts(vec!["concept".to_string()]);
    assert_eq!(guidance.search_keywords.len(), 1);
    assert_eq!(guidance.next_steps.len(), 1);
    assert_eq!(guidance.related_concepts.len(), 1);
    assert_eq!(guidance.clone().from_llm().source, GuidanceSource::LLM);
    assert_eq!(guidance.from_cache().source, GuidanceSource::Cached);
    let d = MentorGuidance::default();
    assert_eq!(d.key_message, "Unknown error");
    assert_eq!(d.source, GuidanceSource::Fallback);
}

#[test]
fn wrapped_lines_fit_or_are_single_words() {
    let lines = wrap_text("a tiny supercalifragilistic word list here", 10);
    for l in &lines {
        assert!(l.len() <= 10 || !l.contains(' '), "{}", l);
    }
    assert!(lines.contains(&"supercalifragilistic".to_string()));
}

#[test]
fn truncated_text_fits_the_limit() {
    for max in [2usize, 5, 12] {
        let t = truncate("abcdefghijklmnopqrstuvwxyz", max);
        assert!(t.len() <= max, "{} {}", max, t);
    }
    assert_eq!(truncate("abcdefghij", 8), "abcde...");
}

#[test]
fn cuts_are_checked_before_rendering() {
    // "é" takes two bytes: cutting "abé" to 3 bytes would split it.
    assert!(truncate_fits("abcdef", 5));
    assert!(truncate_fits("ab", 5));
    assert!(!truncate_fits("abéé", 3));
    assert!(truncate_fits("abéé", 4));
    assert!(truncate_fits("aébcdefgh", 6));
    assert!(!truncate_fits("abébcdefgh", 6));

    let compact = MentorDisplay::with_config(DisplayConfig { verbosity: Verbosity::Compact, terminal_width: 40, colors_enabled: false });
    assert_eq!(compact.box_width(), 40);
    // Compact boxes cut the key message to 32 bytes, keeping 29 before "...".
    let fits = MentorGuidance::from_pattern(&"a".repeat(40), "x");
    assert!(compact.guidance_fits_width(&fits, 40));
    let split = MentorGuidance::from_pattern(&format!("{}é{}", "a".repeat(28), "b".repeat(10)), "x");
    assert!(!compact.guidance_fits_width(&split, 40));
    let err = ErrorInfo::new(ErrorType::Unknown, 1, &format!("{}é{}", "a".repeat(28), "b".repeat(10)), "cmd");
    assert!(!compact.error_fits_width(&err, 40));
    let ok = ErrorInfo::new(ErrorType::Unknown, 1, "short message", "cmd");
    assert!(compact.error_fits_width(&ok, 40));
    assert!(compact.render_with_width(&ok, 40).contains("short message"));
}

#[test]
fn colorless_boxes_hold_no_escape() {
    let error = ErrorInfo::new(ErrorType::CommandNotFound, 127, "command not found: kubectl", "kubectl get pods")
        .with_location(SourceLocation::new("deploy.yaml").with_line(4));
    let guidance = MentorGuidance::from_pattern("kubectl not found", "The kubectl command is not installed")
        .with_search(vec!["install kubectl".to_string()])
        .with_steps(vec![NextStep::with_command("Install it", "brew install kubectl"), NextStep::new("Retry")])
        .with_concepts(vec!["PATH".to_string()]);
    for v in [Verbosity::Compact, Verbosity::Normal, Verbosity::Verbose] {
        let d = MentorDisplay::with_config(DisplayConfig { verbosity: v, terminal_width: 90, colors_enabled: false });
        assert!(!d.render(&error).contains('\x1b'));
        assert!(!d.render_guidance(&guidance).contains('\x1b'));
    }
}
