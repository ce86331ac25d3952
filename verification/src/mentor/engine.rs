//! Guidance for errors from built-in patterns: what each kind of error
//! means, what to search for, what to try and what it teaches. The cache
//! of guidance and the model that writes guidance for unknown errors are
//! used by the application.
use crate::config::{home_dir, join_path, path_join};
use crate::mentor::guidance::{
    fallback_explanation, guidance_view, steps_view, GuidanceSource, MentorGuidance, NextStep,
};
use crate::mentor::types::{location_text, ErrorInfo, ErrorType, SourceLocation};
use crate::text::{
    contains, dec, first_word, last_word, owned, split_char, split_on, split_words, str_contains,
    str_eq, str_trim, trim, u64_to_dec, views,
};
use vstd::prelude::*;

verus! {

/// Settings of the mentor.
#[derive(Debug, Clone)]
pub struct MentorConfig {
    /// Ask a language model about errors no pattern knows.
    pub enable_llm: bool,
    /// Where guidance is cached; in memory when absent.
    pub cache_path: Option<String>,
    /// How long cached guidance is kept, in days.
    pub cache_retention_days: u32,
}

impl Default for MentorConfig {
    /// The model enabled, the cache in `~/.kaido/mentor_cache.db` (in
    /// memory when the home directory is unknown), kept for 30 days.
    fn default() -> (r: Self)
        ensures
            r.enable_llm,
            r.cache_retention_days == 30,
            r.cache_path matches Some(p) ==> exists|h: Seq<char>|
                p@ == path_join(path_join(h, ".kaido"@), "mentor_cache.db"@),
    {
        let cache_path = match home_dir() {
            Some(h) => {
                let dir = join_path(h.as_str(), ".kaido");
                Some(join_path(dir.as_str(), "mentor_cache.db"))
            },
            None => None,
        };
        MentorConfig { enable_llm: true, cache_path, cache_retention_days: 30 }
    }
}

/// A word, or `command` when there is none.
pub open spec fn word_or_command(o: Option<Seq<char>>) -> Seq<char> {
    match o {
        Some(w) => w,
        None => "command"@,
    }
}

/// The pieces of `msg` between colons, trimmed.
pub open spec fn colon_parts(msg: Seq<char>) -> Seq<Seq<char>> {
    split_on(msg, ':').map_values(|p: Seq<char>| trim(p))
}

/// The missing command named in a "command not found" message:
/// `bash: foo: command not found` and `foo: not found` name `foo`, as does
/// `command not found: foo`; otherwise the last word of the message.
pub open spec fn command_name_of(msg: Seq<char>) -> Seq<char> {
    let parts = colon_parts(msg);
    if parts.len() >= 3 && (contains(parts.last(), "command not found"@) || contains(
        parts.last(),
        "not found"@,
    )) {
        let skip = if parts[0] == "bash"@ || parts[0] == "zsh"@ || parts[0] == "sh"@ {
            1int
        } else {
            0int
        };
        word_or_command(first_word(parts[skip]))
    } else if parts.len() == 2 && contains(parts[0], "command not found"@) {
        word_or_command(first_word(parts[1]))
    } else if parts.len() == 2 && (contains(parts[1], "command not found"@) || contains(
        parts[1],
        "not found"@,
    )) {
        word_or_command(last_word(parts[0]))
    } else {
        word_or_command(last_word(msg))
    }
}

/// The error types that have built-in guidance.
pub open spec fn has_pattern(t: ErrorType) -> bool {
    match t {
        ErrorType::CommandNotFound | ErrorType::PermissionDenied | ErrorType::FileNotFound
        | ErrorType::ConnectionRefused | ErrorType::PortInUse | ErrorType::ConfigurationError
        | ErrorType::SyntaxError | ErrorType::DependencyError | ErrorType::DockerError
        | ErrorType::KubernetesError | ErrorType::GitError => true,
        _ => false,
    }
}

/// The explanation given for an error of type `t` (with the command
/// name `cmd` where it matters), for the types that have a pattern.
pub open spec fn pattern_explanation(t: ErrorType, cmd: Seq<char>, loc: Option<SourceLocation>) -> Seq<char> {
    match t {
        ErrorType::CommandNotFound => "The command '"@ + cmd + "' is not installed on this system, or it's not in your PATH."@,
        ErrorType::PermissionDenied => "You don't have permission to perform this action. This usually means you need elevated privileges (sudo) or the file/directory permissions need to be changed."@,
        ErrorType::FileNotFound => "The specified file or directory doesn't exist. Check the path for typos or verify the file was created."@,
        ErrorType::ConnectionRefused => "The connection was refused. The service might not be running, or a firewall could be blocking the connection."@,
        ErrorType::PortInUse => "Another process is already using this port. You'll need to stop that process or use a different port."@,
        ErrorType::SyntaxError => "There's a syntax error. Check for missing quotes, brackets, or typos."@,
        ErrorType::DependencyError => "A required module or dependency is missing. You may need to install it."@,
        ErrorType::DockerError => "A Docker error occurred. Check if Docker is running and the image/container exists."@,
        ErrorType::KubernetesError => "A Kubernetes error occurred. Check the resource name, namespace, and cluster connection."@,
        ErrorType::GitError => "A Git error occurred. Check your repository state and remote configuration."@,
        ErrorType::ConfigurationError => "There's an error in "@ + match loc {
            Some(l) => location_text(l),
            None => "configuration file"@,
        } + ". Check the file for typos or invalid directives."@,
        _ => fallback_explanation(),
    }
}

/// The search keywords for an error of type `t`.
pub open spec fn pattern_search(t: ErrorType, cmd: Seq<char>) -> Seq<Seq<char>> {
    match t {
        ErrorType::CommandNotFound => seq!["install "@ + cmd + " macos"@, "install "@ + cmd + " linux"@],
        ErrorType::PermissionDenied => seq!["linux file permissions"@, "chmod tutorial"@],
        ErrorType::FileNotFound => seq!["find file linux"@, "bash tab completion"@],
        ErrorType::ConnectionRefused => seq!["check if service is running linux"@, "netstat listening ports"@],
        ErrorType::PortInUse => seq!["find process using port"@, "kill process linux"@],
        ErrorType::SyntaxError => seq!["syntax error"@],
        ErrorType::DependencyError => seq!["install dependency"@],
        ErrorType::DockerError => seq!["docker troubleshooting"@, "docker common errors"@],
        ErrorType::KubernetesError => seq!["kubernetes debugging"@, "kubectl troubleshooting"@],
        ErrorType::GitError => seq!["git common errors"@, "git troubleshooting"@],
        ErrorType::ConfigurationError => seq!["configuration syntax"@],
        _ => seq![],
    }
}

/// The next steps for an error of type `t`.
pub open spec fn pattern_steps(t: ErrorType, cmd: Seq<char>, loc: Option<SourceLocation>) -> Seq<(Seq<char>, Option<Seq<char>>)> {
    match t {
        ErrorType::CommandNotFound => seq![("Check if it's installed somewhere"@, Some("which "@ + cmd)), ("Install on macOS"@, Some("brew install "@ + cmd)), ("Install on Ubuntu/Debian"@, Some("sudo apt install "@ + cmd)), ("Check your PATH"@, Some("echo $PATH"@))],
        ErrorType::PermissionDenied => seq![("Run with sudo (if appropriate)"@, Some("sudo !!"@)), ("Check file permissions"@, Some("ls -la <file>"@)), ("Make file executable"@, Some("chmod +x <file>"@)), ("Check file ownership with 'ls -la'"@, None)],
        ErrorType::FileNotFound => seq![("List current directory"@, Some("ls -la"@)), ("Show working directory"@, Some("pwd"@)), ("Search for file"@, Some("find . -name '<filename>'"@)), ("Use tab completion to verify paths"@, None)],
        ErrorType::ConnectionRefused => seq![("Check if service is running"@, Some("systemctl status <service>"@)), ("List listening ports"@, Some("netstat -tuln"@)), ("Check firewall (Ubuntu)"@, Some("sudo ufw status"@)), ("Verify the host and port are correct"@, None)],
        ErrorType::PortInUse => seq![("Find process using port"@, Some("lsof -i :<port>"@)), ("Or use netstat"@, Some("netstat -tuln | grep <port>"@)), ("Kill process by PID"@, Some("kill <pid>"@)), ("Or configure your service to use a different port"@, None)],
        ErrorType::SyntaxError => seq![("Check for missing or mismatched quotes"@, None), ("Check for missing brackets or parentheses"@, None), ("Look for typos in keywords"@, None)],
        ErrorType::DependencyError => seq![("For Node.js"@, Some("npm install"@)), ("For Python"@, Some("pip install -r requirements.txt"@)), ("For Rust"@, Some("cargo build"@)), ("Check if the module name is spelled correctly"@, None)],
        ErrorType::DockerError => seq![("Check Docker status"@, Some("docker info"@)), ("List containers"@, Some("docker ps -a"@)), ("List images"@, Some("docker images"@)), ("View container logs"@, Some("docker logs <container>"@))],
        ErrorType::KubernetesError => seq![("Check cluster connection"@, Some("kubectl cluster-info"@)), ("List resources in namespace"@, Some("kubectl get all"@)), ("Check all namespaces"@, Some("kubectl get all -A"@)), ("Describe resource"@, Some("kubectl describe <resource> <name>"@))],
        ErrorType::GitError => seq![("Check repository status"@, Some("git status"@)), ("View recent commits"@, Some("git log --oneline -5"@)), ("Check remotes"@, Some("git remote -v"@)), ("Check branches"@, Some("git branch -a"@))],
        ErrorType::ConfigurationError => match loc {
            Some(l) => seq![
                ("Open file at error line"@, Some("vim "@ + l.file@ + " +"@ + dec(
                    match l.line {
                        Some(n) => n as nat,
                        None => 1,
                    },
                ))),
                ("Check for typos in the directive name"@, None),
                ("Verify syntax matches documentation"@, None),
            ],
            None => seq![
                ("Check the configuration file for syntax errors"@, None),
                ("Compare with documentation examples"@, None),
            ],
        },
        _ => seq![("Check the full error output above"@, None), ("Search for the error message online"@, None)],
    }
}

/// The related concepts for an error of type `t`.
pub open spec fn pattern_concepts(t: ErrorType) -> Seq<Seq<char>> {
    match t {
        ErrorType::CommandNotFound => seq!["PATH environment variable"@, "Package managers (brew, apt)"@],
        ErrorType::PermissionDenied => seq!["Unix file permissions"@, "sudo and root access"@, "File ownership"@],
        ErrorType::FileNotFound => seq!["File paths (absolute vs relative)"@, "Working directory"@],
        ErrorType::ConnectionRefused => seq!["Network ports and services"@, "Systemd service management"@],
        ErrorType::PortInUse => seq!["Network ports"@, "Process management"@],
        ErrorType::SyntaxError => seq!["Syntax and parsing"@],
        ErrorType::DependencyError => seq!["Package managers"@, "Dependencies"@],
        ErrorType::DockerError => seq!["Docker containers"@, "Docker images"@],
        ErrorType::KubernetesError => seq!["Kubernetes namespaces"@, "Kubernetes resources"@],
        ErrorType::GitError => seq!["Git workflow"@, "Git remotes"@],
        ErrorType::ConfigurationError => seq!["Configuration file syntax"@],
        _ => seq![],
    }
}

/// The guidance for `e`, as plain values: the pattern's guidance for its
/// type, or generic guidance with two steps.
pub open spec fn pattern_guidance(e: ErrorInfo) -> (
    Seq<char>,
    Seq<char>,
    Seq<Seq<char>>,
    Seq<(Seq<char>, Option<Seq<char>>)>,
    Seq<Seq<char>>,
    GuidanceSource,
) {
    let t = e.error_type;
    let cmd = command_name_of(e.key_message@);
    let loc = e.source_location;
    if has_pattern(t) {
        (
            e.key_message@,
            pattern_explanation(t, cmd, loc),
            pattern_search(t, cmd),
            pattern_steps(t, cmd, loc),
            pattern_concepts(t),
            GuidanceSource::Pattern,
        )
    } else {
        (e.key_message@, fallback_explanation(), seq![], pattern_steps(t, cmd, loc), seq![], GuidanceSource::Fallback)
    }
}

/// Appends `s` to `v`.
fn push_string(v: &mut Vec<String>, s: String)
    ensures
        views(final(v)@) == views(old(v)@).push(s@),
{
    let ghost before = views(v@);
    let ghost sv = s@;
    v.push(s);
    assert(views(v@) =~= before.push(sv));
}

/// Appends a step with a command to `v`.
fn push_command_step(v: &mut Vec<NextStep>, description: &str, command: &str)
    ensures
        steps_view(final(v)@) == steps_view(old(v)@).push((description@, Some(command@))),
{
    let ghost before = steps_view(v@);
    v.push(NextStep::with_command(description, command));
    assert(steps_view(v@) =~= before.push((description@, Some(command@))));
}

/// Appends a step without a command to `v`.
fn push_plain_step(v: &mut Vec<NextStep>, description: &str)
    ensures
        steps_view(final(v)@) == steps_view(old(v)@).push((description@, None)),
{
    let ghost before = steps_view(v@);
    v.push(NextStep::new(description));
    assert(steps_view(v@) =~= before.push((description@, None)));
}

/// Guidance for an error of type `CommandNotFound`.
fn guidance_command_not_found(key: &str, cmd: &str) -> (r: MentorGuidance)
    ensures
        guidance_view(r) == (
            key@,
            pattern_explanation(ErrorType::CommandNotFound, cmd@, None),
            pattern_search(ErrorType::CommandNotFound, cmd@),
            pattern_steps(ErrorType::CommandNotFound, cmd@, None),
            pattern_concepts(ErrorType::CommandNotFound),
            GuidanceSource::Pattern,
        ),
{
    let mut explanation = String::new();
    explanation.append("The command '");
    explanation.append(cmd);
    explanation.append("' is not installed on this system, or it's not in your PATH.");
    let mut search: Vec<String> = Vec::new();
    let mut s0 = String::new();
    s0.append("install ");
    s0.append(cmd);
    s0.append(" macos");
    push_string(&mut search, s0);
    let mut s1 = String::new();
    s1.append("install ");
    s1.append(cmd);
    s1.append(" linux");
    push_string(&mut search, s1);
    let mut steps: Vec<NextStep> = Vec::new();
    let mut c0 = String::new();
    c0.append("which ");
    c0.append(cmd);
    push_command_step(&mut steps, "Check if it's installed somewhere", c0.as_str());
    let mut c1 = String::new();
    c1.append("brew install ");
    c1.append(cmd);
    push_command_step(&mut steps, "Install on macOS", c1.as_str());
    let mut c2 = String::new();
    c2.append("sudo apt install ");
    c2.append(cmd);
    push_command_step(&mut steps, "Install on Ubuntu/Debian", c2.as_str());
    let c3 = owned("echo $PATH");
    push_command_step(&mut steps, "Check your PATH", c3.as_str());
    let mut concepts: Vec<String> = Vec::new();
    push_string(&mut concepts, owned("PATH environment variable"));
    push_string(&mut concepts, owned("Package managers (brew, apt)"));
    assert(views(search@) =~= pattern_search(ErrorType::CommandNotFound, cmd@));
    assert(steps_view(steps@) =~= pattern_steps(ErrorType::CommandNotFound, cmd@, None));
    assert(views(concepts@) =~= pattern_concepts(ErrorType::CommandNotFound));
    MentorGuidance::from_pattern(key, explanation.as_str()).with_search(search).with_steps(steps).with_concepts(concepts)
}

/// Guidance for an error of type `PermissionDenied`.
fn guidance_permission_denied(key: &str, cmd: &str) -> (r: MentorGuidance)
    ensures
        guidance_view(r) == (
            key@,
            pattern_explanation(ErrorType::PermissionDenied, cmd@, None),
            pattern_search(ErrorType::PermissionDenied, cmd@),
            pattern_steps(ErrorType::PermissionDenied, cmd@, None),
            pattern_concepts(ErrorType::PermissionDenied),
            GuidanceSource::Pattern,
        ),
{
    let explanation = owned("You don't have permission to perform this action. This usually means you need elevated privileges (sudo) or the file/directory permissions need to be changed.");
    let mut search: Vec<String> = Vec::new();
    let s0 = owned("linux file permissions");
    push_string(&mut search, s0);
    let s1 = owned("chmod tutorial");
    push_string(&mut search, s1);
    let mut steps: Vec<NextStep> = Vec::new();
    let c0 = owned("sudo !!");
    push_command_step(&mut steps, "Run with sudo (if appropriate)", c0.as_str());
    let c1 = owned("ls -la <file>");
    push_command_step(&mut steps, "Check file permissions", c1.as_str());
    let c2 = owned("chmod +x <file>");
    push_command_step(&mut steps, "Make file executable", c2.as_str());
    push_plain_step(&mut steps, "Check file ownership with 'ls -la'");
    let mut concepts: Vec<String> = Vec::new();
    push_string(&mut concepts, owned("Unix file permissions"));
    push_string(&mut concepts, owned("sudo and root access"));
    push_string(&mut concepts, owned("File ownership"));
    assert(views(search@) =~= pattern_search(ErrorType::PermissionDenied, cmd@));
    assert(steps_view(steps@) =~= pattern_steps(ErrorType::PermissionDenied, cmd@, None));
    assert(views(concepts@) =~= pattern_concepts(ErrorType::PermissionDenied));
    MentorGuidance::from_pattern(key, explanation.as_str()).with_search(search).with_steps(steps).with_concepts(concepts)
}

/// Guidance for an error of type `FileNotFound`.
fn guidance_file_not_found(key: &str, cmd: &str) -> (r: MentorGuidance)
    ensures
        guidance_view(r) == (
            key@,
            pattern_explanation(ErrorType::FileNotFound, cmd@, None),
            pattern_search(ErrorType::FileNotFound, cmd@),
            pattern_steps(ErrorType::FileNotFound, cmd@, None),
            pattern_concepts(ErrorType::FileNotFound),
            GuidanceSource::Pattern,
        ),
{
    let explanation = owned("The specified file or directory doesn't exist. Check the path for typos or verify the file was created.");
    let mut search: Vec<String> = Vec::new();
    let s0 = owned("find file linux");
    push_string(&mut search, s0);
    let s1 = owned("bash tab completion");
    push_string(&mut search, s1);
    let mut steps: Vec<NextStep> = Vec::new();
    let c0 = owned("ls -la");
    push_command_step(&mut steps, "List current directory", c0.as_str());
    let c1 = owned("pwd");
    push_command_step(&mut steps, "Show working directory", c1.as_str());
    let c2 = owned("find . -name '<filename>'");
    push_command_step(&mut steps, "Search for file", c2.as_str());
    push_plain_step(&mut steps, "Use tab completion to verify paths");
    let mut concepts: Vec<String> = Vec::new();
    push_string(&mut concepts, owned("File paths (absolute vs relative)"));
    push_string(&mut concepts, owned("Working directory"));
    assert(views(search@) =~= pattern_search(ErrorType::FileNotFound, cmd@));
    assert(steps_view(steps@) =~= pattern_steps(ErrorType::FileNotFound, cmd@, None));
    assert(views(concepts@) =~= pattern_concepts(ErrorType::FileNotFound));
    MentorGuidance::from_pattern(key, explanation.as_str()).with_search(search).with_steps(steps).with_concepts(concepts)
}

/// Guidance for an error of type `ConnectionRefused`.
fn guidance_connection_refused(key: &str, cmd: &str) -> (r: MentorGuidance)
    ensures
        guidance_view(r) == (
            key@,
            pattern_explanation(ErrorType::ConnectionRefused, cmd@, None),
            pattern_search(ErrorType::ConnectionRefused, cmd@),
            pattern_steps(ErrorType::ConnectionRefused, cmd@, None),
            pattern_concepts(ErrorType::ConnectionRefused),
            GuidanceSource::Pattern,
        ),
{
    let explanation = owned("The connection was refused. The service might not be running, or a firewall could be blocking the connection.");
    let mut search: Vec<String> = Vec::new();
    let s0 = owned("check if service is running linux");
    push_string(&mut search, s0);
    let s1 = owned("netstat listening ports");
    push_string(&mut search, s1);
    let mut steps: Vec<NextStep> = Vec::new();
    let c0 = owned("systemctl status <service>");
    push_command_step(&mut steps, "Check if service is running", c0.as_str());
    let c1 = owned("netstat -tuln");
    push_command_step(&mut steps, "List listening ports", c1.as_str());
    let c2 = owned("sudo ufw status");
    push_command_step(&mut steps, "Check firewall (Ubuntu)", c2.as_str());
    push_plain_step(&mut steps, "Verify the host and port are correct");
    let mut concepts: Vec<String> = Vec::new();
    push_string(&mut concepts, owned("Network ports and services"));
    push_string(&mut concepts, owned("Systemd service management"));
    assert(views(search@) =~= pattern_search(ErrorType::ConnectionRefused, cmd@));
    assert(steps_view(steps@) =~= pattern_steps(ErrorType::ConnectionRefused, cmd@, None));
    assert(views(concepts@) =~= pattern_concepts(ErrorType::ConnectionRefused));
    MentorGuidance::from_pattern(key, explanation.as_str()).with_search(search).with_steps(steps).with_concepts(concepts)
}

/// Guidance for an error of type `PortInUse`.
fn guidance_port_in_use(key: &str, cmd: &str) -> (r: MentorGuidance)
    ensures
        guidance_view(r) == (
            key@,
            pattern_explanation(ErrorType::PortInUse, cmd@, None),
            pattern_search(ErrorType::PortInUse, cmd@),
            pattern_steps(ErrorType::PortInUse, cmd@, None),
            pattern_concepts(ErrorType::PortInUse),
            GuidanceSource::Pattern,
        ),
{
    let explanation = owned("Another process is already using this port. You'll need to stop that process or use a different port.");
    let mut search: Vec<String> = Vec::new();
    let s0 = owned("find process using port");
    push_string(&mut search, s0);
    let s1 = owned("kill process linux");
    push_string(&mut search, s1);
    let mut steps: Vec<NextStep> = Vec::new();
    let c0 = owned("lsof -i :<port>");
    push_command_step(&mut steps, "Find process using port", c0.as_str());
    let c1 = owned("netstat -tuln | grep <port>");
    push_command_step(&mut steps, "Or use netstat", c1.as_str());
    let c2 = owned("kill <pid>");
    push_command_step(&mut steps, "Kill process by PID", c2.as_str());
    push_plain_step(&mut steps, "Or configure your service to use a different port");
    let mut concepts: Vec<String> = Vec::new();
    push_string(&mut concepts, owned("Network ports"));
    push_string(&mut concepts, owned("Process management"));
    assert(views(search@) =~= pattern_search(ErrorType::PortInUse, cmd@));
    assert(steps_view(steps@) =~= pattern_steps(ErrorType::PortInUse, cmd@, None));
    assert(views(concepts@) =~= pattern_concepts(ErrorType::PortInUse));
    MentorGuidance::from_pattern(key, explanation.as_str()).with_search(search).with_steps(steps).with_concepts(concepts)
}

/// Guidance for an error of type `SyntaxError`.
fn guidance_syntax_error(key: &str, cmd: &str) -> (r: MentorGuidance)
    ensures
        guidance_view(r) == (
            key@,
            pattern_explanation(ErrorType::SyntaxError, cmd@, None),
            pattern_search(ErrorType::SyntaxError, cmd@),
            pattern_steps(ErrorType::SyntaxError, cmd@, None),
            pattern_concepts(ErrorType::SyntaxError),
            GuidanceSource::Pattern,
        ),
{
    let explanation = owned("There's a syntax error. Check for missing quotes, brackets, or typos.");
    let mut search: Vec<String> = Vec::new();
    let s0 = owned("syntax error");
    push_string(&mut search, s0);
    let mut steps: Vec<NextStep> = Vec::new();
    push_plain_step(&mut steps, "Check for missing or mismatched quotes");
    push_plain_step(&mut steps, "Check for missing brackets or parentheses");
    push_plain_step(&mut steps, "Look for typos in keywords");
    let mut concepts: Vec<String> = Vec::new();
    push_string(&mut concepts, owned("Syntax and parsing"));
    assert(views(search@) =~= pattern_search(ErrorType::SyntaxError, cmd@));
    assert(steps_view(steps@) =~= pattern_steps(ErrorType::SyntaxError, cmd@, None));
    assert(views(concepts@) =~= pattern_concepts(ErrorType::SyntaxError));
    MentorGuidance::from_pattern(key, explanation.as_str()).with_search(search).with_steps(steps).with_concepts(concepts)
}

/// Guidance for an error of type `DependencyError`.
fn guidance_dependency_error(key: &str, cmd: &str) -> (r: MentorGuidance)
    ensures
        guidance_view(r) == (
            key@,
            pattern_explanation(ErrorType::DependencyError, cmd@, None),
            pattern_search(ErrorType::DependencyError, cmd@),
            pattern_steps(ErrorType::DependencyError, cmd@, None),
            pattern_concepts(ErrorType::DependencyError),
            GuidanceSource::Pattern,
        ),
{
    let explanation = owned("A required module or dependency is missing. You may need to install it.");
    let mut search: Vec<String> = Vec::new();
    let s0 = owned("install dependency");
    push_string(&mut search, s0);
    let mut steps: Vec<NextStep> = Vec::new();
    let c0 = owned("npm install");
    push_command_step(&mut steps, "For Node.js", c0.as_str());
    let c1 = owned("pip install -r requirements.txt");
    push_command_step(&mut steps, "For Python", c1.as_str());
    let c2 = owned("cargo build");
    push_command_step(&mut steps, "For Rust", c2.as_str());
    push_plain_step(&mut steps, "Check if the module name is spelled correctly");
    let mut concepts: Vec<String> = Vec::new();
    push_string(&mut concepts, owned("Package managers"));
    push_string(&mut concepts, owned("Dependencies"));
    assert(views(search@) =~= pattern_search(ErrorType::DependencyError, cmd@));
    assert(steps_view(steps@) =~= pattern_steps(ErrorType::DependencyError, cmd@, None));
    assert(views(concepts@) =~= pattern_concepts(ErrorType::DependencyError));
    MentorGuidance::from_pattern(key, explanation.as_str()).with_search(search).with_steps(steps).with_concepts(concepts)
}

/// Guidance for an error of type `DockerError`.
fn guidance_docker_error(key: &str, cmd: &str) -> (r: MentorGuidance)
    ensures
        guidance_view(r) == (
            key@,
            pattern_explanation(ErrorType::DockerError, cmd@, None),
            pattern_search(ErrorType::DockerError, cmd@),
            pattern_steps(ErrorType::DockerError, cmd@, None),
            pattern_concepts(ErrorType::DockerError),
            GuidanceSource::Pattern,
        ),
{
    let explanation = owned("A Docker error occurred. Check if Docker is running and the image/container exists.");
    let mut search: Vec<String> = Vec::new();
    let s0 = owned("docker troubleshooting");
    push_string(&mut search, s0);
    let s1 = owned("docker common errors");
    push_string(&mut search, s1);
    let mut steps: Vec<NextStep> = Vec::new();
    let c0 = owned("docker info");
    push_command_step(&mut steps, "Check Docker status", c0.as_str());
    let c1 = owned("docker ps -a");
    push_command_step(&mut steps, "List containers", c1.as_str());
    let c2 = owned("docker images");
    push_command_step(&mut steps, "List images", c2.as_str());
    let c3 = owned("docker logs <container>");
    push_command_step(&mut steps, "View container logs", c3.as_str());
    let mut concepts: Vec<String> = Vec::new();
    push_string(&mut concepts, owned("Docker containers"));
    push_string(&mut concepts, owned("Docker images"));
    assert(views(search@) =~= pattern_search(ErrorType::DockerError, cmd@));
    assert(steps_view(steps@) =~= pattern_steps(ErrorType::DockerError, cmd@, None));
    assert(views(concepts@) =~= pattern_concepts(ErrorType::DockerError));
    MentorGuidance::from_pattern(key, explanation.as_str()).with_search(search).with_steps(steps).with_concepts(concepts)
}

/// Guidance for an error of type `KubernetesError`.
fn guidance_kubernetes_error(key: &str, cmd: &str) -> (r: MentorGuidance)
    ensures
        guidance_view(r) == (
            key@,
            pattern_explanation(ErrorType::KubernetesError, cmd@, None),
            pattern_search(ErrorType::KubernetesError, cmd@),
            pattern_steps(ErrorType::KubernetesError, cmd@, None),
            pattern_concepts(ErrorType::KubernetesError),
            GuidanceSource::Pattern,
        ),
{
    let explanation = owned("A Kubernetes error occurred. Check the resource name, namespace, and cluster connection.");
    let mut search: Vec<String> = Vec::new();
    let s0 = owned("kubernetes debugging");
    push_string(&mut search, s0);
    let s1 = owned("kubectl troubleshooting");
    push_string(&mut search, s1);
    let mut steps: Vec<NextStep> = Vec::new();
    let c0 = owned("kubectl cluster-info");
    push_command_step(&mut steps, "Check cluster connection", c0.as_str());
    let c1 = owned("kubectl get all");
    push_command_step(&mut steps, "List resources in namespace", c1.as_str());
    let c2 = owned("kubectl get all -A");
    push_command_step(&mut steps, "Check all namespaces", c2.as_str());
    let c3 = owned("kubectl describe <resource> <name>");
    push_command_step(&mut steps, "Describe resource", c3.as_str());
    let mut concepts: Vec<String> = Vec::new();
    push_string(&mut concepts, owned("Kubernetes namespaces"));
    push_string(&mut concepts, owned("Kubernetes resources"));
    assert(views(search@) =~= pattern_search(ErrorType::KubernetesError, cmd@));
    assert(steps_view(steps@) =~= pattern_steps(ErrorType::KubernetesError, cmd@, None));
    assert(views(concepts@) =~= pattern_concepts(ErrorType::KubernetesError));
    MentorGuidance::from_pattern(key, explanation.as_str()).with_search(search).with_steps(steps).with_concepts(concepts)
}

/// Guidance for an error of type `GitError`.
fn guidance_git_error(key: &str, cmd: &str) -> (r: MentorGuidance)
    ensures
        guidance_view(r) == (
            key@,
            pattern_explanation(ErrorType::GitError, cmd@, None),
            pattern_search(ErrorType::GitError, cmd@),
            pattern_steps(ErrorType::GitError, cmd@, None),
            pattern_concepts(ErrorType::GitError),
            GuidanceSource::Pattern,
        ),
{
    let explanation = owned("A Git error occurred. Check your repository state and remote configuration.");
    let mut search: Vec<String> = Vec::new();
    let s0 = owned("git common errors");
    push_string(&mut search, s0);
    let s1 = owned("git troubleshooting");
    push_string(&mut search, s1);
    let mut steps: Vec<NextStep> = Vec::new();
    let c0 = owned("git status");
    push_command_step(&mut steps, "Check repository status", c0.as_str());
    let c1 = owned("git log --oneline -5");
    push_command_step(&mut steps, "View recent commits", c1.as_str());
    let c2 = owned("git remote -v");
    push_command_step(&mut steps, "Check remotes", c2.as_str());
    let c3 = owned("git branch -a");
    push_command_step(&mut steps, "Check branches", c3.as_str());
    let mut concepts: Vec<String> = Vec::new();
    push_string(&mut concepts, owned("Git workflow"));
    push_string(&mut concepts, owned("Git remotes"));
    assert(views(search@) =~= pattern_search(ErrorType::GitError, cmd@));
    assert(steps_view(steps@) =~= pattern_steps(ErrorType::GitError, cmd@, None));
    assert(views(concepts@) =~= pattern_concepts(ErrorType::GitError));
    MentorGuidance::from_pattern(key, explanation.as_str()).with_search(search).with_steps(steps).with_concepts(concepts)
}

/// Guidance for a configuration error, pointing at its location when
/// known.
fn guidance_configuration_error(key: &str, loc: &Option<SourceLocation>) -> (r: MentorGuidance)
    ensures
        guidance_view(r) == (
            key@,
            pattern_explanation(ErrorType::ConfigurationError, seq![], *loc),
            pattern_search(ErrorType::ConfigurationError, seq![]),
            pattern_steps(ErrorType::ConfigurationError, seq![], *loc),
            pattern_concepts(ErrorType::ConfigurationError),
            GuidanceSource::Pattern,
        ),
{
    let location = match loc {
        Some(l) => l.to_string(),
        None => owned("configuration file"),
    };
    let mut explanation = owned("There's an error in ");
    explanation.append(location.as_str());
    explanation.append(". Check the file for typos or invalid directives.");
    let mut search: Vec<String> = Vec::new();
    push_string(&mut search, owned("configuration syntax"));
    let mut steps: Vec<NextStep> = Vec::new();
    match loc {
        Some(l) => {
            let line: u32 = match l.line {
                Some(n) => n,
                None => 1,
            };
            let mut open = owned("vim ");
            open.append(l.file.as_str());
            open.append(" +");
            open.append(u64_to_dec(line as u64).as_str());
            push_command_step(&mut steps, "Open file at error line", open.as_str());
            push_plain_step(&mut steps, "Check for typos in the directive name");
            push_plain_step(&mut steps, "Verify syntax matches documentation");
        },
        None => {
            push_plain_step(&mut steps, "Check the configuration file for syntax errors");
            push_plain_step(&mut steps, "Compare with documentation examples");
        },
    }
    let mut concepts: Vec<String> = Vec::new();
    push_string(&mut concepts, owned("Configuration file syntax"));
    assert(views(search@) =~= pattern_search(ErrorType::ConfigurationError, seq![]));
    assert(steps_view(steps@) =~= pattern_steps(ErrorType::ConfigurationError, seq![], *loc));
    assert(views(concepts@) =~= pattern_concepts(ErrorType::ConfigurationError));
    MentorGuidance::from_pattern(key, explanation.as_str()).with_search(search).with_steps(steps).with_concepts(concepts)
}

/// Generic guidance for errors no pattern knows.
fn guidance_generic(key: &str, t: ErrorType) -> (r: MentorGuidance)
    requires
        !has_pattern(t),
    ensures
        guidance_view(r) == (
            key@,
            fallback_explanation(),
            Seq::<Seq<char>>::empty(),
            pattern_steps(t, seq![], None),
            Seq::<Seq<char>>::empty(),
            GuidanceSource::Fallback,
        ),
{
    let mut steps: Vec<NextStep> = Vec::new();
    push_plain_step(&mut steps, "Check the full error output above");
    push_plain_step(&mut steps, "Search for the error message online");
    assert(steps_view(steps@) =~= pattern_steps(t, seq![], None));
    let g = MentorGuidance::fallback(key).with_steps(steps);
    assert(views(g.search_keywords@) =~= Seq::<Seq<char>>::empty());
    assert(views(g.related_concepts@) =~= Seq::<Seq<char>>::empty());
    g
}

/// A word, or `command` when there is none.
fn word_or_default(w: Option<String>) -> (r: String)
    ensures
        r@ == word_or_command(
            match w {
                Some(s) => Some(s@),
                None => None,
            },
        ),
{
    match w {
        Some(s) => s,
        None => owned("command"),
    }
}

/// The first word of `s`, if any.
fn first_word_of(s: &str) -> (r: Option<String>)
    ensures
        match r {
            Some(w) => first_word(s@) == Some(w@),
            None => first_word(s@) is None,
        },
{
    let ws = split_words(s);
    if ws.len() > 0 {
        assert(views(ws@)[0] == ws@[0]@);
        Some(ws[0].clone())
    } else {
        None
    }
}

/// The last word of `s`, if any.
fn last_word_of(s: &str) -> (r: Option<String>)
    ensures
        match r {
            Some(w) => last_word(s@) == Some(w@),
            None => last_word(s@) is None,
        },
{
    let ws = split_words(s);
    let n = ws.len();
    if n > 0 {
        assert(views(ws@)[n - 1] == ws@[n - 1]@);
        Some(ws[n - 1].clone())
    } else {
        None
    }
}

/// The pieces of `msg` between colons, trimmed.
fn colon_pieces(msg: &str) -> (r: Vec<String>)
    ensures
        views(r@) == colon_parts(msg@),
{
    let raw = split_char(msg, ':');
    let ghost all = views(raw@);
    let mut parts: Vec<String> = Vec::new();
    let mut i: usize = 0;
    while i < raw.len()
        invariant
            i <= raw@.len(),
            all == views(raw@),
            all == split_on(msg@, ':'),
            views(parts@) == all.take(i as int).map_values(|p: Seq<char>| trim(p)),
        decreases raw.len() - i,
    {
        let ghost before = views(parts@);
        let t = str_trim(raw[i].as_str());
        parts.push(t);
        assert(views(parts@) =~= before.push(trim(all[i as int])));
        assert(all.take(i + 1).map_values(|p: Seq<char>| trim(p)) =~= all.take(i as int).map_values(
            |p: Seq<char>| trim(p),
        ).push(trim(all[i as int])));
        i = i + 1;
    }
    assert(all.take(raw@.len() as int) =~= all);
    parts
}

/// The missing command named in a "command not found" message:
/// `bash: foo: command not found` and `foo: not found` name `foo`, as does
/// `command not found: foo`; otherwise the last word of the message, or
/// `command`.
pub fn extract_command_name(msg: &str) -> (r: String)
    ensures
        r@ == command_name_of(msg@),
{
    let parts = colon_pieces(msg);
    let ghost ps = colon_parts(msg@);
    let n = parts.len();
    if n >= 3 {
        let last = parts[n - 1].as_str();
        assert(last@ == ps.last());
        if str_contains(last, "command not found") || str_contains(last, "not found") {
            let first = parts[0].as_str();
            assert(first@ == ps[0]);
            let skip: usize = if str_eq(first, "bash") || str_eq(first, "zsh") || str_eq(first, "sh") {
                1
            } else {
                0
            };
            assert(parts@[skip as int]@ == ps[skip as int]);
            return word_or_default(first_word_of(parts[skip].as_str()));
        }
    }
    if n == 2 {
        assert(parts@[0]@ == ps[0]);
        assert(parts@[1]@ == ps[1]);
        if str_contains(parts[0].as_str(), "command not found") {
            return word_or_default(first_word_of(parts[1].as_str()));
        }
        if str_contains(parts[1].as_str(), "command not found") || str_contains(
            parts[1].as_str(),
            "not found",
        ) {
            return word_or_default(last_word_of(parts[0].as_str()));
        }
    }
    word_or_default(last_word_of(msg))
}

/// The built-in guidance for `error`: for the kinds of error with a
/// pattern, its explanation, search keywords, steps and concepts (the
/// missing command's name, or the configuration file's location, filled
/// in); for other kinds, generic guidance.
pub fn generate_from_pattern(error: &ErrorInfo) -> (r: MentorGuidance)
    ensures
        guidance_view(r) == pattern_guidance(*error),
{
    let key = error.key_message.as_str();
    match error.error_type {
        ErrorType::CommandNotFound => {
            let cmd = extract_command_name(key);
            guidance_command_not_found(key, cmd.as_str())
        },
        ErrorType::ConfigurationError => guidance_configuration_error(key, &error.source_location),
        ErrorType::PermissionDenied => guidance_permission_denied(key, ""),
        ErrorType::FileNotFound => guidance_file_not_found(key, ""),
        ErrorType::ConnectionRefused => guidance_connection_refused(key, ""),
        ErrorType::PortInUse => guidance_port_in_use(key, ""),
        ErrorType::SyntaxError => guidance_syntax_error(key, ""),
        ErrorType::DependencyError => guidance_dependency_error(key, ""),
        ErrorType::DockerError => guidance_docker_error(key, ""),
        ErrorType::KubernetesError => guidance_kubernetes_error(key, ""),
        ErrorType::GitError => guidance_git_error(key, ""),
        _ => guidance_generic(key, error.error_type),
    }
}

/// Whether pattern guidance is good enough to show without asking a
/// language model: it came from a pattern, and has an explanation and
/// steps.
pub fn pattern_suffices(g: &MentorGuidance) -> (r: bool)
    ensures
        r == (g.source == GuidanceSource::Pattern && g.explanation@.len() > 0 && g.next_steps@.len() > 0),
{
    g.source == GuidanceSource::Pattern && g.explanation.as_str().unicode_len() > 0 && g.next_steps.len() > 0
}

/// Whether to ask a language model when the cache had no guidance: only
/// when the pattern guidance does not suffice, the model is enabled and one
/// is available; otherwise the pattern guidance is shown.
pub fn should_ask_model(pattern: &MentorGuidance, enable_llm: bool, model_available: bool) -> (r: bool)
    ensures
        r == (!(pattern.source == GuidanceSource::Pattern && pattern.explanation@.len() > 0
            && pattern.next_steps@.len() > 0) && enable_llm && model_available),
{
    !pattern_suffices(pattern) && enable_llm && model_available
}

/// Built-in guidance exists for commands not found, permission denied,
/// missing files, refused connections, ports in use, configuration,
/// syntax and dependency errors, and Docker, Kubernetes and Git errors;
/// every other kind of error is left to the model.
pub proof fn law_guided_error_types(t: ErrorType)
    ensures
        has_pattern(t) <==> (t == ErrorType::CommandNotFound || t == ErrorType::PermissionDenied
            || t == ErrorType::FileNotFound || t == ErrorType::ConnectionRefused || t == ErrorType::PortInUse
            || t == ErrorType::ConfigurationError || t == ErrorType::SyntaxError || t == ErrorType::DependencyError
            || t == ErrorType::DockerError || t == ErrorType::KubernetesError || t == ErrorType::GitError),
{
}

} // verus!
