//! Explanations of commands for the explain mode: a built-in table of
//! common tools and flags, and the prompt and clean-up used when a model
//! writes the explanation.
use crate::text::{
    chars_of, contains, first_word, join, lines, owned, remove_all, remove_str, split_lines,
    split_words, str_contains, str_eq, str_trim, trim, views, join_strings,
};
use vstd::prelude::*;

verus! {

/// Builds explanations of commands.
pub struct CommandExplainer;

/// Opening of the prompt, up to the tool's name.
pub const EXPLAIN_PROMPT_HEAD: &'static str = "You are an expert ops instructor teaching a beginner who has never used a terminal before.\n\nExplain this command in a way that teaches the user:\n\nTool: ";

/// Text between the tool's name and the command.
pub const EXPLAIN_PROMPT_MIDDLE: &'static str = "\nCommand: ";

/// Rest of the prompt, after the command.
pub const EXPLAIN_PROMPT_TAIL: &'static str = "\n\nYour explanation should:\n1. Start with what the base command means (e.g., \"lsof = list open files\")\n2. Explain WHY this is useful (the concept behind it)\n3. Break down each flag/argument with \"→\" arrows\n4. End with \"When to use:\" followed by practical scenarios\n\nFormat your response EXACTLY like this example:\n\nlsof = \"list open files\"\n\nIn Unix, network connections are treated as files.\nThis command finds which process is using a port.\n\nFlags:\n  -i :80  → filter by port 80\n  -P      → show port numbers (not names)\n  -n      → skip DNS lookup (faster)\n\nWhen to use: Finding port conflicts, identifying\nwhich service is listening on a port.\n\nKeep it concise (6-10 lines max). No markdown, no code blocks.\nFocus on teaching the CONCEPT, not just describing syntax.";

/// Most lines an explanation keeps.
pub const MAX_EXPLANATION_LINES: usize = 12;

/// What the base command `key` stands for.
pub open spec fn base_command_desc(key: Seq<char>) -> Seq<char> {
    if key == "kubectl"@ {
        "Kubernetes command-line tool"@
    } else if key == "docker"@ {
        "Container management tool"@
    } else if key == "lsof"@ {
        "list open files"@
    } else if key == "ss"@ {
        "socket statistics"@
    } else if key == "netstat"@ {
        "network statistics"@
    } else if key == "curl"@ {
        "transfer data from/to server"@
    } else if key == "nginx"@ {
        "web server control"@
    } else if key == "systemctl"@ {
        "system service manager"@
    } else if key == "journalctl"@ {
        "query systemd journal"@
    } else if key == "ps"@ {
        "process status"@
    } else if key == "top"@ {
        "process monitor"@
    } else if key == "htop"@ {
        "process monitor"@
    } else if key == "df"@ {
        "disk space usage"@
    } else if key == "du"@ {
        "disk usage by directory"@
    } else if key == "ls"@ {
        "list directory contents"@
    } else if key == "cat"@ {
        "concatenate and display files"@
    } else if key == "grep"@ {
        "search text patterns"@
    } else if key == "find"@ {
        "search for files"@
    } else if key == "chmod"@ {
        "change file permissions"@
    } else if key == "chown"@ {
        "change file ownership"@
    } else if key == "tar"@ {
        "archive files"@
    } else if key == "git"@ {
        "version control system"@
    } else if key == "mysql"@ {
        "MySQL database client"@
    } else if key == "psql"@ {
        "PostgreSQL database client"@
    } else if key == "drush"@ {
        "Drupal command-line tool"@
    } else {
        "command-line tool"@
    }
}

/// A sentence of context about the tool category `key`.
pub open spec fn tool_context(key: Seq<char>) -> Seq<char> {
    if key == "kubectl"@ {
        "Kubernetes manages containerized applications across clusters."@
    } else if key == "docker"@ {
        "Docker runs applications in isolated containers."@
    } else if key == "network"@ {
        "Network tools help diagnose connectivity issues."@
    } else if key == "nginx"@ {
        "Nginx is a high-performance web server and reverse proxy."@
    } else if key == "apache2"@ {
        "Apache is a widely-used web server."@
    } else if key == "mysql"@ {
        "MySQL is a relational database management system."@
    } else if key == "drush"@ {
        "Drush manages Drupal sites from the command line."@
    } else {
        "This tool helps manage system operations."@
    }
}

/// When the base command `key` is used.
pub open spec fn use_case(key: Seq<char>) -> Seq<char> {
    if key == "kubectl"@ {
        "Managing Kubernetes deployments, debugging pods, viewing logs."@
    } else if key == "docker"@ {
        "Running containers, building images, managing container lifecycle."@
    } else if key == "lsof"@ {
        "Finding port conflicts, identifying which process uses a file/port."@
    } else if key == "ss"@ {
        "Checking open ports, debugging network connections."@
    } else if key == "netstat"@ {
        "Checking open ports, debugging network connections."@
    } else if key == "curl"@ {
        "Testing APIs, downloading files, debugging HTTP issues."@
    } else if key == "nginx"@ {
        "Managing web server, testing config, reloading after changes."@
    } else if key == "systemctl"@ {
        "Starting/stopping services, checking service status."@
    } else if key == "journalctl"@ {
        "Reading logs, debugging service failures."@
    } else if key == "ps"@ {
        "Finding running processes, checking resource usage."@
    } else if key == "df"@ {
        "Checking available disk space."@
    } else if key == "du"@ {
        "Finding what's using disk space."@
    } else if key == "grep"@ {
        "Searching logs, filtering command output."@
    } else if key == "find"@ {
        "Locating files by name, type, or age."@
    } else {
        "Various system administration tasks."@
    }
}

/// The pair (`flag`, `desc`) when `command` contains `pat`, else nothing.
pub open spec fn flag_if(
    command: Seq<char>,
    pat: Seq<char>,
    flag: Seq<char>,
    desc: Seq<char>,
) -> Seq<(Seq<char>, Seq<char>)> {
    if contains(command, pat) {
        seq![(flag, desc)]
    } else {
        seq![]
    }
}

/// The flags of `command` that the explanation of `base` describes, as
/// (flag, description) pairs, in table order.
pub open spec fn explained_flags(command: Seq<char>, base: Seq<char>) -> Seq<(Seq<char>, Seq<char>)> {
    if base == "kubectl"@ {
        seq![]
            + flag_if(command, " get "@, "get"@, "retrieve resources"@)
            + flag_if(command, " describe "@, "describe"@, "show detailed info"@)
            + flag_if(command, " logs "@, "logs"@, "fetch container logs"@)
            + flag_if(command, " delete "@, "delete"@, "remove resources"@)
            + flag_if(command, " apply "@, "apply"@, "create/update resources"@)
            + flag_if(command, " -n "@, "-n"@, "specify namespace"@)
            + flag_if(command, " -o wide"@, "-o wide"@, "show more columns"@)
            + flag_if(command, " -o yaml"@, "-o yaml"@, "output as YAML"@)
            + flag_if(command, " -o json"@, "-o json"@, "output as JSON"@)
            + flag_if(command, " -f "@, "-f"@, "use file"@)
            + flag_if(command, " --all-namespaces"@, "--all-namespaces"@, "across all namespaces"@)
    } else if base == "docker"@ {
        seq![]
            + flag_if(command, " ps"@, "ps"@, "list containers"@)
            + flag_if(command, " images"@, "images"@, "list images"@)
            + flag_if(command, " logs "@, "logs"@, "fetch container logs"@)
            + flag_if(command, " exec "@, "exec"@, "run command in container"@)
            + flag_if(command, " -a"@, "-a"@, "show all (including stopped)"@)
            + flag_if(command, " -it "@, "-it"@, "interactive terminal"@)
            + flag_if(command, " -d"@, "-d"@, "run in background"@)
    } else if base == "lsof"@ {
        seq![]
            + flag_if(command, " -i"@, "-i"@, "filter by network connection"@)
            + flag_if(command, " -P"@, "-P"@, "show port numbers (not names)"@)
            + flag_if(command, " -n"@, "-n"@, "skip DNS lookup (faster)"@)
    } else if base == "ss"@ {
        seq![]
            + flag_if(command, " -t"@, "-t"@, "TCP connections only"@)
            + flag_if(command, " -l"@, "-l"@, "listening sockets only"@)
            + flag_if(command, " -n"@, "-n"@, "numeric output"@)
            + flag_if(command, " -p"@, "-p"@, "show process info"@)
    } else if base == "nginx"@ {
        seq![]
            + flag_if(command, " -t"@, "-t"@, "test configuration"@)
            + flag_if(command, " -T"@, "-T"@, "test and dump config"@)
            + flag_if(command, " -s reload"@, "-s reload"@, "reload configuration"@)
    } else {
        seq![]
    }
}

/// The (flag, description) pairs as character sequences.
pub open spec fn flag_views(v: Seq<(String, &'static str)>) -> Seq<(Seq<char>, Seq<char>)> {
    v.map_values(|p: (String, &'static str)| (p.0@, p.1@))
}

/// One line per flag: two spaces, the flag, ` -> `, its description.
pub open spec fn flag_lines(fl: Seq<(Seq<char>, Seq<char>)>) -> Seq<char>
    decreases fl.len(),
{
    if fl.len() == 0 {
        seq![]
    } else {
        flag_lines(fl.drop_last()) + "  "@ + fl.last().0 + " -> "@ + fl.last().1 + "\n"@
    }
}

/// The `Flags:` section, absent when no flag is described.
pub open spec fn flags_block(fl: Seq<(Seq<char>, Seq<char>)>) -> Seq<char> {
    if fl.len() == 0 {
        seq![]
    } else {
        "Flags:\n"@ + flag_lines(fl) + "\n"@
    }
}

/// The first word of `command`, or nothing.
pub open spec fn base_of(command: Seq<char>) -> Seq<char> {
    match first_word(command) {
        Some(w) => w,
        None => seq![],
    }
}

/// The built-in explanation of `command` run with the tool category `tool`.
pub open spec fn explanation_text(command: Seq<char>, tool: Seq<char>) -> Seq<char> {
    let b = base_of(command);
    b + " = \""@ + base_command_desc(b) + "\"\n\n"@ + tool_context(tool) + "\n\n"@
        + flags_block(explained_flags(command, b)) + "When to use: "@ + use_case(b)
}

/// The prompt that asks a model to explain `command` of the tool `tool`.
pub open spec fn explain_prompt(command: Seq<char>, tool: Seq<char>) -> Seq<char> {
    EXPLAIN_PROMPT_HEAD@ + tool + EXPLAIN_PROMPT_MIDDLE@ + command + EXPLAIN_PROMPT_TAIL@
}

/// A model's reply without surrounding whitespace and markdown markers.
pub open spec fn cleaned_reply(raw: Seq<char>) -> Seq<char> {
    remove_all(remove_all(remove_all(trim(raw), "```"@), "**"@), "*"@)
}

/// A model's reply cleaned and cut to its first twelve lines.
pub open spec fn formatted_reply(raw: Seq<char>) -> Seq<char> {
    let ls = lines(cleaned_reply(raw));
    join(if ls.len() > 12 { ls.take(12) } else { ls }, "\n"@)
}

/// What the base command `key` stands for.
pub fn base_command_description(key: &str) -> (r: &'static str)
    ensures
        r@ == base_command_desc(key@),
{
    if str_eq(key, "kubectl") {
        return "Kubernetes command-line tool";
    }
    if str_eq(key, "docker") {
        return "Container management tool";
    }
    if str_eq(key, "lsof") {
        return "list open files";
    }
    if str_eq(key, "ss") {
        return "socket statistics";
    }
    if str_eq(key, "netstat") {
        return "network statistics";
    }
    if str_eq(key, "curl") {
        return "transfer data from/to server";
    }
    if str_eq(key, "nginx") {
        return "web server control";
    }
    if str_eq(key, "systemctl") {
        return "system service manager";
    }
    if str_eq(key, "journalctl") {
        return "query systemd journal";
    }
    if str_eq(key, "ps") {
        return "process status";
    }
    if str_eq(key, "top") {
        return "process monitor";
    }
    if str_eq(key, "htop") {
        return "process monitor";
    }
    if str_eq(key, "df") {
        return "disk space usage";
    }
    if str_eq(key, "du") {
        return "disk usage by directory";
    }
    if str_eq(key, "ls") {
        return "list directory contents";
    }
    if str_eq(key, "cat") {
        return "concatenate and display files";
    }
    if str_eq(key, "grep") {
        return "search text patterns";
    }
    if str_eq(key, "find") {
        return "search for files";
    }
    if str_eq(key, "chmod") {
        return "change file permissions";
    }
    if str_eq(key, "chown") {
        return "change file ownership";
    }
    if str_eq(key, "tar") {
        return "archive files";
    }
    if str_eq(key, "git") {
        return "version control system";
    }
    if str_eq(key, "mysql") {
        return "MySQL database client";
    }
    if str_eq(key, "psql") {
        return "PostgreSQL database client";
    }
    if str_eq(key, "drush") {
        return "Drupal command-line tool";
    }
    "command-line tool"
}

/// Context about the tool category `key`.
pub fn tool_context_text(key: &str) -> (r: &'static str)
    ensures
        r@ == tool_context(key@),
{
    if str_eq(key, "kubectl") {
        return "Kubernetes manages containerized applications across clusters.";
    }
    if str_eq(key, "docker") {
        return "Docker runs applications in isolated containers.";
    }
    if str_eq(key, "network") {
        return "Network tools help diagnose connectivity issues.";
    }
    if str_eq(key, "nginx") {
        return "Nginx is a high-performance web server and reverse proxy.";
    }
    if str_eq(key, "apache2") {
        return "Apache is a widely-used web server.";
    }
    if str_eq(key, "mysql") {
        return "MySQL is a relational database management system.";
    }
    if str_eq(key, "drush") {
        return "Drush manages Drupal sites from the command line.";
    }
    "This tool helps manage system operations."
}

/// When the base command `key` is used.
pub fn use_case_text(key: &str) -> (r: &'static str)
    ensures
        r@ == use_case(key@),
{
    if str_eq(key, "kubectl") {
        return "Managing Kubernetes deployments, debugging pods, viewing logs.";
    }
    if str_eq(key, "docker") {
        return "Running containers, building images, managing container lifecycle.";
    }
    if str_eq(key, "lsof") {
        return "Finding port conflicts, identifying which process uses a file/port.";
    }
    if str_eq(key, "ss") {
        return "Checking open ports, debugging network connections.";
    }
    if str_eq(key, "netstat") {
        return "Checking open ports, debugging network connections.";
    }
    if str_eq(key, "curl") {
        return "Testing APIs, downloading files, debugging HTTP issues.";
    }
    if str_eq(key, "nginx") {
        return "Managing web server, testing config, reloading after changes.";
    }
    if str_eq(key, "systemctl") {
        return "Starting/stopping services, checking service status.";
    }
    if str_eq(key, "journalctl") {
        return "Reading logs, debugging service failures.";
    }
    if str_eq(key, "ps") {
        return "Finding running processes, checking resource usage.";
    }
    if str_eq(key, "df") {
        return "Checking available disk space.";
    }
    if str_eq(key, "du") {
        return "Finding what's using disk space.";
    }
    if str_eq(key, "grep") {
        return "Searching logs, filtering command output.";
    }
    if str_eq(key, "find") {
        return "Locating files by name, type, or age.";
    }
    "Various system administration tasks."
}

/// Appends (`flag`, `desc`) to `flags` when `command` contains `pat`.
fn push_flag_if(
    flags: &mut Vec<(String, &'static str)>,
    command: &str,
    pat: &str,
    flag: &str,
    desc: &'static str,
)
    ensures
        flag_views(final(flags)@) == flag_views(old(flags)@) + flag_if(command@, pat@, flag@, desc@),
{
    let ghost before = flag_views(flags@);
    if str_contains(command, pat) {
        flags.push((owned(flag), desc));
        assert(flag_views(flags@) =~= before + seq![(flag@, desc@)]);
    } else {
        assert(before + Seq::<(Seq<char>, Seq<char>)>::empty() =~= before);
    }
}

/// The flags of `command` that the explanation of `base_cmd` describes.
pub fn explain_flags(command: &str, base_cmd: &str) -> (r: Vec<(String, &'static str)>)
    ensures
        flag_views(r@) == explained_flags(command@, base_cmd@),
{
    let mut flags: Vec<(String, &'static str)> = Vec::new();
    assert(flag_views(flags@) =~= Seq::<(Seq<char>, Seq<char>)>::empty());
    if str_eq(base_cmd, "kubectl") {
        push_flag_if(&mut flags, command, " get ", "get", "retrieve resources");
        push_flag_if(&mut flags, command, " describe ", "describe", "show detailed info");
        push_flag_if(&mut flags, command, " logs ", "logs", "fetch container logs");
        push_flag_if(&mut flags, command, " delete ", "delete", "remove resources");
        push_flag_if(&mut flags, command, " apply ", "apply", "create/update resources");
        push_flag_if(&mut flags, command, " -n ", "-n", "specify namespace");
        push_flag_if(&mut flags, command, " -o wide", "-o wide", "show more columns");
        push_flag_if(&mut flags, command, " -o yaml", "-o yaml", "output as YAML");
        push_flag_if(&mut flags, command, " -o json", "-o json", "output as JSON");
        push_flag_if(&mut flags, command, " -f ", "-f", "use file");
        push_flag_if(&mut flags, command, " --all-namespaces", "--all-namespaces", "across all namespaces");
    } else if str_eq(base_cmd, "docker") {
        push_flag_if(&mut flags, command, " ps", "ps", "list containers");
        push_flag_if(&mut flags, command, " images", "images", "list images");
        push_flag_if(&mut flags, command, " logs ", "logs", "fetch container logs");
        push_flag_if(&mut flags, command, " exec ", "exec", "run command in container");
        push_flag_if(&mut flags, command, " -a", "-a", "show all (including stopped)");
        push_flag_if(&mut flags, command, " -it ", "-it", "interactive terminal");
        push_flag_if(&mut flags, command, " -d", "-d", "run in background");
    } else if str_eq(base_cmd, "lsof") {
        push_flag_if(&mut flags, command, " -i", "-i", "filter by network connection");
        push_flag_if(&mut flags, command, " -P", "-P", "show port numbers (not names)");
        push_flag_if(&mut flags, command, " -n", "-n", "skip DNS lookup (faster)");
    } else if str_eq(base_cmd, "ss") {
        push_flag_if(&mut flags, command, " -t", "-t", "TCP connections only");
        push_flag_if(&mut flags, command, " -l", "-l", "listening sockets only");
        push_flag_if(&mut flags, command, " -n", "-n", "numeric output");
        push_flag_if(&mut flags, command, " -p", "-p", "show process info");
    } else if str_eq(base_cmd, "nginx") {
        push_flag_if(&mut flags, command, " -t", "-t", "test configuration");
        push_flag_if(&mut flags, command, " -T", "-T", "test and dump config");
        push_flag_if(&mut flags, command, " -s reload", "-s reload", "reload configuration");
    }
    flags
}

impl CommandExplainer {
    /// The built-in explanation of `command`, run with the tool category
    /// `tool`: what its base command stands for, context about the tool, the
    /// flags it recognises and when the command is used.
    pub fn explain_sync(command: &str, tool: &str) -> (r: String)
        ensures
            r@ == explanation_text(command@, tool@),
    {
        let parts = split_words(command);
        let base: String = if parts.len() > 0 {
            parts[0].clone()
        } else {
            String::new()
        };
        assert(base@ == base_of(command@));
        let b = base.as_str();
        let mut out = String::new();
        out.append(b);
        out.append(" = \"");
        out.append(base_command_description(b));
        out.append("\"\n\n");
        out.append(tool_context_text(tool));
        out.append("\n\n");
        let flags = explain_flags(command, b);
        let ghost fl = explained_flags(command@, b@);
        if flags.len() > 0 {
            out.append("Flags:\n");
            let mut i: usize = 0;
            let ghost start = out@;
            while i < flags.len()
                invariant
                    i <= flags.len(),
                    flag_views(flags@) == fl,
                    out@ == start + flag_lines(fl.take(i as int)),
                decreases flags.len() - i,
            {
                assert(fl.take(i + 1).drop_last() =~= fl.take(i as int));
                out.append("  ");
                out.append(flags[i].0.as_str());
                out.append(" -> ");
                out.append(flags[i].1);
                out.append("\n");
                i = i + 1;
            }
            assert(fl.take(flags.len() as int) =~= fl);
            out.append("\n");
        }
        out.append("When to use: ");
        out.append(use_case_text(b));
        assert(out@ =~= explanation_text(command@, tool@));
        out
    }

    /// The prompt that asks a model to explain `command` of the tool `tool`.
    pub fn build_explain_prompt(command: &str, tool: &str) -> (r: String)
        ensures
            r@ == explain_prompt(command@, tool@),
    {
        let mut out = owned(EXPLAIN_PROMPT_HEAD);
        out.append(tool);
        out.append(EXPLAIN_PROMPT_MIDDLE);
        out.append(command);
        out.append(EXPLAIN_PROMPT_TAIL);
        out
    }

    /// A model's reply made fit for the terminal: trimmed, without code
    /// fences or emphasis markers, and cut to its first twelve lines.
    pub fn format_explanation(raw: &str) -> (r: String)
        ensures
            r@ == formatted_reply(raw@),
    {
        proof {
            reveal_strlit("```");
            reveal_strlit("**");
            reveal_strlit("*");
        }
        let t = str_trim(raw);
        let a = remove_str(t.as_str(), "```");
        let b = remove_str(a.as_str(), "**");
        let c = remove_str(b.as_str(), "*");
        let mut ls = split_lines(c.as_str());
        let ghost all = views(ls@);
        if ls.len() > MAX_EXPLANATION_LINES {
            ls.truncate(MAX_EXPLANATION_LINES);
            assert(views(ls@) =~= all.take(12));
        }
        join_strings(&ls, "\n")
    }
}

} // verus!
