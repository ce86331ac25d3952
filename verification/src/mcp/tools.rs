//! What the MCP tools answer: the tool list, risk assessments, the
//! diagnostic commands and suggestions for a problem, and explanations.
use crate::ai::explainer::{explanation_text, CommandExplainer};
use crate::kubectl::risk_classifier::risk_label;
use crate::kubectl::RiskLevel;
use crate::mcp::types::{answers, ToolCallResult, ToolDefinition};
use crate::text::{
    byte_boundary, byte_len, contains, first_word, lowercase, owned, prefix_bytes, split_words,
    str_byte_len, str_contains, str_eq, take_bytes, to_lowercase, views,
};
use vstd::prelude::*;

verus! {

/// The assistant's MCP tools, with the names of the tools it has available.
pub struct KaidoTools {
    available: Vec<String>,
}

impl View for KaidoTools {
    /// The names of the available tools.
    type V = Seq<Seq<char>>;

    closed spec fn view(&self) -> Seq<Seq<char>> {
        views(self.available@)
    }
}

/// Suggested steps.
pub const BAD_GATEWAY_STEPS: &'static str = "1. Check if the upstream service is running\n2. Verify nginx proxy_pass configuration\n3. Check upstream service logs\n4. Verify network connectivity between nginx and upstream\n";

/// Suggested steps.
pub const CRASH_STEPS: &'static str = "1. Check pod logs: `kubectl logs <pod-name> --previous`\n2. Describe pod for events: `kubectl describe pod <pod-name>`\n3. Check resource limits (OOMKilled?)\n4. Verify liveness/readiness probes\n";

/// Suggested steps.
pub const PORT_IN_USE_STEPS: &'static str = "1. Find process using port: `lsof -i :<port>`\n2. Kill the process or use a different port\n3. Check for zombie processes\n";

/// Suggested steps.
pub const GENERAL_STEPS: &'static str = "1. Review the diagnostic results above\n2. Check relevant service logs\n3. Verify configuration files\n4. Test connectivity to dependencies\n";

/// Explanation of a risk level.
pub const LOW_RISK_TEXT: &'static str = "This is a **read-only** operation that does not modify any state.\n- Safe to execute automatically\n- No confirmation required\n";

/// Explanation of a risk level.
pub const MEDIUM_RISK_TEXT: &'static str = "This operation **modifies state** but can typically be reversed.\n- Requires confirmation before execution\n- Changes can usually be rolled back\n";

/// Explanation of a risk level.
pub const HIGH_RISK_TEXT: &'static str = "This is a **destructive** operation that may be difficult to reverse.\n- Requires explicit confirmation\n- Consider backup before proceeding\n";

/// Explanation of a risk level.
pub const PRODUCTION_WARNING: &'static str = "- **WARNING:** Production environment detected!\n";

/// The tools described by `list_tools`, with their descriptions.
pub open spec fn tool_catalog() -> Seq<(Seq<char>, Seq<char>)> {
    seq![
        ("kubectl"@, "Kubernetes cluster management - pods, deployments, services, etc."@),
        ("docker"@, "Container management - images, containers, networks, volumes"@),
        ("nginx"@, "Nginx web server - config testing, reload, status"@),
        ("apache2"@, "Apache web server - config testing, modules, status"@),
        ("network"@, "Network diagnostics - ports, connections, DNS, curl"@),
        ("mysql"@, "MySQL database operations - queries, status, variables"@),
        ("drush"@, "Drupal management - cache, config, database operations"@),
    ]
}

/// The tools announced to the client, as (name, description, input
/// schema).
pub open spec fn tool_definitions() -> Seq<(Seq<char>, Seq<char>, Seq<char>)> {
    seq![
        ("kaido_diagnose"@, "Diagnose a DevOps problem by analyzing the situation and suggesting solutions. Kaido will use its AI-powered diagnosis to understand the issue and provide step-by-step guidance."@, "{\"type\":\"object\",\"properties\":{\"problem\":{\"type\":\"string\",\"description\":\"Description of the problem to diagnose (e.g., 'nginx is returning 502', 'pod keeps crashing')\"}},\"required\":[\"problem\"]}"@),
        ("kaido_execute"@, "Execute a command using a specific Kaido tool (kubectl, docker, nginx, network, etc.). Returns the command output."@, "{\"type\":\"object\",\"properties\":{\"command\":{\"type\":\"string\",\"description\":\"The command to execute\"},\"tool\":{\"type\":\"string\",\"description\":\"Tool name (kubectl, docker, nginx, apache2, network, mysql, drush)\",\"enum\":[\"kubectl\",\"docker\",\"nginx\",\"apache2\",\"network\",\"mysql\",\"drush\",\"shell\"]}},\"required\":[\"command\"]}"@),
        ("kaido_explain"@, "Get an educational explanation of a command. Breaks down the command into components, explains flags and arguments, and provides context on when to use it."@, "{\"type\":\"object\",\"properties\":{\"command\":{\"type\":\"string\",\"description\":\"The command to explain (e.g., 'kubectl get pods -n kube-system')\"}},\"required\":[\"command\"]}"@),
        ("kaido_get_context"@, "Get current system context including Kubernetes cluster, Docker status, and available tools. Useful for understanding the environment before taking actions."@, "{\"type\":\"object\",\"properties\":{},\"required\":[]}"@),
        ("kaido_list_tools"@, "List all available Kaido tools and their capabilities."@, "{\"type\":\"object\",\"properties\":{},\"required\":[]}"@),
        ("kaido_check_risk"@, "Assess the risk level of a command before execution. Returns LOW, MEDIUM, HIGH, or CRITICAL with an explanation of potential impacts."@, "{\"type\":\"object\",\"properties\":{\"command\":{\"type\":\"string\",\"description\":\"The command to assess\"},\"tool\":{\"type\":\"string\",\"description\":\"Tool name (optional, auto-detected if not provided)\"}},\"required\":[\"command\"]}"@),
    ]
}

/// A definition as plain values.
pub open spec fn definition_view(d: ToolDefinition) -> (Seq<char>, Seq<char>, Seq<char>) {
    (d.name@, d.description@, d.input_schema@)
}

/// A command's output as shown in a diagnosis: cut to 2000 bytes and
/// marked when longer.
pub open spec fn shown_output(out: Seq<char>) -> Seq<char> {
    if byte_len(out) > 2000 {
        take_bytes(out, 2000) + "...\n(truncated)"@
    } else {
        out
    }
}

/// The part of a diagnosis for one command: its name, the command, and its
/// output or the error that stopped it.
pub open spec fn diagnostic_section(name: Seq<char>, cmd: Seq<char>, outcome: Result<String, String>) -> Seq<char> {
    "### "@ + name + "\n"@ + "```\n$ "@ + cmd + "\n"@ + match outcome {
        Ok(out) => shown_output(out@),
        Err(e) => "Error: "@ + e@,
    } + "\n```\n\n"@
}

/// The sections for the commands run.
pub open spec fn diagnostic_sections(rs: Seq<(&'static str, String, Result<String, String>)>) -> Seq<char>
    decreases rs.len(),
{
    if rs.len() == 0 {
        seq![]
    } else {
        diagnostic_sections(rs.drop_last()) + diagnostic_section(rs.last().0@, rs.last().1@, rs.last().2)
    }
}

/// The outputs can be cut where the diagnosis cuts them.
pub open spec fn outputs_cut_ok(rs: Seq<(&'static str, String, Result<String, String>)>) -> bool {
    forall|i: int|
        0 <= i < rs.len() ==> ((#[trigger] rs[i]).2 matches Ok(out) ==> (byte_len(out@) > 2000
            ==> byte_boundary(out@, 2000)))
}

/// The diagnosis of `problem`: a heading, the tool detected, the results of
/// the diagnostic commands, and the suggested next steps.
pub open spec fn diagnosis_text(
    problem: Seq<char>,
    detected: Option<Seq<char>>,
    rs: Seq<(&'static str, String, Result<String, String>)>,
) -> Seq<char> {
    "# Kaido Diagnosis: "@ + problem + "\n\n"@ + match detected {
        Some(t) => "**Detected Tool:** "@ + t + "\n\n"@,
        None => seq![],
    } + (if rs.len() > 0 {
        "## Diagnostic Results\n\n"@ + diagnostic_sections(rs)
    } else {
        seq![]
    }) + "## Suggested Next Steps\n\n"@ + suggestions_for(lowercase(problem))
}

/// What running a command answers: the command and its output (or
/// `(no output)`), or why it could not run.
pub open spec fn execution_answer(command: Seq<char>, outcome: Result<String, String>) -> (Seq<char>, bool) {
    match outcome {
        Ok(out) => ("$ "@ + command + "\n\n"@ + (if out@.len() == 0 {
            "(no output)"@
        } else {
            out@
        }), false),
        Err(e) => ("Execution failed: "@ + e@, true),
    }
}

/// One tool's part of the tool list.
pub open spec fn catalog_section(name: Seq<char>, desc: Seq<char>, available: bool) -> Seq<char> {
    "## "@ + name + "\n- **Status:** "@ + (if available {
        "available"@
    } else {
        "registered"@
    }) + "\n- **Description:** "@ + desc + "\n\n"@
}

/// The sections for the first `n` catalogued tools.
pub open spec fn catalog_sections(avail: Seq<Seq<char>>, n: nat) -> Seq<char>
    decreases n,
{
    if n == 0 || n > tool_catalog().len() {
        seq![]
    } else {
        let e = tool_catalog()[n - 1];
        catalog_sections(avail, (n - 1) as nat) + catalog_section(e.0, e.1, avail.contains(e.0))
    }
}

/// The tool list.
pub open spec fn tool_list_text(avail: Seq<Seq<char>>) -> Seq<char> {
    "# Kaido Available Tools\n\n"@ + catalog_sections(avail, 7)
}

/// The risk of a command judged by its words alone (its lower-case form):
/// removing, deleting, dropping or truncating is high; updating, inserting,
/// creating or modifying is medium; anything else is low.
pub open spec fn keyword_risk(lower: Seq<char>) -> RiskLevel {
    if contains(lower, "rm "@) || contains(lower, "delete"@) || contains(lower, "drop "@) || contains(
        lower,
        "truncate"@,
    ) {
        RiskLevel::High
    } else if contains(lower, "update"@) || contains(lower, "insert"@) || contains(lower, "create"@)
        || contains(lower, "modify"@) {
        RiskLevel::Medium
    } else {
        RiskLevel::Low
    }
}

/// The explanation of a risk level.
pub open spec fn risk_explanation(risk: RiskLevel, production: bool) -> Seq<char> {
    match risk {
        RiskLevel::Low => LOW_RISK_TEXT@,
        RiskLevel::Medium => MEDIUM_RISK_TEXT@,
        RiskLevel::High => HIGH_RISK_TEXT@ + (if production {
            PRODUCTION_WARNING@
        } else {
            seq![]
        }),
    }
}

/// The risk report for `command` at `risk`.
pub open spec fn risk_report_text(command: Seq<char>, risk: RiskLevel, production: bool) -> Seq<char> {
    "# Risk Assessment\n\n**Command:** `"@ + command + "`\n\n**Risk Level:** "@ + risk_label(risk)
        + "\n\n## Risk Explanation\n\n"@ + risk_explanation(risk, production)
}

/// A named diagnostic command.
pub open spec fn diag(name: Seq<char>, cmd: Seq<char>) -> Seq<(Seq<char>, Seq<char>)> {
    seq![(name, cmd)]
}

/// The diagnostic commands for a problem described by `lower` (in lower
/// case), before the general fallback.
pub open spec fn specific_diagnostics(lower: Seq<char>) -> Seq<(Seq<char>, Seq<char>)> {
    let k8s = contains(lower, "pod"@) || contains(lower, "kubernetes"@) || contains(lower, "k8s"@)
        || contains(lower, "deployment"@);
    let crash = contains(lower, "crash"@) || contains(lower, "restart"@);
    let web = contains(lower, "nginx"@) || contains(lower, "502"@) || contains(lower, "504"@)
        || contains(lower, "web server"@);
    let docker = contains(lower, "docker"@) || contains(lower, "container"@);
    let net = contains(lower, "port"@) || contains(lower, "connection"@) || contains(lower, "network"@)
        || contains(lower, "bind"@);
    (if k8s {
        diag("Pod Status"@, "kubectl get pods --all-namespaces"@) + (if crash {
            diag("Recent Events"@, "kubectl get events --sort-by=.lastTimestamp | tail -20"@)
        } else {
            seq![]
        })
    } else {
        seq![]
    }) + (if web {
        diag("Nginx Status"@, "systemctl status nginx"@) + diag("Nginx Config Test"@, "nginx -t"@)
    } else {
        seq![]
    }) + (if docker {
        diag("Docker Containers"@, "docker ps -a"@) + diag("Docker System"@, "docker system df"@)
    } else {
        seq![]
    }) + (if net {
        diag("Listening Ports"@, "ss -tlnp"@)
    } else {
        seq![]
    })
}

/// The diagnostic commands for a problem described by `lower`: the ones its
/// keywords call for, or the system load and disk usage when none does.
pub open spec fn diagnostics_for(lower: Seq<char>) -> Seq<(Seq<char>, Seq<char>)> {
    let s = specific_diagnostics(lower);
    if s.len() == 0 {
        diag("System Load"@, "uptime"@) + diag("Disk Usage"@, "df -h"@)
    } else {
        s
    }
}

/// The suggested steps for a problem described by `lower`.
pub open spec fn suggestions_for(lower: Seq<char>) -> Seq<char> {
    if contains(lower, "502"@) || contains(lower, "bad gateway"@) {
        BAD_GATEWAY_STEPS@
    } else if contains(lower, "crash"@) || contains(lower, "restart"@) {
        CRASH_STEPS@
    } else if contains(lower, "port"@) && contains(lower, "use"@) {
        PORT_IN_USE_STEPS@
    } else {
        GENERAL_STEPS@
    }
}

/// The (name, command) pairs as plain values.
pub open spec fn diag_views(v: Seq<(&'static str, String)>) -> Seq<(Seq<char>, Seq<char>)> {
    v.map_values(|p: (&'static str, String)| (p.0@, p.1@))
}

/// The name and description of the catalogued tool at `k`.
fn catalog_entry(k: usize) -> (r: (&'static str, &'static str))
    requires
        k < 7,
    ensures
        (r.0@, r.1@) == tool_catalog()[k as int],
{
    if k == 0 {
        ("kubectl", "Kubernetes cluster management - pods, deployments, services, etc.")
    } else if k == 1 {
        ("docker", "Container management - images, containers, networks, volumes")
    } else if k == 2 {
        ("nginx", "Nginx web server - config testing, reload, status")
    } else if k == 3 {
        ("apache2", "Apache web server - config testing, modules, status")
    } else if k == 4 {
        ("network", "Network diagnostics - ports, connections, DNS, curl")
    } else if k == 5 {
        ("mysql", "MySQL database operations - queries, status, variables")
    } else {
        ("drush", "Drupal management - cache, config, database operations")
    }
}

/// The definition of the announced tool at `k`.
fn definition_at(k: usize) -> (r: ToolDefinition)
    requires
        k < 6,
    ensures
        definition_view(r) == tool_definitions()[k as int],
{
    if k == 0 {
        ToolDefinition { name: owned("kaido_diagnose"), description: owned("Diagnose a DevOps problem by analyzing the situation and suggesting solutions. Kaido will use its AI-powered diagnosis to understand the issue and provide step-by-step guidance."), input_schema: owned("{\"type\":\"object\",\"properties\":{\"problem\":{\"type\":\"string\",\"description\":\"Description of the problem to diagnose (e.g., 'nginx is returning 502', 'pod keeps crashing')\"}},\"required\":[\"problem\"]}") }
    } else if k == 1 {
        ToolDefinition { name: owned("kaido_execute"), description: owned("Execute a command using a specific Kaido tool (kubectl, docker, nginx, network, etc.). Returns the command output."), input_schema: owned("{\"type\":\"object\",\"properties\":{\"command\":{\"type\":\"string\",\"description\":\"The command to execute\"},\"tool\":{\"type\":\"string\",\"description\":\"Tool name (kubectl, docker, nginx, apache2, network, mysql, drush)\",\"enum\":[\"kubectl\",\"docker\",\"nginx\",\"apache2\",\"network\",\"mysql\",\"drush\",\"shell\"]}},\"required\":[\"command\"]}") }
    } else if k == 2 {
        ToolDefinition { name: owned("kaido_explain"), description: owned("Get an educational explanation of a command. Breaks down the command into components, explains flags and arguments, and provides context on when to use it."), input_schema: owned("{\"type\":\"object\",\"properties\":{\"command\":{\"type\":\"string\",\"description\":\"The command to explain (e.g., 'kubectl get pods -n kube-system')\"}},\"required\":[\"command\"]}") }
    } else if k == 3 {
        ToolDefinition { name: owned("kaido_get_context"), description: owned("Get current system context including Kubernetes cluster, Docker status, and available tools. Useful for understanding the environment before taking actions."), input_schema: owned("{\"type\":\"object\",\"properties\":{},\"required\":[]}") }
    } else if k == 4 {
        ToolDefinition { name: owned("kaido_list_tools"), description: owned("List all available Kaido tools and their capabilities."), input_schema: owned("{\"type\":\"object\",\"properties\":{},\"required\":[]}") }
    } else {
        ToolDefinition { name: owned("kaido_check_risk"), description: owned("Assess the risk level of a command before execution. Returns LOW, MEDIUM, HIGH, or CRITICAL with an explanation of potential impacts."), input_schema: owned("{\"type\":\"object\",\"properties\":{\"command\":{\"type\":\"string\",\"description\":\"The command to assess\"},\"tool\":{\"type\":\"string\",\"description\":\"Tool name (optional, auto-detected if not provided)\"}},\"required\":[\"command\"]}") }
    }
}

/// Appends (`name`, `cmd`) to `v`.
fn push_diag(v: &mut Vec<(&'static str, String)>, name: &'static str, cmd: &str)
    ensures
        diag_views(final(v)@) == diag_views(old(v)@) + diag(name@, cmd@),
{
    let ghost before = diag_views(v@);
    v.push((name, owned(cmd)));
    assert(diag_views(v@) =~= before + diag(name@, cmd@));
}

/// Whether `avail` holds `name`.
fn has_name(avail: &Vec<String>, name: &str) -> (r: bool)
    ensures
        r == views(avail@).contains(name@),
{
    let ghost a = views(avail@);
    let mut i: usize = 0;
    while i < avail.len()
        invariant
            i <= avail@.len(),
            a == views(avail@),
            forall|j: int| 0 <= j < i ==> #[trigger] a[j] != name@,
        decreases avail.len() - i,
    {
        if str_eq(avail[i].as_str(), name) {
            assert(a[i as int] == name@);
            return true;
        }
        i = i + 1;
    }
    proof {
        if a.contains(name@) {
            let k = choose|k: int| 0 <= k < a.len() && a[k] == name@;
            assert(a[k] != name@);
        }
    }
    false
}

/// The names of the catalogued tools.
pub open spec fn catalog_names() -> Seq<Seq<char>> {
    tool_catalog().map_values(|e: (Seq<char>, Seq<char>)| e.0)
}

/// The sections for `n + 1` tools are those for `n` and the next one.
proof fn lemma_sections_step(avail: Seq<Seq<char>>, n: nat)
    requires
        n < 7,
    ensures
        catalog_sections(avail, n + 1) == catalog_sections(avail, n) + catalog_section(
            tool_catalog()[n as int].0,
            tool_catalog()[n as int].1,
            avail.contains(tool_catalog()[n as int].0),
        ),
{
    assert(tool_catalog().len() == 7);
}

/// Appends one tool's part of the tool list to `out`.
fn push_catalog_section(out: &mut String, name: &str, desc: &str, available: bool)
    ensures
        final(out)@ == old(out)@ + catalog_section(name@, desc@, available),
{
    let ghost start = out@;
    out.append("## ");
    out.append(name);
    out.append("\n- **Status:** ");
    if available {
        out.append("available");
    } else {
        out.append("registered");
    }
    out.append("\n- **Description:** ");
    out.append(desc);
    out.append("\n\n");
    assert(out@ =~= start + catalog_section(name@, desc@, available));
}

impl KaidoTools {
    /// The tools with every catalogued tool available.
    pub fn new() -> (r: Self)
        ensures
            r@ == catalog_names(),
    {
        let mut available: Vec<String> = Vec::new();
        let mut k: usize = 0;
        while k < 7
            invariant
                k <= 7,
                views(available@) == catalog_names().take(k as int),
            decreases 7 - k,
        {
            let (name, _) = catalog_entry(k);
            let ghost before = views(available@);
            available.push(owned(name));
            assert(views(available@) =~= before.push(name@));
            assert(catalog_names().take(k + 1) =~= catalog_names().take(k as int).push(name@));
            k = k + 1;
        }
        assert(catalog_names().take(7) =~= catalog_names());
        KaidoTools { available }
    }

    /// The tools announced to the client: diagnose, execute, explain, get
    /// context, list tools and check risk, with their input schemas.
    pub fn get_definitions(&self) -> (r: Vec<ToolDefinition>)
        ensures
            r@.map_values(|d: ToolDefinition| definition_view(d)) == tool_definitions(),
    {
        let mut out: Vec<ToolDefinition> = Vec::new();
        let mut k: usize = 0;
        while k < 6
            invariant
                k <= 6,
                out@.map_values(|d: ToolDefinition| definition_view(d)) == tool_definitions().take(k as int),
            decreases 6 - k,
        {
            let d = definition_at(k);
            let ghost before = out@.map_values(|d: ToolDefinition| definition_view(d));
            out.push(d);
            assert(out@.map_values(|d: ToolDefinition| definition_view(d)) =~= before.push(definition_view(d)));
            assert(tool_definitions().take(k + 1) =~= tool_definitions().take(k as int).push(tool_definitions()[k as int]));
            k = k + 1;
        }
        assert(tool_definitions().take(6) =~= tool_definitions());
        out
    }

    /// Whether `name` is a tool that cannot be used: neither `shell` nor
    /// an available tool.
    pub fn is_unknown_tool(&self, name: &str) -> (r: bool)
        ensures
            r == (name@ != "shell"@ && !self@.contains(name@)),
    {
        !str_eq(name, "shell") && !has_name(&self.available, name)
    }

    /// The answer to running `command`, given how the run went.
    pub fn execution_result(command: &str, outcome: Result<String, String>) -> (r: ToolCallResult)
        ensures
            answers(r, execution_answer(command@, outcome).0, execution_answer(command@, outcome).1),
    {
        match outcome {
            Ok(out) => {
                let mut text = owned("$ ");
                text.append(command);
                text.append("\n\n");
                if out.as_str().unicode_len() == 0 {
                    text.append("(no output)");
                } else {
                    text.append(out.as_str());
                }
                ToolCallResult::success(text)
            },
            Err(e) => {
                let mut text = owned("Execution failed: ");
                text.append(e.as_str());
                ToolCallResult::error(text)
            },
        }
    }

    /// The diagnosis of `problem` from the results of its diagnostic
    /// commands, as (name, command, output or error): each output cut to
    /// 2000 bytes, which must end on a character boundary.
    pub fn diagnosis_report(
        &self,
        problem: &str,
        detected_tool: Option<&str>,
        results: &Vec<(&'static str, String, Result<String, String>)>,
    ) -> (r: ToolCallResult)
        requires
            outputs_cut_ok(results@),
        ensures
            problem@.len() == 0 ==> answers(r, "Missing required parameter: problem"@, true),
            problem@.len() > 0 ==> answers(
                r,
                diagnosis_text(
                    problem@,
                    match detected_tool {
                        Some(t) => Some(t@),
                        None => None,
                    },
                    results@,
                ),
                false,
            ),
    {
        if problem.unicode_len() == 0 {
            return ToolCallResult::error(owned("Missing required parameter: problem"));
        }
        let mut d = owned("# Kaido Diagnosis: ");
        d.append(problem);
        d.append("\n\n");
        match detected_tool {
            Some(t) => {
                d.append("**Detected Tool:** ");
                d.append(t);
                d.append("\n\n");
            },
            None => {},
        }
        let ghost head = d@;
        if results.len() > 0 {
            d.append("## Diagnostic Results\n\n");
            let ghost start = d@;
            let mut i: usize = 0;
            while i < results.len()
                invariant
                    i <= results@.len(),
                    outputs_cut_ok(results@),
                    d@ == start + diagnostic_sections(results@.take(i as int)),
                decreases results.len() - i,
            {
                assert(results@.take(i + 1).drop_last() =~= results@.take(i as int));
                let ghost before = d@;
                let entry = &results[i];
                d.append("### ");
                d.append(entry.0);
                d.append("\n");
                d.append("```\n$ ");
                d.append(entry.1.as_str());
                d.append("\n");
                match &entry.2 {
                    Ok(out) => {
                        assert(results@[i as int].2 matches Ok(o) && o == *out);
                        if str_byte_len(out.as_str()) > 2000 {
                            let cut = prefix_bytes(out.as_str(), 2000);
                            d.append(cut.as_str());
                            d.append("...\n(truncated)");
                        } else {
                            d.append(out.as_str());
                        }
                    },
                    Err(e) => {
                        d.append("Error: ");
                        d.append(e.as_str());
                    },
                }
                d.append("\n```\n\n");
                assert(d@ =~= before + diagnostic_section(entry.0@, entry.1@, entry.2));
                i = i + 1;
            }
            assert(results@.take(results@.len() as int) =~= results@);
            assert(d@ =~= head + ("## Diagnostic Results\n\n"@ + diagnostic_sections(results@)));
        } else {
            assert(d@ =~= head + Seq::<char>::empty());
        }
        d.append("## Suggested Next Steps\n\n");
        let s = self.get_suggestions(problem);
        d.append(s.as_str());
        assert(d@ =~= diagnosis_text(
            problem@,
            match detected_tool {
                Some(t) => Some(t@),
                None => None,
            },
            results@,
        ));
        ToolCallResult::success(d)
    }

    /// The list of tools: for each catalogued tool, whether it is available
    /// or only registered, and what it does.
    pub fn list_tools(&self) -> (r: ToolCallResult)
        ensures
            answers(r, tool_list_text(self@), false),
    {
        let mut out = owned("# Kaido Available Tools\n\n");
        let ghost head = out@;
        let mut k: usize = 0;
        assert(head + catalog_sections(self@, 0) =~= head);
        while k < 7
            invariant
                k <= 7,
                out@ == head + catalog_sections(self@, k as nat),
                views(self.available@) == self@,
            decreases 7 - k,
        {
            let ghost before = out@;
            let (name, desc) = catalog_entry(k);
            let available = has_name(&self.available, name);
            push_catalog_section(&mut out, name, desc, available);
            proof {
                lemma_sections_step(self@, k as nat);
            }
            k = k + 1;
        }
        ToolCallResult::success(out)
    }

    /// The risk of `command` judged by its words: removing, deleting,
    /// dropping or truncating is high; updating, inserting, creating or
    /// modifying is medium; anything else is low.
    pub fn assess_risk(&self, command: &str, tool_name: Option<&str>) -> (r: RiskLevel)
        ensures
            r == keyword_risk(lowercase(command@)),
    {
        let lower = to_lowercase(command);
        let l = lower.as_str();
        if str_contains(l, "rm ") || str_contains(l, "delete") || str_contains(l, "drop ")
            || str_contains(l, "truncate") {
            RiskLevel::High
        } else if str_contains(l, "update") || str_contains(l, "insert") || str_contains(l, "create")
            || str_contains(l, "modify") {
            RiskLevel::Medium
        } else {
            RiskLevel::Low
        }
    }

    /// The risk report for `command`: the command, its risk level and what
    /// that level means; for a high risk in production, a warning.
    pub fn risk_report(command: &str, risk: RiskLevel, production: bool) -> (r: String)
        ensures
            r@ == risk_report_text(command@, risk, production),
    {
        let mut out = owned("# Risk Assessment\n\n**Command:** `");
        out.append(command);
        out.append("`\n\n**Risk Level:** ");
        out.append(risk.as_str());
        out.append("\n\n## Risk Explanation\n\n");
        match risk {
            RiskLevel::Low => out.append(LOW_RISK_TEXT),
            RiskLevel::Medium => out.append(MEDIUM_RISK_TEXT),
            RiskLevel::High => {
                out.append(HIGH_RISK_TEXT);
                if production {
                    out.append(PRODUCTION_WARNING);
                }
            },
        }
        assert(out@ =~= risk_report_text(command@, risk, production));
        out
    }

    /// The risk report for `command` as a tool answer; an error answer when
    /// no command was given.
    pub fn check_risk(&self, command: &str, tool_name: Option<&str>, production: bool) -> (r: ToolCallResult)
        ensures
            command@.len() == 0 ==> answers(r, "Missing required parameter: command"@, true),
            command@.len() > 0 ==> answers(
                r,
                risk_report_text(command@, keyword_risk(lowercase(command@)), production),
                false,
            ),
    {
        if command.unicode_len() == 0 {
            return ToolCallResult::error(owned("Missing required parameter: command"));
        }
        let risk = self.assess_risk(command, tool_name);
        ToolCallResult::success(Self::risk_report(command, risk, production))
    }

    /// The explanation of `command` as a tool answer, taking its first word
    /// as the tool; an error answer when no command was given.
    pub fn explain(&self, command: &str) -> (r: ToolCallResult)
        ensures
            command@.len() == 0 ==> answers(r, "Missing required parameter: command"@, true),
            command@.len() > 0 ==> answers(
                r,
                explanation_text(
                    command@,
                    match first_word(command@) {
                        Some(w) => w,
                        None => "unknown"@,
                    },
                ),
                false,
            ),
    {
        if command.unicode_len() == 0 {
            return ToolCallResult::error(owned("Missing required parameter: command"));
        }
        let words = split_words(command);
        let tool: String = if words.len() > 0 {
            words[0].clone()
        } else {
            owned("unknown")
        };
        proof {
            if words@.len() > 0 {
                assert(views(words@)[0] == words@[0]@);
            }
        }
        ToolCallResult::success(CommandExplainer::explain_sync(command, tool.as_str()))
    }

    /// The diagnostic commands, with their names, that a problem calls for:
    /// pods for Kubernetes words (and events for crashes), nginx status and
    /// configuration for web-server words, containers and disk use for
    /// Docker words, listening ports for network words; the system load
    /// and disk usage when none applies.
    pub fn get_diagnostic_commands(&self, problem: &str) -> (r: Vec<(&'static str, String)>)
        ensures
            diag_views(r@) == diagnostics_for(lowercase(problem@)),
    {
        let lower = to_lowercase(problem);
        let l = lower.as_str();
        let mut commands: Vec<(&'static str, String)> = Vec::new();
        assert(diag_views(commands@) =~= Seq::<(Seq<char>, Seq<char>)>::empty());
        if str_contains(l, "pod") || str_contains(l, "kubernetes") || str_contains(l, "k8s")
            || str_contains(l, "deployment") {
            push_diag(&mut commands, "Pod Status", "kubectl get pods --all-namespaces");
            if str_contains(l, "crash") || str_contains(l, "restart") {
                push_diag(&mut commands, "Recent Events", "kubectl get events --sort-by=.lastTimestamp | tail -20");
            }
        }
        let ghost after_k8s = diag_views(commands@);
        if str_contains(l, "nginx") || str_contains(l, "502") || str_contains(l, "504")
            || str_contains(l, "web server") {
            push_diag(&mut commands, "Nginx Status", "systemctl status nginx");
            push_diag(&mut commands, "Nginx Config Test", "nginx -t");
        }
        if str_contains(l, "docker") || str_contains(l, "container") {
            push_diag(&mut commands, "Docker Containers", "docker ps -a");
            push_diag(&mut commands, "Docker System", "docker system df");
        }
        if str_contains(l, "port") || str_contains(l, "connection") || str_contains(l, "network")
            || str_contains(l, "bind") {
            push_diag(&mut commands, "Listening Ports", "ss -tlnp");
        }
        assert(diag_views(commands@) =~= specific_diagnostics(lowercase(problem@)));
        if commands.len() == 0 {
            push_diag(&mut commands, "System Load", "uptime");
            push_diag(&mut commands, "Disk Usage", "df -h");
        }
        commands
    }

    /// The suggested next steps for a problem: for a bad gateway, for
    /// crashes, for a port in use, or general advice.
    pub fn get_suggestions(&self, problem: &str) -> (r: String)
        ensures
            r@ == suggestions_for(lowercase(problem@)),
    {
        let lower = to_lowercase(problem);
        let l = lower.as_str();
        if str_contains(l, "502") || str_contains(l, "bad gateway") {
            owned(BAD_GATEWAY_STEPS)
        } else if str_contains(l, "crash") || str_contains(l, "restart") {
            owned(CRASH_STEPS)
        } else if str_contains(l, "port") && str_contains(l, "use") {
            owned(PORT_IN_USE_STEPS)
        } else {
            owned(GENERAL_STEPS)
        }
    }
}

impl Default for KaidoTools {
    fn default() -> (r: Self)
        ensures
            r@ == catalog_names(),
    {
        KaidoTools::new()
    }
}

/// The words that decide a command's risk: it is high exactly when it
/// holds `rm `, `delete`, `drop ` or `truncate`, and low exactly when it
/// holds none of those nor `update`, `insert`, `create` or `modify`.
pub proof fn law_keyword_risk_words(l: Seq<char>)
    ensures
        (keyword_risk(l) == RiskLevel::High) <==> (contains(l, "rm "@) || contains(l, "delete"@)
            || contains(l, "drop "@) || contains(l, "truncate"@)),
        (keyword_risk(l) == RiskLevel::Low) <==> !(contains(l, "rm "@) || contains(l, "delete"@)
            || contains(l, "drop "@) || contains(l, "truncate"@) || contains(l, "update"@)
            || contains(l, "insert"@) || contains(l, "create"@) || contains(l, "modify"@)),
{
}

/// The suggested steps follow the first of these that the problem names:
/// a bad gateway (`502`, `bad gateway`), a crash (`crash`, `restart`), a
/// port in use (`port` and `use`); general advice otherwise.
pub proof fn law_suggestion_words(l: Seq<char>)
    ensures
        contains(l, "502"@) || contains(l, "bad gateway"@) ==> suggestions_for(l) == BAD_GATEWAY_STEPS@,
        !(contains(l, "502"@) || contains(l, "bad gateway"@)) && (contains(l, "crash"@) || contains(l, "restart"@))
            ==> suggestions_for(l) == CRASH_STEPS@,
        !(contains(l, "502"@) || contains(l, "bad gateway"@) || contains(l, "crash"@) || contains(l, "restart"@))
            && contains(l, "port"@) && contains(l, "use"@) ==> suggestions_for(l) == PORT_IN_USE_STEPS@,
        !(contains(l, "502"@) || contains(l, "bad gateway"@) || contains(l, "crash"@) || contains(l, "restart"@)
            || (contains(l, "port"@) && contains(l, "use"@))) ==> suggestions_for(l) == GENERAL_STEPS@,
{
}

/// The diagnostic commands a problem's words call for: the pods for
/// Kubernetes words (`pod`, `kubernetes`, `k8s`, `deployment`), with the
/// recent events when it crashes or restarts; nginx's status and
/// configuration test for web-server words (`nginx`, `502`, `504`,
/// `web server`); the containers and Docker's disk use for `docker` or
/// `container`; the listening ports for network words (`port`,
/// `connection`, `network`, `bind`); and the system load and disk usage
/// when none of these words occurs.
pub proof fn law_diagnostic_words(l: Seq<char>)
    ensures
        contains(l, "pod"@) || contains(l, "kubernetes"@) || contains(l, "k8s"@) || contains(l, "deployment"@)
            ==> diagnostics_for(l).contains(("Pod Status"@, "kubectl get pods --all-namespaces"@)),
        (contains(l, "pod"@) || contains(l, "kubernetes"@) || contains(l, "k8s"@) || contains(l, "deployment"@))
            && (contains(l, "crash"@) || contains(l, "restart"@))
            ==> diagnostics_for(l).contains(("Recent Events"@, "kubectl get events --sort-by=.lastTimestamp | tail -20"@)),
        contains(l, "nginx"@) || contains(l, "502"@) || contains(l, "504"@) || contains(l, "web server"@)
            ==> diagnostics_for(l).contains(("Nginx Status"@, "systemctl status nginx"@))
            && diagnostics_for(l).contains(("Nginx Config Test"@, "nginx -t"@)),
        contains(l, "docker"@) || contains(l, "container"@)
            ==> diagnostics_for(l).contains(("Docker Containers"@, "docker ps -a"@))
            && diagnostics_for(l).contains(("Docker System"@, "docker system df"@)),
        contains(l, "port"@) || contains(l, "connection"@) || contains(l, "network"@) || contains(l, "bind"@)
            ==> diagnostics_for(l).contains(("Listening Ports"@, "ss -tlnp"@)),
        !(contains(l, "pod"@) || contains(l, "kubernetes"@) || contains(l, "k8s"@) || contains(l, "deployment"@)
            || contains(l, "nginx"@) || contains(l, "502"@) || contains(l, "504"@) || contains(l, "web server"@)
            || contains(l, "docker"@) || contains(l, "container"@) || contains(l, "port"@)
            || contains(l, "connection"@) || contains(l, "network"@) || contains(l, "bind"@))
            ==> diagnostics_for(l) == seq![("System Load"@, "uptime"@), ("Disk Usage"@, "df -h"@)],
{
    let k8s = contains(l, "pod"@) || contains(l, "kubernetes"@) || contains(l, "k8s"@) || contains(l, "deployment"@);
    let crash = contains(l, "crash"@) || contains(l, "restart"@);
    let web = contains(l, "nginx"@) || contains(l, "502"@) || contains(l, "504"@) || contains(l, "web server"@);
    let docker = contains(l, "docker"@) || contains(l, "container"@);
    let a: Seq<(Seq<char>, Seq<char>)> = if k8s {
        diag("Pod Status"@, "kubectl get pods --all-namespaces"@) + (if crash {
            diag("Recent Events"@, "kubectl get events --sort-by=.lastTimestamp | tail -20"@)
        } else {
            seq![]
        })
    } else {
        seq![]
    };
    let b: Seq<(Seq<char>, Seq<char>)> = if web {
        diag("Nginx Status"@, "systemctl status nginx"@) + diag("Nginx Config Test"@, "nginx -t"@)
    } else {
        seq![]
    };
    let c: Seq<(Seq<char>, Seq<char>)> = if docker {
        diag("Docker Containers"@, "docker ps -a"@) + diag("Docker System"@, "docker system df"@)
    } else {
        seq![]
    };
    let s = specific_diagnostics(l);
    assert(s.len() >= a.len() + b.len() + c.len());
    if k8s {
        assert(s[0] == a[0]);
        if crash {
            assert(s[1] == a[1]);
        }
    }
    if web {
        assert(s[a.len() as int] == b[0]);
        assert(s[a.len() as int + 1] == b[1]);
    }
    if docker {
        assert(s[a.len() as int + b.len()] == c[0]);
        assert(s[a.len() as int + b.len() + 1] == c[1]);
    }
    if contains(l, "port"@) || contains(l, "connection"@) || contains(l, "network"@) || contains(l, "bind"@) {
        assert(s[a.len() as int + b.len() + c.len()] == ("Listening Ports"@, "ss -tlnp"@));
    }
}

} // verus!
