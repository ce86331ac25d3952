//! Root-cause diagnosis: strategies that recognize a kind of problem, the
//! commands that gather evidence for it, and the analysis of that evidence.
use vstd::prelude::*;
use crate::text::{contains, join, lines, lowercase, owned, split_lines, str_contains, str_eq, to_lowercase, views, join_strings};

verus! {

/// The views of a list of `(key, value)` string pairs.
pub open spec fn pair_views(v: Seq<(String, String)>) -> Seq<(Seq<char>, Seq<char>)> {
    v.map_values(|p: (String, String)| (p.0@, p.1@))
}

/// Position of the first entry with key `k`, if any.
pub open spec fn key_index(entries: Seq<(Seq<char>, Seq<char>)>, k: Seq<char>) -> Option<int>
    decreases entries.len(),
{
    if entries.len() == 0 {
        None
    } else {
        match key_index(entries.drop_last(), k) {
            Some(i) => Some(i),
            None => if entries.last().0 == k { Some(entries.len() - 1) } else { None },
        }
    }
}

/// The value stored under key `k`, if any.
pub open spec fn lookup(entries: Seq<(Seq<char>, Seq<char>)>, k: Seq<char>) -> Option<Seq<char>> {
    match key_index(entries, k) {
        Some(i) => Some(entries[i].1),
        None => None,
    }
}

/// No key occurs twice.
pub open spec fn keys_unique(entries: Seq<(Seq<char>, Seq<char>)>) -> bool {
    forall|i: int, j: int| 0 <= i < j < entries.len() ==> entries[i].0 != entries[j].0
}

/// System state information.
#[derive(Debug, Clone)]
pub struct SystemState {
    /// Running services.
    pub running_services: Vec<String>,
    /// Port bindings (port, process).
    pub port_bindings: Vec<(u16, String)>,
    /// Disk usage.
    pub disk_usage: Option<String>,
    /// Memory usage.
    pub memory_usage: Option<String>,
    /// CPU usage.
    pub cpu_usage: Option<String>,
    /// Network interfaces.
    pub network_interfaces: Vec<String>,
    /// Active containers.
    pub containers: Vec<ContainerInfo>,
}

impl Default for SystemState {
    fn default() -> (r: Self)
        ensures
            r.running_services@.len() == 0,
            r.port_bindings@.len() == 0,
            r.disk_usage is None,
            r.memory_usage is None,
            r.cpu_usage is None,
            r.network_interfaces@.len() == 0,
            r.containers@.len() == 0,
    {
        SystemState {
            running_services: Vec::new(),
            port_bindings: Vec::new(),
            disk_usage: None,
            memory_usage: None,
            cpu_usage: None,
            network_interfaces: Vec::new(),
            containers: Vec::new(),
        }
    }
}

/// Container information.
#[derive(Debug, Clone)]
pub struct ContainerInfo {
    pub id: String,
    pub name: String,
    pub status: String,
    pub ports: Vec<String>,
}

/// Categories of root causes.
#[derive(Debug, Clone, Copy, PartialEq, Eq, Structural)]
pub enum RootCauseCategory {
    PortConflict,
    ConfigurationError,
    PermissionError,
    ServiceDown,
    NetworkIssue,
    ResourceExhaustion,
    DependencyFailure,
    AuthenticationFailure,
    Unknown,
}

/// The label of a root-cause category.
pub open spec fn category_label(c: RootCauseCategory) -> Seq<char> {
    match c {
        RootCauseCategory::PortConflict => "Port Conflict"@,
        RootCauseCategory::ConfigurationError => "Configuration Error"@,
        RootCauseCategory::PermissionError => "Permission Error"@,
        RootCauseCategory::ServiceDown => "Service Down"@,
        RootCauseCategory::NetworkIssue => "Network Issue"@,
        RootCauseCategory::ResourceExhaustion => "Resource Exhaustion"@,
        RootCauseCategory::DependencyFailure => "Dependency Failure"@,
        RootCauseCategory::AuthenticationFailure => "Authentication Failure"@,
        RootCauseCategory::Unknown => "Unknown"@,
    }
}

impl RootCauseCategory {
    /// Label for display.
    pub fn as_str(&self) -> (r: &'static str)
        ensures
            r@ == category_label(*self),
    {
        match self {
            RootCauseCategory::PortConflict => "Port Conflict",
            RootCauseCategory::ConfigurationError => "Configuration Error",
            RootCauseCategory::PermissionError => "Permission Error",
            RootCauseCategory::ServiceDown => "Service Down",
            RootCauseCategory::NetworkIssue => "Network Issue",
            RootCauseCategory::ResourceExhaustion => "Resource Exhaustion",
            RootCauseCategory::DependencyFailure => "Dependency Failure",
            RootCauseCategory::AuthenticationFailure => "Authentication Failure",
            RootCauseCategory::Unknown => "Unknown",
        }
    }
}

/// An identified root cause.
#[derive(Debug, Clone)]
pub struct RootCause {
    /// Category.
    pub category: RootCauseCategory,
    /// Description.
    pub description: String,
    /// Evidence supporting it.
    pub evidence: Vec<String>,
    /// Confidence (0-100).
    pub confidence: u8,
    /// Affected components.
    pub affected_components: Vec<String>,
}

/// Everything known about a problem under diagnosis.
#[derive(Debug, Clone)]
pub struct ProblemContext {
    /// Original problem description.
    pub problem_description: String,
    /// Service involved.
    pub service: Option<String>,
    /// Environment.
    pub environment: Option<String>,
    /// Diagnostic data as (source, data) pairs, one per source.
    pub diagnostic_data: Vec<(String, String)>,
    /// Error messages observed, without repetition.
    pub error_messages: Vec<String>,
    /// System state.
    pub system_state: SystemState,
    /// Identified root cause.
    pub root_cause: Option<RootCause>,
}

impl ProblemContext {
    /// A context for a problem with nothing collected yet.
    pub fn new(problem_description: String) -> (r: Self)
        ensures
            r.problem_description == problem_description,
            r.service is None,
            r.environment is None,
            r.diagnostic_data@.len() == 0,
            keys_unique(pair_views(r.diagnostic_data@)),
            r.error_messages@.len() == 0,
            r.root_cause is None,
    {
        ProblemContext {
            problem_description,
            service: None,
            environment: None,
            diagnostic_data: Vec::new(),
            error_messages: Vec::new(),
            system_state: SystemState::default(),
            root_cause: None,
        }
    }

    /// Records the data a source produced, replacing what that source
    /// produced before.
    pub fn add_diagnostic_data(&mut self, source: String, data: String)
        ensures
            match key_index(pair_views(old(self).diagnostic_data@), source@) {
                Some(i) => pair_views(final(self).diagnostic_data@) == pair_views(old(self).diagnostic_data@).update(i, (source@, data@)),
                None => pair_views(final(self).diagnostic_data@) == pair_views(old(self).diagnostic_data@).push((source@, data@)),
            },
            keys_unique(pair_views(old(self).diagnostic_data@)) ==> keys_unique(pair_views(final(self).diagnostic_data@)),
            final(self).problem_description == old(self).problem_description,
            final(self).service == old(self).service,
            final(self).environment == old(self).environment,
            final(self).error_messages == old(self).error_messages,
            final(self).system_state == old(self).system_state,
            final(self).root_cause == old(self).root_cause,
    {
        let ghost before = pair_views(self.diagnostic_data@);
        let mut i: usize = 0;
        while i < self.diagnostic_data.len()
            invariant
                i <= self.diagnostic_data@.len(),
                self.diagnostic_data@ == old(self).diagnostic_data@,
                self.problem_description == old(self).problem_description,
                self.service == old(self).service,
                self.environment == old(self).environment,
                self.error_messages == old(self).error_messages,
                self.system_state == old(self).system_state,
                self.root_cause == old(self).root_cause,
                before == pair_views(self.diagnostic_data@),
                forall|j: int| 0 <= j < i ==> #[trigger] before[j].0 != source@,
            decreases self.diagnostic_data@.len() - i,
        {
            if str_eq(self.diagnostic_data[i].0.as_str(), source.as_str()) {
                proof {
                    assert(before[i as int].0 == source@);
                    lemma_key_index_first(before, source@, i as int);
                }
                self.diagnostic_data.set(i, (source, data));
                assert(pair_views(self.diagnostic_data@) =~= before.update(i as int, (source@, data@)));
                proof {
                    let after = pair_views(self.diagnostic_data@);
                    if keys_unique(before) {
                        assert forall|a: int, b: int| 0 <= a < b < after.len() implies #[trigger] after[a].0 != #[trigger] after[b].0 by {
                            assert(after[a].0 == before[a].0);
                            assert(after[b].0 == before[b].0);
                        }
                    }
                }
                return;
            }
            i = i + 1;
        }
        proof {
            lemma_key_index_bounds(before, source@);
        }
        let ghost s = source@;
        let ghost d = data@;
        self.diagnostic_data.push((source, data));
        assert(pair_views(self.diagnostic_data@) =~= before.push((s, d)));
        proof {
            lemma_key_index_none(before, s);
            let after = pair_views(self.diagnostic_data@);
            if keys_unique(before) {
                assert forall|a: int, b: int| 0 <= a < b < after.len() implies #[trigger] after[a].0 != #[trigger] after[b].0 by {
                    if b == after.len() - 1 {
                        assert(before[a].0 != s);
                    } else {
                        assert(before[a].0 != before[b].0);
                    }
                }
            }
        }
    }

    /// Records an error message unless it was recorded already.
    pub fn add_error(&mut self, error: String)
        ensures
            views(old(self).error_messages@).contains(error@) ==> final(self).error_messages == old(self).error_messages,
            !views(old(self).error_messages@).contains(error@) ==> views(final(self).error_messages@) == views(old(self).error_messages@).push(error@),
            final(self).problem_description == old(self).problem_description,
            final(self).service == old(self).service,
            final(self).environment == old(self).environment,
            final(self).diagnostic_data == old(self).diagnostic_data,
            final(self).system_state == old(self).system_state,
            final(self).root_cause == old(self).root_cause,
    {
        if !contains_string(&self.error_messages, error.as_str()) {
            let ghost before = views(self.error_messages@);
            let ghost e = error@;
            self.error_messages.push(error);
            assert(views(self.error_messages@) =~= before.push(e));
        }
    }

    /// Sets the identified root cause.
    pub fn set_root_cause(&mut self, root_cause: RootCause)
        ensures
            final(self).root_cause == Some(root_cause),
            final(self).problem_description == old(self).problem_description,
            final(self).service == old(self).service,
            final(self).environment == old(self).environment,
            final(self).diagnostic_data == old(self).diagnostic_data,
            final(self).error_messages == old(self).error_messages,
            final(self).system_state == old(self).system_state,
    {
        self.root_cause = Some(root_cause);
    }
}

/// Whether `v` holds a string equal to `s`.
pub fn contains_string(v: &Vec<String>, s: &str) -> (b: bool)
    ensures
        b == views(v@).contains(s@),
{
    let mut i: usize = 0;
    while i < v.len()
        invariant
            i <= v.len(),
            forall|j: int| 0 <= j < i ==> v@[j]@ != s@,
        decreases v.len() - i,
    {
        if str_eq(v[i].as_str(), s) {
            assert(views(v@)[i as int] == s@);
            return true;
        }
        i = i + 1;
    }
    proof {
        if views(v@).contains(s@) {
            let j = choose|j: int| 0 <= j < views(v@).len() && views(v@)[j] == s@;
            assert(v@[j]@ == s@);
        }
    }
    false
}

/// Recording data under a source and then looking the source up gives back
/// that data; other sources keep what they had.
pub proof fn law_diagnostic_data_read_after_write(
    before: Seq<(Seq<char>, Seq<char>)>,
    after: Seq<(Seq<char>, Seq<char>)>,
    source: Seq<char>,
    data: Seq<char>,
    other: Seq<char>,
)
    requires
        match key_index(before, source) {
            Some(i) => after == before.update(i, (source, data)),
            None => after == before.push((source, data)),
        },
        other != source,
    ensures
        lookup(after, source) == Some(data),
        lookup(after, other) == lookup(before, other),
        keys_unique(before) ==> keys_unique(after),
{
    lemma_key_index_bounds(before, source);
    match key_index(before, source) {
        Some(i) => {
            lemma_key_index_update(before, source, data, i, source);
            lemma_key_index_update(before, source, data, i, other);
            lemma_key_index_bounds(before, other);
            if let Some(x) = key_index(before, other) {
                assert(x != i);
                assert(after[x] == before[x]);
            }
            assert forall|a: int| 0 <= a < after.len() implies #[trigger] after[a].0 == before[a].0 by {}
        },
        None => {
            lemma_key_index_none(before, source);
            lemma_key_index_push(before, (source, data), source);
            lemma_key_index_push(before, (source, data), other);
            lemma_key_index_bounds(before, other);
            if let Some(x) = key_index(before, other) {
                assert(after[x] == before[x]);
            }
            if keys_unique(before) {
                assert forall|a: int, b: int| 0 <= a < b < after.len() implies after[a].0 != after[b].0 by {
                    if b == before.len() {
                        lemma_key_index_none(before, source);
                        assert(before[a].0 != source);
                    }
                }
            }
        },
    }
}

/// `key_index` names an entry with that key, and no earlier one.
pub proof fn lemma_key_index_bounds(entries: Seq<(Seq<char>, Seq<char>)>, k: Seq<char>)
    ensures
        key_index(entries, k) matches Some(i) ==> 0 <= i < entries.len() && entries[i].0 == k
            && forall|j: int| 0 <= j < i ==> #[trigger] entries[j].0 != k,
    decreases entries.len(),
{
    if entries.len() > 0 {
        let d = entries.drop_last();
        lemma_key_index_bounds(d, k);
        lemma_key_index_none(d, k);
        match key_index(d, k) {
            Some(i) => {
                assert forall|j: int| 0 <= j < i implies #[trigger] entries[j].0 != k by {
                    assert(entries[j] == d[j]);
                }
            },
            None => {
                assert forall|j: int| 0 <= j < entries.len() - 1 implies #[trigger] entries[j].0 != k by {
                    assert(entries[j] == d[j]);
                }
            },
        }
    }
}

/// Without a position, no entry has the key.
pub proof fn lemma_key_index_none(entries: Seq<(Seq<char>, Seq<char>)>, k: Seq<char>)
    ensures
        key_index(entries, k) is None ==> forall|j: int| 0 <= j < entries.len() ==> #[trigger] entries[j].0 != k,
    decreases entries.len(),
{
    if entries.len() > 0 {
        let d = entries.drop_last();
        lemma_key_index_none(d, k);
        if key_index(entries, k) is None {
            assert forall|j: int| 0 <= j < entries.len() implies #[trigger] entries[j].0 != k by {
                if j < entries.len() - 1 {
                    assert(entries[j] == d[j]);
                }
            }
        }
    }
}

/// The first position of a key, characterized.
pub proof fn lemma_key_index_first(entries: Seq<(Seq<char>, Seq<char>)>, k: Seq<char>, i: int)
    requires
        0 <= i < entries.len(),
        entries[i].0 == k,
        forall|j: int| 0 <= j < i ==> #[trigger] entries[j].0 != k,
    ensures
        key_index(entries, k) == Some(i),
{
    lemma_key_index_bounds(entries, k);
    lemma_key_index_none(entries, k);
    match key_index(entries, k) {
        Some(x) => {
            if x < i {
                assert(entries[x].0 != k);
            } else if x > i {
                assert(entries[i].0 != k);
            }
        },
        None => {
            assert(entries[i].0 != k);
        },
    }
}

/// `key_index` after a push.
pub proof fn lemma_key_index_push(entries: Seq<(Seq<char>, Seq<char>)>, e: (Seq<char>, Seq<char>), k: Seq<char>)
    ensures
        key_index(entries.push(e), k) == match key_index(entries, k) {
            Some(i) => Some(i),
            None => if e.0 == k { Some(entries.len() as int) } else { None },
        },
{
    assert(entries.push(e).drop_last() =~= entries);
}

/// `key_index` after replacing the entry at the first position of `source`
/// with one of the same key.
pub proof fn lemma_key_index_update(entries: Seq<(Seq<char>, Seq<char>)>, source: Seq<char>, data: Seq<char>, i: int, k: Seq<char>)
    requires
        key_index(entries, source) == Some(i),
    ensures
        key_index(entries.update(i, (source, data)), k) == key_index(entries, k),
{
    lemma_key_index_bounds(entries, source);
    let u = entries.update(i, (source, data));
    assert forall|j: int| 0 <= j < entries.len() implies #[trigger] u[j].0 == entries[j].0 by {}
    lemma_key_index_bounds(entries, k);
    lemma_key_index_none(entries, k);
    lemma_key_index_bounds(u, k);
    lemma_key_index_none(u, k);
    match key_index(entries, k) {
        Some(x) => {
            assert forall|j: int| 0 <= j < x implies #[trigger] u[j].0 != k by {
                assert(u[j].0 == entries[j].0);
            }
            assert(u[x].0 == entries[x].0);
            lemma_key_index_first(u, k, x);
        },
        None => {
            if key_index(u, k) is Some {
                let y = key_index(u, k)->0;
                assert(u[y].0 == entries[y].0);
            }
        },
    }
}


// ---------------------------------------------------------------------------
// Strategies
// ---------------------------------------------------------------------------

/// A diagnostic command to execute.
#[derive(Debug, Clone)]
pub struct DiagnosticCommand {
    /// Tool to use.
    pub tool: String,
    /// Command to execute.
    pub command: String,
    /// What this checks.
    pub purpose: String,
    /// Whether it is safe to run without asking.
    pub safe_to_auto_execute: bool,
}

/// What a diagnostic command consists of: tool, command, purpose, and
/// whether it is safe to run without asking.
pub open spec fn command_model(c: DiagnosticCommand) -> (Seq<char>, Seq<char>, Seq<char>, bool) {
    (c.tool@, c.command@, c.purpose@, c.safe_to_auto_execute)
}

/// The models of a list of diagnostic commands.
pub open spec fn command_models(v: Seq<DiagnosticCommand>) -> Seq<(Seq<char>, Seq<char>, Seq<char>, bool)> {
    v.map_values(|c: DiagnosticCommand| command_model(c))
}

impl DiagnosticCommand {
    /// A command that is safe to run without asking.
    pub fn new(tool: &str, command: &str, purpose: &str) -> (r: Self)
        ensures
            command_model(r) == (tool@, command@, purpose@, true),
    {
        DiagnosticCommand { tool: owned(tool), command: owned(command), purpose: owned(purpose), safe_to_auto_execute: true }
    }
}

/// What a root cause consists of.
pub struct RootCauseModel {
    pub category: RootCauseCategory,
    pub description: Seq<char>,
    pub evidence: Seq<Seq<char>>,
    pub confidence: u8,
    pub affected_components: Seq<Seq<char>>,
}

impl View for RootCause {
    type V = RootCauseModel;

    open spec fn view(&self) -> RootCauseModel {
        RootCauseModel {
            category: self.category,
            description: self.description@,
            evidence: views(self.evidence@),
            confidence: self.confidence,
            affected_components: views(self.affected_components@),
        }
    }
}

/// The first `n` lines of `data`, joined with `sep`.
pub open spec fn first_lines(data: Seq<char>, n: nat, sep: Seq<char>) -> Seq<char> {
    let ls = lines(data);
    join(if ls.len() > n { ls.take(n as int) } else { ls }, sep)
}

/// The component a cause affects: the problem's service, else `unknown`.
pub open spec fn affected_of(service: Option<String>) -> Seq<char> {
    match service {
        Some(s) => s@,
        None => "unknown"@,
    }
}

/// Position of the first entry satisfying `p`.
pub open spec fn first_where(entries: Seq<(Seq<char>, Seq<char>)>, p: spec_fn(Seq<char>, Seq<char>) -> bool) -> Option<int>
    decreases entries.len(),
{
    if entries.len() == 0 {
        None
    } else {
        match first_where(entries.drop_last(), p) {
            Some(i) => Some(i),
            None => if p(entries.last().0, entries.last().1) { Some(entries.len() - 1) } else { None },
        }
    }
}

/// A matching entry after a prefix without one is the first match.
pub proof fn lemma_first_where_found(entries: Seq<(Seq<char>, Seq<char>)>, p: spec_fn(Seq<char>, Seq<char>) -> bool, i: int)
    requires
        0 <= i < entries.len(),
        first_where(entries.take(i), p) is None,
        p(entries[i].0, entries[i].1),
    ensures
        first_where(entries, p) == Some(i),
    decreases entries.len(),
{
    if entries.len() == i + 1 {
        assert(entries.drop_last() =~= entries.take(i));
    } else {
        assert(entries.drop_last().take(i) =~= entries.take(i));
        lemma_first_where_found(entries.drop_last(), p, i);
    }
}

/// A prefix without a match grows by a non-matching entry.
pub proof fn lemma_first_where_step(entries: Seq<(Seq<char>, Seq<char>)>, p: spec_fn(Seq<char>, Seq<char>) -> bool, i: int)
    requires
        0 <= i < entries.len(),
        first_where(entries.take(i), p) is None,
        !p(entries[i].0, entries[i].1),
    ensures
        first_where(entries.take(i + 1), p) is None,
{
    assert(entries.take(i + 1).drop_last() =~= entries.take(i));
}

/// The first match, when there is one, is an entry satisfying `p`.
pub proof fn lemma_first_where_valid(entries: Seq<(Seq<char>, Seq<char>)>, p: spec_fn(Seq<char>, Seq<char>) -> bool)
    ensures
        first_where(entries, p) matches Some(j) ==> 0 <= j < entries.len() && p(entries[j].0, entries[j].1),
    decreases entries.len(),
{
    if entries.len() > 0 {
        lemma_first_where_valid(entries.drop_last(), p);
    }
}

/// Some entry satisfies `p` exactly when there is a first match.
pub proof fn lemma_first_where_some(entries: Seq<(Seq<char>, Seq<char>)>, p: spec_fn(Seq<char>, Seq<char>) -> bool)
    ensures
        (first_where(entries, p) is Some) <==> exists|i: int| 0 <= i < entries.len() && #[trigger] p(entries[i].0, entries[i].1),
    decreases entries.len(),
{
    lemma_first_where_valid(entries, p);
    if entries.len() > 0 {
        let d = entries.drop_last();
        lemma_first_where_some(d, p);
        if exists|i: int| 0 <= i < entries.len() && #[trigger] p(entries[i].0, entries[i].1) {
            let i = choose|i: int| 0 <= i < entries.len() && #[trigger] p(entries[i].0, entries[i].1);
            if i < entries.len() - 1 {
                assert(d[i] == entries[i]);
                assert(p(d[i].0, d[i].1));
            }
        }
        if let Some(j) = first_where(entries, p) {
            assert(p(entries[j].0, entries[j].1));
        }
    }
}

/// A port-conflict description, given in lower case.
pub open spec fn port_conflict_applies(l: Seq<char>) -> bool {
    contains(l, "port"@) || contains(l, "address already in use"@) || contains(l, "bind"@) || contains(l, "eaddrinuse"@)
}

/// A service-down description, given in lower case.
pub open spec fn service_down_applies(l: Seq<char>) -> bool {
    contains(l, "not running"@) || contains(l, "down"@) || contains(l, "failed"@) || contains(l, "inactive"@)
        || contains(l, "cannot start"@)
}

/// A configuration-error description, given in lower case.
pub open spec fn config_error_applies(l: Seq<char>) -> bool {
    contains(l, "config"@) || contains(l, "configuration"@) || contains(l, "syntax"@) || contains(l, "invalid"@)
}

/// Port-listing output that shows a common port taken.
pub open spec fn port_evidence(source: Seq<char>, data: Seq<char>) -> bool {
    (contains(source, "netstat"@) || contains(source, "ss"@) || contains(source, "lsof"@))
        && (contains(data, ":80 "@) || contains(data, ":443 "@) || contains(data, ":8080 "@))
}

/// Service status output that shows the service stopped.
pub open spec fn service_evidence(source: Seq<char>, data: Seq<char>) -> bool {
    contains(source, "systemctl status"@) && (contains(data, "inactive"@) || contains(data, "failed"@))
}

/// Output that shows a configuration error.
pub open spec fn config_evidence(source: Seq<char>, data: Seq<char>) -> bool {
    contains(data, "syntax error"@) || contains(data, "invalid"@) || contains(data, "parse error"@)
        || contains(data, "configuration test failed"@)
}

/// The three built-in strategies.
#[derive(Debug, Clone, Copy, PartialEq, Eq, Structural)]
pub enum StrategyKind {
    PortConflict,
    ServiceDown,
    ConfigError,
}

/// Whether a strategy applies to a description given in lower case.
pub open spec fn strategy_applies(k: StrategyKind, l: Seq<char>) -> bool {
    match k {
        StrategyKind::PortConflict => port_conflict_applies(l),
        StrategyKind::ServiceDown => service_down_applies(l),
        StrategyKind::ConfigError => config_error_applies(l),
    }
}

/// The evidence test of a strategy.
pub open spec fn strategy_evidence(k: StrategyKind) -> spec_fn(Seq<char>, Seq<char>) -> bool {
    match k {
        StrategyKind::PortConflict => |s: Seq<char>, d: Seq<char>| port_evidence(s, d),
        StrategyKind::ServiceDown => |s: Seq<char>, d: Seq<char>| service_evidence(s, d),
        StrategyKind::ConfigError => |s: Seq<char>, d: Seq<char>| config_evidence(s, d),
    }
}

/// The root cause a strategy concludes from the entry `(source, data)`.
pub open spec fn strategy_cause(k: StrategyKind, source: Seq<char>, data: Seq<char>, service: Option<String>) -> RootCauseModel {
    match k {
        StrategyKind::PortConflict => RootCauseModel {
            category: RootCauseCategory::PortConflict,
            description: "Port is already in use by another process"@,
            evidence: seq!["Found from "@ + source + ": "@ + first_lines(data, 3, "; "@)],
            confidence: 85,
            affected_components: seq![affected_of(service)],
        },
        StrategyKind::ServiceDown => RootCauseModel {
            category: RootCauseCategory::ServiceDown,
            description: "Service is not running or has failed"@,
            evidence: seq!["systemctl status shows: "@ + first_lines(data, 2, " "@)],
            confidence: 90,
            affected_components: seq![affected_of(service)],
        },
        StrategyKind::ConfigError => RootCauseModel {
            category: RootCauseCategory::ConfigurationError,
            description: "Configuration file contains errors"@,
            evidence: seq!["From "@ + source + ": "@ + first_lines(data, 3, "; "@)],
            confidence: 95,
            affected_components: seq![affected_of(service)],
        },
    }
}

/// What a strategy concludes about a problem: the cause drawn from the first
/// diagnostic entry that shows its evidence, if any.
pub open spec fn strategy_analysis(k: StrategyKind, p: ProblemContext) -> Option<RootCauseModel> {
    let entries = pair_views(p.diagnostic_data@);
    match first_where(entries, strategy_evidence(k)) {
        Some(i) => Some(strategy_cause(k, entries[i].0, entries[i].1, p.service)),
        None => None,
    }
}

/// The diagnostic commands a strategy proposes.
pub open spec fn strategy_commands(k: StrategyKind, service: Option<String>) -> Seq<(Seq<char>, Seq<char>, Seq<char>, bool)> {
    match k {
        StrategyKind::PortConflict => seq![
            ("netstat"@, "netstat -tuln"@, "Check all listening ports"@, true),
            ("ss"@, "ss -tlnp"@, "Check listening TCP ports with process info"@, true),
            ("lsof"@, "lsof -i -P -n | grep LISTEN"@, "List processes listening on ports"@, true),
        ],
        StrategyKind::ServiceDown => match service {
            Some(s) => seq![
                ("systemctl"@, "systemctl status"@, "Check systemd service status"@, true),
                ("systemctl"@, "systemctl status "@ + s@, "Check "@ + s@ + " status"@, true),
                ("journalctl"@, "journalctl -u "@ + s@ + " -n 50 --no-pager"@, "Check "@ + s@ + " recent logs"@, true),
            ],
            None => seq![("systemctl"@, "systemctl status"@, "Check systemd service status"@, true)],
        },
        StrategyKind::ConfigError => match service {
            Some(s) => if s@ == "nginx"@ {
                seq![("nginx"@, "nginx -t"@, "Validate nginx configuration"@, true)]
            } else if s@ == "apache2"@ || s@ == "httpd"@ {
                seq![("apache2"@, "apache2ctl configtest"@, "Validate Apache configuration"@, true)]
            } else {
                Seq::empty()
            },
            None => Seq::empty(),
        },
    }
}

/// Whether `source`/`data` show the evidence a strategy looks for.
pub fn evidence_matches(k: StrategyKind, source: &str, data: &str) -> (b: bool)
    ensures
        b == (strategy_evidence(k))(source@, data@),
        k == StrategyKind::PortConflict ==> (b <==> ((contains(source@, "netstat"@) || contains(source@, "ss"@) || contains(source@, "lsof"@))
            && (contains(data@, ":80 "@) || contains(data@, ":443 "@) || contains(data@, ":8080 "@)))),
        k == StrategyKind::ServiceDown ==> (b <==> (contains(source@, "systemctl status"@) && (contains(data@, "inactive"@) || contains(data@, "failed"@)))),
        k == StrategyKind::ConfigError ==> (b <==> (contains(data@, "syntax error"@) || contains(data@, "invalid"@) || contains(data@, "parse error"@)
            || contains(data@, "configuration test failed"@))),
{
    match k {
        StrategyKind::PortConflict => (str_contains(source, "netstat") || str_contains(source, "ss") || str_contains(source, "lsof"))
            && (str_contains(data, ":80 ") || str_contains(data, ":443 ") || str_contains(data, ":8080 ")),
        StrategyKind::ServiceDown => str_contains(source, "systemctl status") && (str_contains(data, "inactive")
            || str_contains(data, "failed")),
        StrategyKind::ConfigError => str_contains(data, "syntax error") || str_contains(data, "invalid")
            || str_contains(data, "parse error") || str_contains(data, "configuration test failed"),
    }
}

/// The first `n` lines of `data`, joined with `sep`.
pub fn first_lines_of(data: &str, n: usize, sep: &str) -> (r: String)
    ensures
        r@ == first_lines(data@, n as nat, sep@),
{
    let mut ls = split_lines(data);
    if ls.len() > n {
        let ghost before = ls@;
        ls.truncate(n);
        assert(views(ls@) =~= views(before).take(n as int));
    }
    join_strings(&ls, sep)
}

/// The component a cause affects.
fn affected_component(service: &Option<String>) -> (r: String)
    ensures
        r@ == affected_of(*service),
{
    match service {
        Some(s) => s.clone(),
        None => owned("unknown"),
    }
}

/// The cause a strategy concludes from one entry.
fn cause_from(k: StrategyKind, source: &str, data: &str, service: &Option<String>) -> (r: RootCause)
    ensures
        r@ == strategy_cause(k, source@, data@, *service),
{
    let affected = affected_component(service);
    let ghost av = affected@;
    let r = match k {
        StrategyKind::PortConflict => {
            let mut e = owned("Found from ");
            e.append(source);
            e.append(": ");
            let fl = first_lines_of(data, 3, "; ");
            e.append(fl.as_str());
            RootCause {
                category: RootCauseCategory::PortConflict,
                description: owned("Port is already in use by another process"),
                evidence: vec![e],
                confidence: 85,
                affected_components: vec![affected],
            }
        },
        StrategyKind::ServiceDown => {
            let mut e = owned("systemctl status shows: ");
            let fl = first_lines_of(data, 2, " ");
            e.append(fl.as_str());
            RootCause {
                category: RootCauseCategory::ServiceDown,
                description: owned("Service is not running or has failed"),
                evidence: vec![e],
                confidence: 90,
                affected_components: vec![affected],
            }
        },
        StrategyKind::ConfigError => {
            let mut e = owned("From ");
            e.append(source);
            e.append(": ");
            let fl = first_lines_of(data, 3, "; ");
            e.append(fl.as_str());
            RootCause {
                category: RootCauseCategory::ConfigurationError,
                description: owned("Configuration file contains errors"),
                evidence: vec![e],
                confidence: 95,
                affected_components: vec![affected],
            }
        },
    };
    assert(r@.evidence =~= strategy_cause(k, source@, data@, *service).evidence);
    assert(r@.affected_components =~= seq![av]);
    r
}

/// What a strategy concludes about a problem from its diagnostic data.
pub fn analyze_with(k: StrategyKind, problem: &ProblemContext) -> (r: Option<RootCause>)
    ensures
        match r {
            Some(c) => strategy_analysis(k, *problem) == Some(c@),
            None => strategy_analysis(k, *problem) is None,
        },
{
    let ghost entries = pair_views(problem.diagnostic_data@);
    let mut i: usize = 0;
    assert(entries.take(0) =~= Seq::<(Seq<char>, Seq<char>)>::empty());
    while i < problem.diagnostic_data.len()
        invariant
            i <= problem.diagnostic_data@.len(),
            entries == pair_views(problem.diagnostic_data@),
            first_where(entries.take(i as int), strategy_evidence(k)) is None,
        decreases problem.diagnostic_data@.len() - i,
    {
        let (source, data) = &problem.diagnostic_data[i];
        if evidence_matches(k, source.as_str(), data.as_str()) {
            proof { lemma_first_where_found(entries, strategy_evidence(k), i as int); }
            return Some(cause_from(k, source.as_str(), data.as_str(), &problem.service));
        }
        proof { lemma_first_where_step(entries, strategy_evidence(k), i as int); }
        i = i + 1;
    }
    assert(entries.take(i as int) =~= entries);
    None
}

/// Whether a strategy applies to a description given in lower case.
pub fn applies_lowered(k: StrategyKind, desc_lower: &str) -> (b: bool)
    ensures
        b == strategy_applies(k, desc_lower@),
        k == StrategyKind::PortConflict ==> (b <==> (contains(desc_lower@, "port"@)
            || contains(desc_lower@, "address already in use"@) || contains(desc_lower@, "bind"@)
            || contains(desc_lower@, "eaddrinuse"@))),
        k == StrategyKind::ServiceDown ==> (b <==> (contains(desc_lower@, "not running"@)
            || contains(desc_lower@, "down"@) || contains(desc_lower@, "failed"@)
            || contains(desc_lower@, "inactive"@) || contains(desc_lower@, "cannot start"@))),
        k == StrategyKind::ConfigError ==> (b <==> (contains(desc_lower@, "config"@)
            || contains(desc_lower@, "configuration"@) || contains(desc_lower@, "syntax"@)
            || contains(desc_lower@, "invalid"@))),
{
    let l = desc_lower;
    match k {
        StrategyKind::PortConflict => str_contains(l, "port") || str_contains(l, "address already in use")
            || str_contains(l, "bind") || str_contains(l, "eaddrinuse"),
        StrategyKind::ServiceDown => str_contains(l, "not running") || str_contains(l, "down") || str_contains(l, "failed")
            || str_contains(l, "inactive") || str_contains(l, "cannot start"),
        StrategyKind::ConfigError => str_contains(l, "config") || str_contains(l, "configuration")
            || str_contains(l, "syntax") || str_contains(l, "invalid"),
    }
}

/// The diagnostic commands a strategy proposes for a problem.
pub fn commands_for(k: StrategyKind, problem: &ProblemContext) -> (r: Vec<DiagnosticCommand>)
    ensures
        command_models(r@) == strategy_commands(k, problem.service),
{
    let r = match k {
        StrategyKind::PortConflict => vec![
            DiagnosticCommand::new("netstat", "netstat -tuln", "Check all listening ports"),
            DiagnosticCommand::new("ss", "ss -tlnp", "Check listening TCP ports with process info"),
            DiagnosticCommand::new("lsof", "lsof -i -P -n | grep LISTEN", "List processes listening on ports"),
        ],
        StrategyKind::ServiceDown => {
            let mut commands = vec![DiagnosticCommand::new("systemctl", "systemctl status", "Check systemd service status")];
            match &problem.service {
                Some(service) => {
                    let mut c1 = owned("systemctl status ");
                    c1.append(service.as_str());
                    let mut p1 = owned("Check ");
                    p1.append(service.as_str());
                    p1.append(" status");
                    commands.push(DiagnosticCommand::new("systemctl", c1.as_str(), p1.as_str()));
                    let mut c2 = owned("journalctl -u ");
                    c2.append(service.as_str());
                    c2.append(" -n 50 --no-pager");
                    let mut p2 = owned("Check ");
                    p2.append(service.as_str());
                    p2.append(" recent logs");
                    commands.push(DiagnosticCommand::new("journalctl", c2.as_str(), p2.as_str()));
                },
                None => {},
            }
            commands
        },
        StrategyKind::ConfigError => {
            let mut commands: Vec<DiagnosticCommand> = Vec::new();
            match &problem.service {
                Some(service) => {
                    if str_eq(service.as_str(), "nginx") {
                        commands.push(DiagnosticCommand::new("nginx", "nginx -t", "Validate nginx configuration"));
                    } else if str_eq(service.as_str(), "apache2") || str_eq(service.as_str(), "httpd") {
                        commands.push(DiagnosticCommand::new("apache2", "apache2ctl configtest", "Validate Apache configuration"));
                    }
                },
                None => {},
            }
            commands
        },
    };
    assert(command_models(r@) =~= strategy_commands(k, problem.service));
    r
}


/// Strategies of `ks` that apply to a description given in lower case.
pub open spec fn applicable(ks: Seq<StrategyKind>, l: Seq<char>) -> Seq<StrategyKind>
    decreases ks.len(),
{
    if ks.len() == 0 {
        Seq::empty()
    } else if strategy_applies(ks.last(), l) {
        applicable(ks.drop_last(), l).push(ks.last())
    } else {
        applicable(ks.drop_last(), l)
    }
}

/// The commands of all strategies `ks`, in order.
pub open spec fn all_commands(ks: Seq<StrategyKind>, service: Option<String>) -> Seq<(Seq<char>, Seq<char>, Seq<char>, bool)>
    decreases ks.len(),
{
    if ks.len() == 0 {
        Seq::empty()
    } else {
        all_commands(ks.drop_last(), service) + strategy_commands(ks.last(), service)
    }
}

/// The most confident cause concluded by strategies `ks` (the later one on
/// ties, as `max_by_key` picks).
pub open spec fn best_cause(ks: Seq<StrategyKind>, p: ProblemContext) -> Option<RootCauseModel>
    decreases ks.len(),
{
    if ks.len() == 0 {
        None
    } else {
        let prev = best_cause(ks.drop_last(), p);
        match strategy_analysis(ks.last(), p) {
            None => prev,
            Some(c) => match prev {
                None => Some(c),
                Some(b) => if c.confidence >= b.confidence { Some(c) } else { Some(b) },
            },
        }
    }
}

/// Strategy for port conflicts.
pub struct PortConflictStrategy;

/// Strategy for services that are down.
pub struct ServiceDownStrategy;

/// Strategy for configuration errors.
pub struct ConfigErrorStrategy;

/// A way of diagnosing one kind of problem.
pub trait DiagnosisStrategy {
    /// Name of the strategy.
    fn name(&self) -> &'static str;

    /// Whether the strategy applies to the problem.
    fn applies_to(&self, problem: &ProblemContext) -> bool;

    /// Commands to run for evidence.
    fn diagnostic_commands(&self, problem: &ProblemContext) -> Vec<DiagnosticCommand>;

    /// The root cause the collected data shows, if any.
    fn analyze(&self, problem: &ProblemContext) -> Option<RootCause>;
}

/// Whether strategy `k` applies to a problem, its description compared in
/// lower case.
pub fn strategy_applies_to(k: StrategyKind, problem: &ProblemContext) -> (b: bool)
    ensures
        b == strategy_applies(k, lowercase(problem.problem_description@)),
{
    let l = to_lowercase(problem.problem_description.as_str());
    applies_lowered(k, l.as_str())
}

impl DiagnosisStrategy for PortConflictStrategy {
    fn name(&self) -> (r: &'static str)
        ensures
            r@ == "Port Conflict Diagnosis"@,
    {
        "Port Conflict Diagnosis"
    }

    fn applies_to(&self, problem: &ProblemContext) -> (b: bool)
        ensures
            b == strategy_applies(StrategyKind::PortConflict, lowercase(problem.problem_description@)),
    {
        strategy_applies_to(StrategyKind::PortConflict, problem)
    }

    fn diagnostic_commands(&self, problem: &ProblemContext) -> (r: Vec<DiagnosticCommand>)
        ensures
            command_models(r@) == strategy_commands(StrategyKind::PortConflict, problem.service),
    {
        commands_for(StrategyKind::PortConflict, problem)
    }

    fn analyze(&self, problem: &ProblemContext) -> (r: Option<RootCause>)
        ensures
            match r {
                Some(c) => strategy_analysis(StrategyKind::PortConflict, *problem) == Some(c@),
                None => strategy_analysis(StrategyKind::PortConflict, *problem) is None,
            },
    {
        analyze_with(StrategyKind::PortConflict, problem)
    }
}

impl DiagnosisStrategy for ServiceDownStrategy {
    fn name(&self) -> (r: &'static str)
        ensures
            r@ == "Service Down Diagnosis"@,
    {
        "Service Down Diagnosis"
    }

    fn applies_to(&self, problem: &ProblemContext) -> (b: bool)
        ensures
            b == strategy_applies(StrategyKind::ServiceDown, lowercase(problem.problem_description@)),
    {
        strategy_applies_to(StrategyKind::ServiceDown, problem)
    }

    fn diagnostic_commands(&self, problem: &ProblemContext) -> (r: Vec<DiagnosticCommand>)
        ensures
            command_models(r@) == strategy_commands(StrategyKind::ServiceDown, problem.service),
    {
        commands_for(StrategyKind::ServiceDown, problem)
    }

    fn analyze(&self, problem: &ProblemContext) -> (r: Option<RootCause>)
        ensures
            match r {
                Some(c) => strategy_analysis(StrategyKind::ServiceDown, *problem) == Some(c@),
                None => strategy_analysis(StrategyKind::ServiceDown, *problem) is None,
            },
    {
        analyze_with(StrategyKind::ServiceDown, problem)
    }
}

impl DiagnosisStrategy for ConfigErrorStrategy {
    fn name(&self) -> (r: &'static str)
        ensures
            r@ == "Configuration Error Diagnosis"@,
    {
        "Configuration Error Diagnosis"
    }

    fn applies_to(&self, problem: &ProblemContext) -> (b: bool)
        ensures
            b == strategy_applies(StrategyKind::ConfigError, lowercase(problem.problem_description@)),
    {
        strategy_applies_to(StrategyKind::ConfigError, problem)
    }

    fn diagnostic_commands(&self, problem: &ProblemContext) -> (r: Vec<DiagnosticCommand>)
        ensures
            command_models(r@) == strategy_commands(StrategyKind::ConfigError, problem.service),
    {
        commands_for(StrategyKind::ConfigError, problem)
    }

    fn analyze(&self, problem: &ProblemContext) -> (r: Option<RootCause>)
        ensures
            match r {
                Some(c) => strategy_analysis(StrategyKind::ConfigError, *problem) == Some(c@),
                None => strategy_analysis(StrategyKind::ConfigError, *problem) is None,
            },
    {
        analyze_with(StrategyKind::ConfigError, problem)
    }
}

/// Combines the strategies: port conflicts, services down, configuration
/// errors, in that order.
pub struct RootCauseAnalyzer {
    strategies: Vec<StrategyKind>,
}

impl View for RootCauseAnalyzer {
    type V = Seq<StrategyKind>;

    closed spec fn view(&self) -> Seq<StrategyKind> {
        self.strategies@
    }
}

/// The strategies an analyzer starts with.
pub open spec fn built_in_strategies() -> Seq<StrategyKind> {
    seq![StrategyKind::PortConflict, StrategyKind::ServiceDown, StrategyKind::ConfigError]
}

impl RootCauseAnalyzer {
    /// An analyzer with the three built-in strategies.
    pub fn new() -> (r: Self)
        ensures
            r@ == built_in_strategies(),
    {
        let r = RootCauseAnalyzer {
            strategies: vec![StrategyKind::PortConflict, StrategyKind::ServiceDown, StrategyKind::ConfigError],
        };
        assert(r@ =~= built_in_strategies());
        r
    }

    /// Strategies that apply to a description given in lower case.
    pub fn get_applicable_strategies_lowered(&self, desc_lower: &str) -> (r: Vec<StrategyKind>)
        ensures
            r@ == applicable(self@, desc_lower@),
    {
        let mut r: Vec<StrategyKind> = Vec::new();
        let mut i: usize = 0;
        assert(self@.take(0) =~= Seq::<StrategyKind>::empty());
        while i < self.strategies.len()
            invariant
                i <= self@.len(),
                r@ == applicable(self@.take(i as int), desc_lower@),
            decreases self@.len() - i,
        {
            let k = self.strategies[i];
            assert(self@.take(i + 1).drop_last() =~= self@.take(i as int));
            if applies_lowered(k, desc_lower) {
                r.push(k);
            }
            i = i + 1;
        }
        assert(self@.take(i as int) =~= self@);
        r
    }

    /// Strategies that apply to a problem, its description compared in
    /// lower case.
    pub fn get_applicable_strategies(&self, problem: &ProblemContext) -> (r: Vec<StrategyKind>)
        ensures
            r@ == applicable(self@, lowercase(problem.problem_description@)),
    {
        let l = to_lowercase(problem.problem_description.as_str());
        self.get_applicable_strategies_lowered(l.as_str())
    }

    /// All diagnostic commands of the strategies that apply to a problem
    /// whose description is given in lower case.
    pub fn get_diagnostic_commands_lowered(&self, problem: &ProblemContext, desc_lower: &str) -> (r: Vec<DiagnosticCommand>)
        ensures
            command_models(r@) == all_commands(applicable(self@, desc_lower@), problem.service),
    {
        let ks = self.get_applicable_strategies_lowered(desc_lower);
        let mut r: Vec<DiagnosticCommand> = Vec::new();
        let mut i: usize = 0;
        assert(ks@.take(0) =~= Seq::<StrategyKind>::empty());
        assert(command_models(r@) =~= Seq::empty());
        while i < ks.len()
            invariant
                i <= ks@.len(),
                command_models(r@) == all_commands(ks@.take(i as int), problem.service),
            decreases ks@.len() - i,
        {
            let mut cs = commands_for(ks[i], problem);
            let ghost before = command_models(r@);
            let ghost added = command_models(cs@);
            r.append(&mut cs);
            assert(ks@.take(i + 1).drop_last() =~= ks@.take(i as int));
            assert(command_models(r@) =~= before + added);
            i = i + 1;
        }
        assert(ks@.take(i as int) =~= ks@);
        r
    }

    /// All diagnostic commands of the strategies that apply to a problem.
    pub fn get_diagnostic_commands(&self, problem: &ProblemContext) -> (r: Vec<DiagnosticCommand>)
        ensures
            command_models(r@) == all_commands(applicable(self@, lowercase(problem.problem_description@)), problem.service),
    {
        let l = to_lowercase(problem.problem_description.as_str());
        self.get_diagnostic_commands_lowered(problem, l.as_str())
    }

    /// The most confident root cause found by the strategies that apply to a
    /// problem whose description is given in lower case.
    pub fn analyze_lowered(&self, problem: &ProblemContext, desc_lower: &str) -> (r: Option<RootCause>)
        ensures
            match r {
                Some(c) => best_cause(applicable(self@, desc_lower@), *problem) == Some(c@),
                None => best_cause(applicable(self@, desc_lower@), *problem) is None,
            },
    {
        let ks = self.get_applicable_strategies_lowered(desc_lower);
        let mut best: Option<RootCause> = None;
        let mut i: usize = 0;
        assert(ks@.take(0) =~= Seq::<StrategyKind>::empty());
        while i < ks.len()
            invariant
                i <= ks@.len(),
                match best {
                    Some(c) => best_cause(ks@.take(i as int), *problem) == Some(c@),
                    None => best_cause(ks@.take(i as int), *problem) is None,
                },
            decreases ks@.len() - i,
        {
            assert(ks@.take(i + 1).drop_last() =~= ks@.take(i as int));
            assert(ks@.take(i + 1).last() == ks@[i as int]);
            match analyze_with(ks[i], problem) {
                Some(c) => {
                    let replace = match &best {
                        Some(b) => c.confidence >= b.confidence,
                        None => true,
                    };
                    if replace {
                        best = Some(c);
                    }
                },
                None => {},
            }
            i = i + 1;
        }
        assert(ks@.take(i as int) =~= ks@);
        best
    }

    /// The most confident root cause found by the strategies that apply.
    pub fn analyze(&self, problem: &ProblemContext) -> (r: Option<RootCause>)
        ensures
            match r {
                Some(c) => best_cause(applicable(self@, lowercase(problem.problem_description@)), *problem) == Some(c@),
                None => best_cause(applicable(self@, lowercase(problem.problem_description@)), *problem) is None,
            },
    {
        let l = to_lowercase(problem.problem_description.as_str());
        self.analyze_lowered(problem, l.as_str())
    }
}

/// The analysis keeps the most confident cause: no applicable strategy
/// concludes a cause more confident than the one returned, and nothing is
/// returned only when no applicable strategy concludes anything.
pub proof fn law_best_cause_is_most_confident(ks: Seq<StrategyKind>, p: ProblemContext)
    ensures
        best_cause(ks, p) is None <==> forall|i: int| 0 <= i < ks.len() ==> strategy_analysis(#[trigger] ks[i], p) is None,
        best_cause(ks, p) matches Some(b) ==> forall|i: int| 0 <= i < ks.len() ==>
            (strategy_analysis(#[trigger] ks[i], p) matches Some(c) ==> c.confidence <= b.confidence),
        best_cause(ks, p) matches Some(b) ==> exists|i: int| 0 <= i < ks.len() && strategy_analysis(#[trigger] ks[i], p) == Some(b),
    decreases ks.len(),
{
    if ks.len() > 0 {
        let d = ks.drop_last();
        law_best_cause_is_most_confident(d, p);
        assert forall|i: int| 0 <= i < ks.len() - 1 implies #[trigger] ks[i] == d[i] by {}
        if let Some(b) = best_cause(ks, p) {
            if best_cause(d, p) == Some(b) {
                let j = choose|j: int| 0 <= j < d.len() && strategy_analysis(#[trigger] d[j], p) == Some(b);
                assert(ks[j] == d[j]);
            } else {
                assert(strategy_analysis(ks[ks.len() - 1], p) == Some(b));
            }
        }
        if best_cause(ks, p) is None {
            assert forall|i: int| 0 <= i < ks.len() implies strategy_analysis(#[trigger] ks[i], p) is None by {
                if i < ks.len() - 1 {
                    assert(ks[i] == d[i]);
                }
            }
        } else {
            if forall|i: int| 0 <= i < ks.len() ==> strategy_analysis(#[trigger] ks[i], p) is None {
                assert(strategy_analysis(ks[ks.len() - 1], p) is None);
                assert forall|i: int| 0 <= i < d.len() implies strategy_analysis(#[trigger] d[i], p) is None by {
                    assert(ks[i] == d[i]);
                }
            }
        }
    }
}

/// A strategy concludes a cause exactly when some diagnostic entry shows
/// its evidence.
pub proof fn lemma_strategy_analysis_some(k: StrategyKind, p: ProblemContext)
    ensures
        (strategy_analysis(k, p) is Some) <==> exists|i: int|
            0 <= i < p.diagnostic_data@.len() && #[trigger] (strategy_evidence(k))(p.diagnostic_data@[i].0@, p.diagnostic_data@[i].1@),
{
    let entries = pair_views(p.diagnostic_data@);
    lemma_first_where_some(entries, strategy_evidence(k));
    if exists|i: int| 0 <= i < p.diagnostic_data@.len() && #[trigger] (strategy_evidence(k))(p.diagnostic_data@[i].0@, p.diagnostic_data@[i].1@) {
        let i = choose|i: int| 0 <= i < p.diagnostic_data@.len() && #[trigger] (strategy_evidence(k))(p.diagnostic_data@[i].0@, p.diagnostic_data@[i].1@);
        assert((strategy_evidence(k))(entries[i].0, entries[i].1));
    }
    if strategy_analysis(k, p) is Some {
        let i = choose|i: int| 0 <= i < entries.len() && #[trigger] (strategy_evidence(k))(entries[i].0, entries[i].1);
        assert((strategy_evidence(k))(p.diagnostic_data@[i].0@, p.diagnostic_data@[i].1@));
    }
}

/// The service-down strategy concludes a cause exactly when some entry's
/// source contains `systemctl status` and its data contains `inactive` or
/// `failed`; the cause is then a service that is down, with the description
/// "Service is not running or has failed" and confidence 90.
pub proof fn law_service_down_concluded(p: ProblemContext)
    ensures
        (strategy_analysis(StrategyKind::ServiceDown, p) is Some) <==> exists|i: int| #![trigger p.diagnostic_data@[i]]
            0 <= i < p.diagnostic_data@.len() && (contains(p.diagnostic_data@[i].0@, "systemctl status"@)
            && (contains(p.diagnostic_data@[i].1@, "inactive"@) || contains(p.diagnostic_data@[i].1@, "failed"@))),
        strategy_analysis(StrategyKind::ServiceDown, p) matches Some(c) ==> {
            &&& c.category == RootCauseCategory::ServiceDown
            &&& c.description == "Service is not running or has failed"@
            &&& c.confidence == 90
        },
{
    let k = StrategyKind::ServiceDown;
    let shown = |s: Seq<char>, d: Seq<char>| contains(s, "systemctl status"@)
        && (contains(d, "inactive"@) || contains(d, "failed"@));
    lemma_strategy_analysis_some(k, p);
    assert forall|s: Seq<char>, d: Seq<char>| #[trigger] (strategy_evidence(k))(s, d) == shown(s, d) by {}
    if strategy_analysis(k, p) is Some {
        let i = choose|i: int|
            0 <= i < p.diagnostic_data@.len() && #[trigger] (strategy_evidence(k))(p.diagnostic_data@[i].0@, p.diagnostic_data@[i].1@);
        assert(shown(p.diagnostic_data@[i].0@, p.diagnostic_data@[i].1@));
    }
    if exists|i: int| #![trigger p.diagnostic_data@[i]] 0 <= i < p.diagnostic_data@.len() && shown(p.diagnostic_data@[i].0@, p.diagnostic_data@[i].1@) {
        let i = choose|i: int| #![trigger p.diagnostic_data@[i]] 0 <= i < p.diagnostic_data@.len() && shown(p.diagnostic_data@[i].0@, p.diagnostic_data@[i].1@);
        assert((strategy_evidence(k))(p.diagnostic_data@[i].0@, p.diagnostic_data@[i].1@));
    }
}

/// The port-conflict strategy concludes a cause exactly when some entry
/// comes from `netstat`, `ss` or `lsof` and shows one of the ports `:80 `,
/// `:443 `, `:8080 ` taken; the cause is then a port conflict, with the
/// description "Port is already in use by another process" and confidence 85.
pub proof fn law_port_conflict_concluded(p: ProblemContext)
    ensures
        (strategy_analysis(StrategyKind::PortConflict, p) is Some) <==> exists|i: int| #![trigger p.diagnostic_data@[i]]
            0 <= i < p.diagnostic_data@.len() && ((contains(p.diagnostic_data@[i].0@, "netstat"@) || contains(p.diagnostic_data@[i].0@, "ss"@) || contains(p.diagnostic_data@[i].0@, "lsof"@))
            && (contains(p.diagnostic_data@[i].1@, ":80 "@) || contains(p.diagnostic_data@[i].1@, ":443 "@) || contains(p.diagnostic_data@[i].1@, ":8080 "@))),
        strategy_analysis(StrategyKind::PortConflict, p) matches Some(c) ==> {
            &&& c.category == RootCauseCategory::PortConflict
            &&& c.description == "Port is already in use by another process"@
            &&& c.confidence == 85
        },
{
    let k = StrategyKind::PortConflict;
    let shown = |s: Seq<char>, d: Seq<char>| (contains(s, "netstat"@) || contains(s, "ss"@) || contains(s, "lsof"@))
        && (contains(d, ":80 "@) || contains(d, ":443 "@) || contains(d, ":8080 "@));
    lemma_strategy_analysis_some(k, p);
    assert forall|s: Seq<char>, d: Seq<char>| #[trigger] (strategy_evidence(k))(s, d) == shown(s, d) by {}
    if strategy_analysis(k, p) is Some {
        let i = choose|i: int|
            0 <= i < p.diagnostic_data@.len() && #[trigger] (strategy_evidence(k))(p.diagnostic_data@[i].0@, p.diagnostic_data@[i].1@);
        assert(shown(p.diagnostic_data@[i].0@, p.diagnostic_data@[i].1@));
    }
    if exists|i: int| #![trigger p.diagnostic_data@[i]] 0 <= i < p.diagnostic_data@.len() && shown(p.diagnostic_data@[i].0@, p.diagnostic_data@[i].1@) {
        let i = choose|i: int| #![trigger p.diagnostic_data@[i]] 0 <= i < p.diagnostic_data@.len() && shown(p.diagnostic_data@[i].0@, p.diagnostic_data@[i].1@);
        assert((strategy_evidence(k))(p.diagnostic_data@[i].0@, p.diagnostic_data@[i].1@));
    }
}

/// The configuration-error strategy concludes a cause exactly when some
/// entry's data contains `syntax error`, `invalid`, `parse error` or
/// `configuration test failed`; the cause is then a configuration error,
/// with the description "Configuration file contains errors" and
/// confidence 95.
pub proof fn law_config_error_concluded(p: ProblemContext)
    ensures
        (strategy_analysis(StrategyKind::ConfigError, p) is Some) <==> exists|i: int| #![trigger p.diagnostic_data@[i]]
            0 <= i < p.diagnostic_data@.len() && (contains(p.diagnostic_data@[i].1@, "syntax error"@) || contains(p.diagnostic_data@[i].1@, "invalid"@) || contains(p.diagnostic_data@[i].1@, "parse error"@)
            || contains(p.diagnostic_data@[i].1@, "configuration test failed"@)),
        strategy_analysis(StrategyKind::ConfigError, p) matches Some(c) ==> {
            &&& c.category == RootCauseCategory::ConfigurationError
            &&& c.description == "Configuration file contains errors"@
            &&& c.confidence == 95
        },
{
    let k = StrategyKind::ConfigError;
    let shown = |s: Seq<char>, d: Seq<char>| contains(d, "syntax error"@) || contains(d, "invalid"@) || contains(d, "parse error"@)
        || contains(d, "configuration test failed"@);
    lemma_strategy_analysis_some(k, p);
    assert forall|s: Seq<char>, d: Seq<char>| #[trigger] (strategy_evidence(k))(s, d) == shown(s, d) by {}
    if strategy_analysis(k, p) is Some {
        let i = choose|i: int|
            0 <= i < p.diagnostic_data@.len() && #[trigger] (strategy_evidence(k))(p.diagnostic_data@[i].0@, p.diagnostic_data@[i].1@);
        assert(shown(p.diagnostic_data@[i].0@, p.diagnostic_data@[i].1@));
    }
    if exists|i: int| #![trigger p.diagnostic_data@[i]] 0 <= i < p.diagnostic_data@.len() && shown(p.diagnostic_data@[i].0@, p.diagnostic_data@[i].1@) {
        let i = choose|i: int| #![trigger p.diagnostic_data@[i]] 0 <= i < p.diagnostic_data@.len() && shown(p.diagnostic_data@[i].0@, p.diagnostic_data@[i].1@);
        assert((strategy_evidence(k))(p.diagnostic_data@[i].0@, p.diagnostic_data@[i].1@));
    }
}

/// A strategy of `ks` that applies to the description is among the
/// applicable ones.
pub proof fn lemma_applicable_contains(ks: Seq<StrategyKind>, l: Seq<char>, j: int)
    requires
        0 <= j < ks.len(),
        strategy_applies(ks[j], l),
    ensures
        applicable(ks, l).contains(ks[j]),
    decreases ks.len(),
{
    let d = ks.drop_last();
    if j == ks.len() - 1 {
        assert(applicable(ks, l).last() == ks[j]);
    } else {
        assert(d[j] == ks[j]);
        lemma_applicable_contains(d, l, j);
        let m = choose|m: int| 0 <= m < applicable(d, l).len() && applicable(d, l)[m] == ks[j];
        if strategy_applies(ks.last(), l) {
            assert(applicable(ks, l)[m] == ks[j]);
        }
    }
}

/// A problem described as a service down (its description, in lower case,
/// contains `not running`, `down`, `failed`, `inactive` or `cannot start`)
/// whose diagnostic data holds a `systemctl status` output showing the
/// service `failed` or `inactive` gets a root cause from the analyzer with
/// the built-in strategies, at least as confident as the service-down
/// conclusion (90).
pub proof fn law_analyzer_finds_service_down(p: ProblemContext, i: int)
    requires
        0 <= i < p.diagnostic_data@.len(),
        contains(p.diagnostic_data@[i].0@, "systemctl status"@),
        contains(p.diagnostic_data@[i].1@, "failed"@) || contains(p.diagnostic_data@[i].1@, "inactive"@),
        ({
            let l = lowercase(p.problem_description@);
            contains(l, "not running"@) || contains(l, "down"@) || contains(l, "failed"@)
                || contains(l, "inactive"@) || contains(l, "cannot start"@)
        }),
    ensures
        best_cause(applicable(built_in_strategies(), lowercase(p.problem_description@)), p) matches Some(b)
            && b.confidence >= 90,
{
    let l = lowercase(p.problem_description@);
    let ks = built_in_strategies();
    law_service_down_concluded(p);
    assert(p.diagnostic_data@[i] == p.diagnostic_data@[i]);
    assert(ks[1] == StrategyKind::ServiceDown);
    lemma_applicable_contains(ks, l, 1);
    let a = applicable(ks, l);
    let m = choose|m: int| 0 <= m < a.len() && a[m] == StrategyKind::ServiceDown;
    law_best_cause_is_most_confident(a, p);
    assert(strategy_analysis(a[m], p) is Some);
}

/// The diagnostic commands each strategy proposes: for port conflicts
/// `netstat -tuln`, `ss -tlnp` and `lsof -i -P -n | grep LISTEN`; for a
/// service that is down `systemctl status`, and, when the service is known,
/// its own status and its last 50 journal lines; for configuration errors
/// `nginx -t` for nginx, `apache2ctl configtest` for apache2 or httpd, and
/// nothing otherwise. All of them only read.
pub proof fn law_strategy_commands_table(service: Option<String>)
    ensures
        strategy_commands(StrategyKind::PortConflict, service) == seq![
            ("netstat"@, "netstat -tuln"@, "Check all listening ports"@, true),
            ("ss"@, "ss -tlnp"@, "Check listening TCP ports with process info"@, true),
            ("lsof"@, "lsof -i -P -n | grep LISTEN"@, "List processes listening on ports"@, true),
        ],
        service is None ==> strategy_commands(StrategyKind::ServiceDown, service) == seq![
            ("systemctl"@, "systemctl status"@, "Check systemd service status"@, true),
        ],
        service matches Some(s) ==> strategy_commands(StrategyKind::ServiceDown, service) == seq![
            ("systemctl"@, "systemctl status"@, "Check systemd service status"@, true),
            ("systemctl"@, "systemctl status "@ + s@, "Check "@ + s@ + " status"@, true),
            ("journalctl"@, "journalctl -u "@ + s@ + " -n 50 --no-pager"@, "Check "@ + s@ + " recent logs"@, true),
        ],
        service matches Some(s) && s@ == "nginx"@ ==> strategy_commands(StrategyKind::ConfigError, service) == seq![
            ("nginx"@, "nginx -t"@, "Validate nginx configuration"@, true),
        ],
        service matches Some(s) && s@ != "nginx"@ && (s@ == "apache2"@ || s@ == "httpd"@)
            ==> strategy_commands(StrategyKind::ConfigError, service) == seq![
            ("apache2"@, "apache2ctl configtest"@, "Validate Apache configuration"@, true),
        ],
        !(service matches Some(s) && (s@ == "nginx"@ || s@ == "apache2"@ || s@ == "httpd"@))
            ==> strategy_commands(StrategyKind::ConfigError, service).len() == 0,
{
}

} // verus!
