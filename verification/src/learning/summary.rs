//! What a shell session taught: its statistics, the summary drawn from them
//! (concepts, tools by use, suggested next steps, an achievement) and how
//! the summary is shown.
use crate::clock::{duration_secs, elapsed, instant_now};
use crate::text::{
    contains, dec, first_word, lowercase, owned, pad_right, pad_str, split_words, str_contains,
    str_eq, to_lowercase, u64_to_dec, views,
};
use vstd::prelude::*;

verus! {

/// Statistics of a shell session. Each tool appears once in
/// `commands_by_tool`, in the order of first use, and its count is the
/// number of commands run with it; `unique_commands` lists the same tools
/// in the same order; a concept is learned once.
#[derive(Debug, Clone)]
pub struct SessionStats {
    /// When the session started.
    pub start_time: std::time::Instant,
    /// Commands run.
    pub commands_executed: u32,
    /// Commands run, by tool (the first word of the command).
    pub commands_by_tool: Vec<(String, u32)>,
    pub errors_encountered: u32,
    pub errors_resolved: u32,
    /// Concepts met through errors, in the order met.
    pub concepts_learned: Vec<String>,
    /// The tools used, in the order of first use.
    pub unique_commands: Vec<String>,
}

/// A summary of a session, for display.
#[derive(Debug, Clone)]
pub struct SessionSummary {
    /// Length of the session, in whole seconds.
    pub duration_secs: u64,
    pub commands_executed: u32,
    /// Errors resolved.
    pub problems_solved: u32,
    pub concepts: Vec<ConceptSummary>,
    /// Tools with their counts, most used first.
    pub tools_used: Vec<(String, u32)>,
    pub next_steps: Vec<String>,
    pub achievement: Option<Achievement>,
}

/// A concept met, with a short description.
#[derive(Debug, Clone)]
pub struct ConceptSummary {
    pub name: String,
    pub description: String,
}

/// An achievement earned in a session.
#[derive(Debug, Clone)]
pub struct Achievement {
    pub name: String,
    pub description: String,
    /// An emoji.
    pub icon: String,
}

/// Builds and shows session summaries.
pub struct SummaryGenerator;

/// The counts by tool as plain values.
pub open spec fn tools_view(v: Seq<(String, u32)>) -> Seq<(Seq<char>, u32)> {
    v.map_values(|p: (String, u32)| (p.0@, p.1))
}

/// The tools of a count table.
pub open spec fn tool_keys(m: Seq<(Seq<char>, u32)>) -> Seq<Seq<char>> {
    m.map_values(|p: (Seq<char>, u32)| p.0)
}

/// No sequence occurs twice.
pub open spec fn no_dups(s: Seq<Seq<char>>) -> bool {
    forall|i: int, j: int| 0 <= i < j < s.len() ==> s[i] != s[j]
}

/// The sum of the counts.
pub open spec fn total(m: Seq<(Seq<char>, u32)>) -> nat
    decreases m.len(),
{
    if m.len() == 0 {
        0
    } else {
        total(m.drop_last()) + m.last().1 as nat
    }
}

/// `m` holds an entry for `k`.
pub open spec fn has_key(m: Seq<(Seq<char>, u32)>, k: Seq<char>) -> bool {
    exists|i: int| 0 <= i < m.len() && m[i].0 == k
}

/// `m` after one more use of `k`: its count goes up by one, or it is added
/// at the end with a count of one.
pub open spec fn count_use(m: Seq<(Seq<char>, u32)>, k: Seq<char>) -> Seq<(Seq<char>, u32)> {
    if has_key(m, k) {
        let i = choose|i: int| 0 <= i < m.len() && m[i].0 == k;
        m.update(i, (k, (m[i].1 + 1) as u32))
    } else {
        m.push((k, 1u32))
    }
}

/// The tool a command is counted under: its first word, or `unknown`.
pub open spec fn tool_of(command: Seq<char>) -> Seq<char> {
    match first_word(command) {
        Some(w) => w,
        None => "unknown"@,
    }
}

/// The session statistics are consistent: every tool once, counted as
/// many times as commands ran with it, `unique_commands` listing the tools,
/// and no concept twice.
pub open spec fn stats_wf(s: SessionStats) -> bool {
    &&& tools_wf(s)
    &&& no_dups(views(s.concepts_learned@))
}

/// The tool table of the statistics is consistent: each tool listed once,
/// `unique_commands` listing the tools in the table's order, and the counts
/// adding up to the commands run.
pub open spec fn tools_wf(s: SessionStats) -> bool {
    let m = tools_view(s.commands_by_tool@);
    &&& no_dups(tool_keys(m))
    &&& views(s.unique_commands@) == tool_keys(m)
    &&& total(m) == s.commands_executed
}

/// The concepts after meeting `c`: added unless already there.
pub open spec fn learn_concept(cs: Seq<Seq<char>>, c: Seq<char>) -> Seq<Seq<char>> {
    if cs.contains(c) {
        cs
    } else {
        cs.push(c)
    }
}

/// Changing one count changes the total by the difference.
pub proof fn lemma_total_update(m: Seq<(Seq<char>, u32)>, i: int, e: (Seq<char>, u32))
    requires
        0 <= i < m.len(),
    ensures
        total(m.update(i, e)) == total(m) - m[i].1 + e.1,
    decreases m.len(),
{
    if i == m.len() - 1 {
        assert(m.update(i, e).drop_last() =~= m.drop_last());
    } else {
        lemma_total_update(m.drop_last(), i, e);
        assert(m.update(i, e).drop_last() =~= m.drop_last().update(i, e));
    }
}

/// A count is at most the total.
pub proof fn lemma_count_le_total(m: Seq<(Seq<char>, u32)>, i: int)
    requires
        0 <= i < m.len(),
    ensures
        m[i].1 <= total(m),
    decreases m.len(),
{
    if i < m.len() - 1 {
        lemma_count_le_total(m.drop_last(), i);
    }
}

/// Top border of the summary box.
pub const SUMMARY_TOP: &'static str = "\n\x1b[1;36m╭─ SESSION SUMMARY ─────────────────────────────────────────╮\x1b[0m\n";

/// An empty line of the summary box.
pub const SUMMARY_BLANK: &'static str = "\x1b[36m│\x1b[0m                                                            \x1b[36m│\x1b[0m\n";

/// Start of the duration line.
pub const DURATION_OPEN: &'static str = "\x1b[36m│\x1b[0m  Duration: \x1b[1m";

/// End of the duration line.
pub const DURATION_CLOSE: &'static str = "\x1b[0m                        \x1b[36m│\x1b[0m\n";

/// Start of the commands line.
pub const COMMANDS_OPEN: &'static str = "\x1b[36m│\x1b[0m  Commands executed: \x1b[1m";

/// End of the commands line.
pub const COMMANDS_CLOSE: &'static str = "\x1b[0m                        \x1b[36m│\x1b[0m\n";

/// Start of the problems line.
pub const PROBLEMS_OPEN: &'static str = "\x1b[36m│\x1b[0m  Problems solved: \x1b[1m";

/// End of the problems line.
pub const PROBLEMS_CLOSE: &'static str = "\x1b[0m                          \x1b[36m│\x1b[0m\n";

/// Heading of the concepts section.
pub const CONCEPTS_HEADING: &'static str = "\x1b[36m│\x1b[0m  \x1b[1m📚 Concepts Learned:\x1b[0m                                     \x1b[36m│\x1b[0m\n";

/// Start of a bullet line.
pub const BULLET_OPEN: &'static str = "\x1b[36m│\x1b[0m    • ";

/// End of a padded bullet line.
pub const BULLET_CLOSE: &'static str = " \x1b[36m│\x1b[0m\n";

/// Heading of the tools section.
pub const TOOLS_HEADING: &'static str = "\x1b[36m│\x1b[0m  \x1b[1m🔧 Tools Used:\x1b[0m                                           \x1b[36m│\x1b[0m\n";

/// End of a tool line, after its count.
pub const TOOL_CLOSE: &'static str = " commands)                              \x1b[36m│\x1b[0m\n";

/// Heading of the next-steps section.
pub const STEPS_HEADING: &'static str = "\x1b[36m│\x1b[0m  \x1b[1m💡 Suggested Next Steps:\x1b[0m                                 \x1b[36m│\x1b[0m\n";

/// Start of the achievement line.
pub const ACHIEVEMENT_OPEN: &'static str = "\x1b[36m│\x1b[0m  \x1b[1;33m";

/// End of the achievement line.
pub const ACHIEVEMENT_CLOSE: &'static str = "\"\x1b[0m             \x1b[36m│\x1b[0m\n";

/// Bottom border of the summary box.
pub const SUMMARY_BOTTOM: &'static str = "\x1b[1;36m╰────────────────────────────────────────────────────────────╯\x1b[0m\n";

/// A suggested next step.
pub const CHMOD_TIP: &'static str = "Learn about file permissions with chmod";

/// A suggested next step.
pub const KUBECTL_LOGS_TIP: &'static str = "Explore kubectl logs for debugging";

/// A suggested next step.
pub const KUBECTL_DESCRIBE_TIP: &'static str = "Learn about kubectl describe for details";

/// A suggested next step.
pub const DOCKER_TIP: &'static str = "Learn docker logs for container debugging";

/// A suggested next step.
pub const NGINX_LOGS_TIP: &'static str = "Learn about nginx access logs";

/// A suggested next step.
pub const NGINX_LOCATION_TIP: &'static str = "Explore nginx location blocks";

/// A suggested next step.
pub const SYSTEMCTL_TIP: &'static str = "Explore journalctl for service debugging";

/// A suggested next step.
pub const GIT_TIP: &'static str = "Learn about git stash for work-in-progress";

/// A suggested next step.
pub const CHMOD_MASTER_TIP: &'static str = "Master chmod and chown commands";

/// A suggested next step.
pub const NETWORK_TIP: &'static str = "Learn network debugging with netstat/ss";

/// Counts sorted by count, most first; equal counts keep their order.
pub open spec fn sort_by_count(s: Seq<(Seq<char>, u32)>) -> Seq<(Seq<char>, u32)>
    decreases s.len(),
{
    if s.len() == 0 {
        s
    } else {
        insert_by_count(sort_by_count(s.drop_last()), s.last())
    }
}

/// The position of the first entry of `s` with a count below `c`.
pub open spec fn below_index(s: Seq<(Seq<char>, u32)>, c: u32) -> int
    decreases s.len(),
{
    if s.len() == 0 {
        0
    } else if s[0].1 < c {
        0
    } else {
        1 + below_index(s.drop_first(), c)
    }
}

/// `x` inserted into `s` before the first entry with a smaller count.
pub open spec fn insert_by_count(s: Seq<(Seq<char>, u32)>, x: (Seq<char>, u32)) -> Seq<(Seq<char>, u32)> {
    let p = below_index(s, x.1);
    s.take(p) + seq![x] + s.skip(p)
}

/// Counts never grow along `s`.
pub open spec fn counts_descending(s: Seq<(Seq<char>, u32)>) -> bool {
    forall|i: int, j: int| 0 <= i < j < s.len() ==> s[i].1 >= s[j].1
}

/// Where `below_index` stops: every entry before it has a count of at least
/// `c`, and the entry there has a smaller one.
pub proof fn lemma_below_index(s: Seq<(Seq<char>, u32)>, c: u32)
    ensures
        0 <= below_index(s, c) <= s.len(),
        forall|j: int| 0 <= j < below_index(s, c) ==> s[j].1 >= c,
        below_index(s, c) < s.len() ==> s[below_index(s, c)].1 < c,
    decreases s.len(),
{
    if s.len() > 0 && s[0].1 >= c {
        lemma_below_index(s.drop_first(), c);
        assert forall|j: int| 0 <= j < below_index(s, c) implies s[j].1 >= c by {
            if j > 0 {
                assert(s[j] == s.drop_first()[j - 1]);
            }
        }
    }
}

/// Inserting by count keeps counts descending.
pub proof fn lemma_insert_keeps_descending(s: Seq<(Seq<char>, u32)>, x: (Seq<char>, u32))
    requires
        counts_descending(s),
    ensures
        counts_descending(insert_by_count(s, x)),
        insert_by_count(s, x).len() == s.len() + 1,
{
    lemma_below_index(s, x.1);
    let p = below_index(s, x.1);
    let r = insert_by_count(s, x);
    assert(r.len() == s.len() + 1);
    assert forall|i: int| 0 <= i < r.len() implies #[trigger] r[i] == (if i < p {
        s[i]
    } else if i == p {
        x
    } else {
        s[i - 1]
    }) by {}
    assert forall|i: int, j: int| 0 <= i < j < r.len() implies r[i].1 >= r[j].1 by {
        if j < p {
        } else if j == p {
        } else if i < p {
            assert(s[i].1 >= s[j - 1].1);
        } else if i == p {
            assert(s[p].1 < x.1);
            assert(s[p].1 >= s[j - 1].1);
        } else {
        }
    }
}

/// Sorting by count gives counts in descending order.
pub proof fn lemma_sort_by_count_descending(s: Seq<(Seq<char>, u32)>)
    ensures
        counts_descending(sort_by_count(s)),
        sort_by_count(s).len() == s.len(),
    decreases s.len(),
{
    if s.len() > 0 {
        lemma_sort_by_count_descending(s.drop_last());
        lemma_insert_keeps_descending(sort_by_count(s.drop_last()), s.last());
    }
}

/// The tips after looking at one more command.
pub open spec fn tip_for_command(acc: Seq<Seq<char>>, cmd: Seq<char>) -> Seq<Seq<char>> {
    if cmd == "ls"@ || cmd == "cd"@ || cmd == "pwd"@ {
        if acc.contains(CHMOD_TIP@) {
            acc
        } else {
            acc.push(CHMOD_TIP@)
        }
    } else if cmd == "kubectl"@ {
        acc.push(KUBECTL_LOGS_TIP@).push(KUBECTL_DESCRIBE_TIP@)
    } else if cmd == "docker"@ {
        acc.push(DOCKER_TIP@)
    } else if cmd == "nginx"@ {
        acc.push(NGINX_LOGS_TIP@).push(NGINX_LOCATION_TIP@)
    } else if cmd == "systemctl"@ {
        acc.push(SYSTEMCTL_TIP@)
    } else if cmd == "git"@ {
        acc.push(GIT_TIP@)
    } else {
        acc
    }
}

/// The tips after looking at `cmds`, in order.
pub open spec fn tips_from_commands(acc: Seq<Seq<char>>, cmds: Seq<Seq<char>>) -> Seq<Seq<char>>
    decreases cmds.len(),
{
    if cmds.len() == 0 {
        acc
    } else {
        tips_from_commands(tip_for_command(acc, cmds[0]), cmds.drop_first())
    }
}

/// Some tip mentions `w`.
pub open spec fn any_mentions(acc: Seq<Seq<char>>, w: Seq<char>) -> bool {
    exists|i: int| 0 <= i < acc.len() && contains(acc[i], w)
}

/// The tips after looking at one more concept.
pub open spec fn tip_for_concept(acc: Seq<Seq<char>>, c: Seq<char>) -> Seq<Seq<char>> {
    if c == "Permission Denied"@ {
        if any_mentions(acc, "chmod"@) {
            acc
        } else {
            acc.push(CHMOD_MASTER_TIP@)
        }
    } else if c == "Network Error"@ {
        acc.push(NETWORK_TIP@)
    } else {
        acc
    }
}

/// The tips after looking at `concepts`, in order.
pub open spec fn tips_from_concepts(acc: Seq<Seq<char>>, concepts: Seq<Seq<char>>) -> Seq<Seq<char>>
    decreases concepts.len(),
{
    if concepts.len() == 0 {
        acc
    } else {
        tips_from_concepts(tip_for_concept(acc, concepts[0]), concepts.drop_first())
    }
}

/// The suggested next steps: tips for the commands used, then for the
/// concepts met, the first three of them.
pub open spec fn next_steps_for(commands: Seq<Seq<char>>, concepts: Seq<Seq<char>>) -> Seq<Seq<char>> {
    let all = tips_from_concepts(tips_from_commands(seq![], commands), concepts);
    if all.len() > 3 {
        all.take(3)
    } else {
        all
    }
}

/// Whether the tool `t` was used.
pub open spec fn used_tool(s: SessionStats, t: Seq<char>) -> bool {
    has_key(tools_view(s.commands_by_tool@), t)
}

/// The achievement a session earns, as (name, description, icon): a clean
/// start, solving problems, network debugging, containers, or exploring,
/// the first that applies.
pub open spec fn achievement_of(s: SessionStats) -> Option<(Seq<char>, Seq<char>, Seq<char>)> {
    if s.commands_executed >= 1 && s.errors_encountered == 0 {
        Some(("Clean Start"@, "Completed session with no errors"@, "✨"@))
    } else if s.errors_resolved >= 3 {
        Some(("Problem Solver"@, "Resolved 3 or more errors in one session"@, "🔧"@))
    } else if used_tool(s, "lsof"@) || used_tool(s, "netstat"@) || used_tool(s, "ss"@) {
        Some(("Port Detective"@, "Used network debugging tools"@, "🔍"@))
    } else if used_tool(s, "docker"@) || used_tool(s, "kubectl"@) {
        Some(("Container Captain"@, "Worked with containers or Kubernetes"@, "🚀"@))
    } else if s.unique_commands@.len() >= 5 {
        Some(("Explorer"@, "Used 5 or more different commands"@, "🗺️"@))
    } else {
        None
    }
}

/// An achievement as plain values.
pub open spec fn achievement_view(a: Option<Achievement>) -> Option<(Seq<char>, Seq<char>, Seq<char>)> {
    match a {
        Some(x) => Some((x.name@, x.description@, x.icon@)),
        None => None,
    }
}

/// The concepts with their descriptions, as plain values.
pub open spec fn concepts_view(cs: Seq<ConceptSummary>) -> Seq<(Seq<char>, Seq<char>)> {
    cs.map_values(|c: ConceptSummary| (c.name@, c.description@))
}

/// Each concept with its description.
pub open spec fn described(cs: Seq<Seq<char>>) -> Seq<(Seq<char>, Seq<char>)> {
    cs.map_values(|c: Seq<char>| (c, concept_description(c)))
}

/// The description of a concept; an unknown concept is described as
/// `Understanding` and its name in lower case.
pub open spec fn concept_description(c: Seq<char>) -> Seq<char> {
    if c == "Command Not Found"@ {
        "Understanding PATH and command availability"@
    } else if c == "Permission Denied"@ {
        "File permissions and access control"@
    } else if c == "File Not Found"@ {
        "Navigating the filesystem"@
    } else if c == "Network Error"@ {
        "Network connectivity and troubleshooting"@
    } else if c == "Syntax Error"@ {
        "Command syntax and arguments"@
    } else if c == "Config Error"@ {
        "Configuration file formats"@
    } else if c == "Service Error"@ {
        "System service management"@
    } else if c == "Docker Error"@ {
        "Container management basics"@
    } else if c == "Kubernetes Error"@ {
        "Kubernetes resource management"@
    } else {
        "Understanding "@ + lowercase(c)
    }
}

/// The session length shown: minutes and seconds, or seconds alone.
pub open spec fn duration_text(secs: nat) -> Seq<char> {
    if secs / 60 > 0 {
        dec(secs / 60) + " min "@ + dec(secs % 60) + " sec"@
    } else {
        dec(secs % 60) + " seconds"@
    }
}

/// Bullet lines, each text padded to 50 characters.
pub open spec fn bullet_lines(items: Seq<Seq<char>>) -> Seq<char>
    decreases items.len(),
{
    if items.len() == 0 {
        seq![]
    } else {
        bullet_lines(items.drop_last()) + BULLET_OPEN@ + pad_right(items.last(), 50) + BULLET_CLOSE@
    }
}

/// Lines for tools with their counts.
pub open spec fn tool_lines(items: Seq<(Seq<char>, u32)>) -> Seq<char>
    decreases items.len(),
{
    if items.len() == 0 {
        seq![]
    } else {
        tool_lines(items.drop_last()) + BULLET_OPEN@ + items.last().0 + " ("@ + dec(
            items.last().1 as nat,
        ) + TOOL_CLOSE@
    }
}

/// At most the first three of `s`.
pub open spec fn first_three<A>(s: Seq<A>) -> Seq<A> {
    if s.len() > 3 {
        s.take(3)
    } else {
        s
    }
}

/// The concepts section: up to three concept names; nothing without
/// concepts.
pub open spec fn concepts_block(cv: Seq<(Seq<char>, Seq<char>)>) -> Seq<char> {
    if cv.len() == 0 {
        seq![]
    } else {
        CONCEPTS_HEADING@ + bullet_lines(first_three(cv).map_values(|c: (Seq<char>, Seq<char>)| c.0))
            + SUMMARY_BLANK@
    }
}

/// The tools section: up to three tools with their counts; nothing without
/// tools.
pub open spec fn tools_block(tv: Seq<(Seq<char>, u32)>) -> Seq<char> {
    if tv.len() == 0 {
        seq![]
    } else {
        TOOLS_HEADING@ + tool_lines(first_three(tv)) + SUMMARY_BLANK@
    }
}

/// The next-steps section; nothing without steps.
pub open spec fn steps_block(sv: Seq<Seq<char>>) -> Seq<char> {
    if sv.len() == 0 {
        seq![]
    } else {
        STEPS_HEADING@ + bullet_lines(sv) + SUMMARY_BLANK@
    }
}

/// The achievement line; nothing without an achievement.
pub open spec fn achievement_block(a: Option<(Seq<char>, Seq<char>, Seq<char>)>) -> Seq<char> {
    match a {
        Some(x) => ACHIEVEMENT_OPEN@ + x.2 + " Achievement Unlocked: \""@ + x.0 + ACHIEVEMENT_CLOSE@
            + SUMMARY_BLANK@,
        None => seq![],
    }
}

/// The top of the summary box: length, commands run and problems solved.
pub open spec fn summary_head(s: SessionSummary, secs: nat) -> Seq<char> {
    SUMMARY_TOP@ + SUMMARY_BLANK@ + DURATION_OPEN@ + pad_right(duration_text(secs), 20)
        + DURATION_CLOSE@ + COMMANDS_OPEN@ + pad_right(dec(s.commands_executed as nat), 10)
        + COMMANDS_CLOSE@ + PROBLEMS_OPEN@ + pad_right(dec(s.problems_solved as nat), 10)
        + PROBLEMS_CLOSE@ + SUMMARY_BLANK@
}

/// The summary box for `s`, whose session lasted `secs` seconds.
pub open spec fn summary_text(s: SessionSummary, secs: nat) -> Seq<char> {
    summary_head(s, secs) + concepts_block(concepts_view(s.concepts@)) + tools_block(
        tools_view(s.tools_used@),
    ) + steps_block(views(s.next_steps@)) + achievement_block(achievement_view(s.achievement))
        + SUMMARY_BOTTOM@
}

impl SessionStats {
    /// Statistics of a session starting now, with nothing recorded.
    pub fn new() -> (r: Self)
        ensures
            stats_wf(r),
            r.commands_executed == 0,
            r.commands_by_tool@.len() == 0,
            r.errors_encountered == 0,
            r.errors_resolved == 0,
            r.concepts_learned@.len() == 0,
            r.unique_commands@.len() == 0,
    {
        let r = SessionStats {
            start_time: instant_now(),
            commands_executed: 0,
            commands_by_tool: Vec::new(),
            errors_encountered: 0,
            errors_resolved: 0,
            concepts_learned: Vec::new(),
            unique_commands: Vec::new(),
        };
        assert(views(r.unique_commands@) =~= tool_keys(tools_view(r.commands_by_tool@)));
        r
    }

    /// Records a command: one more command, counted under its tool (its
    /// first word, or `unknown`); a tool used for the first time is added
    /// to the tools and to `unique_commands`.
    pub fn record_command(&mut self, command: &str)
        requires
            tools_wf(*old(self)),
            old(self).commands_executed < u32::MAX,
        ensures
            tools_wf(*final(self)),
            stats_wf(*old(self)) ==> stats_wf(*final(self)),
            final(self).commands_executed == old(self).commands_executed + 1,
            tools_view(final(self).commands_by_tool@) == count_use(
                tools_view(old(self).commands_by_tool@),
                tool_of(command@),
            ),
            views(final(self).unique_commands@) == (if views(old(self).unique_commands@).contains(tool_of(command@)) {
                views(old(self).unique_commands@)
            } else {
                views(old(self).unique_commands@).push(tool_of(command@))
            }),
            final(self).errors_encountered == old(self).errors_encountered,
            final(self).errors_resolved == old(self).errors_resolved,
            final(self).concepts_learned@ == old(self).concepts_learned@,
            final(self).start_time == old(self).start_time,
    {
        proof {
            reveal_strlit("unknown");
        }
        let words = split_words(command);
        let tool: String = if words.len() > 0 {
            words[0].clone()
        } else {
            owned("unknown")
        };
        assert(tool@ == tool_of(command@));
        let ghost m = tools_view(self.commands_by_tool@);
        let i = tool_position(&self.commands_by_tool, tool.as_str());
        if i < self.commands_by_tool.len() {
            proof {
                assert(m[i as int].0 == tool@);
                assert(has_key(m, tool@));
                let k = choose|k: int| 0 <= k < m.len() && m[k].0 == tool@;
                if k != i {
                    assert(tool_keys(m)[k] == tool_keys(m)[i as int]);
                }
                lemma_count_le_total(m, i as int);
                lemma_total_update(m, i as int, (tool@, (m[i as int].1 + 1) as u32));
                assert(views(self.unique_commands@)[i as int] == tool@);
            }
            let c = self.commands_by_tool[i].1;
            self.commands_by_tool.set(i, (tool, c + 1));
            assert(tools_view(self.commands_by_tool@) =~= m.update(i as int, (m[i as int].0, (c + 1) as u32)));
            assert(tool_keys(tools_view(self.commands_by_tool@)) =~= tool_keys(m));
        } else {
            proof {
                if has_key(m, tool@) {
                    let k = choose|k: int| 0 <= k < m.len() && m[k].0 == tool@;
                    assert(m[k].0 != tool@);
                }
                if views(self.unique_commands@).contains(tool@) {
                    let j = choose|j: int| 0 <= j < views(self.unique_commands@).len() && views(self.unique_commands@)[j] == tool@;
                    assert(m[j].0 == tool@);
                }
            }
            let ghost keys_before = views(self.unique_commands@);
            self.commands_by_tool.push((tool.clone(), 1));
            self.unique_commands.push(tool);
            assert(tools_view(self.commands_by_tool@) =~= m.push((tool_of(command@), 1u32)));
            assert(tools_view(self.commands_by_tool@).drop_last() =~= m);
            assert(views(self.unique_commands@) =~= keys_before.push(tool_of(command@)));
            assert(tool_keys(tools_view(self.commands_by_tool@)) =~= tool_keys(m).push(tool_of(command@)));
            assert(no_dups(tool_keys(tools_view(self.commands_by_tool@)))) by {
                let ks = tool_keys(tools_view(self.commands_by_tool@));
                assert forall|a: int, b: int| 0 <= a < b < ks.len() implies ks[a] != ks[b] by {
                    if b == ks.len() - 1 {
                        assert(m[a].0 != tool_of(command@));
                    } else {
                        assert(tool_keys(m)[a] != tool_keys(m)[b]);
                    }
                }
            }
        }
        self.commands_executed = self.commands_executed + 1;
    }

    /// Records an error about `concept`: one more error, and the concept
    /// added unless it was met before.
    pub fn record_error(&mut self, concept: &str)
        requires
            old(self).errors_encountered < u32::MAX,
        ensures
            stats_wf(*old(self)) ==> stats_wf(*final(self)),
            no_dups(views(old(self).concepts_learned@)) ==> no_dups(views(final(self).concepts_learned@)),
            final(self).errors_encountered == old(self).errors_encountered + 1,
            views(final(self).concepts_learned@) == learn_concept(
                views(old(self).concepts_learned@),
                concept@,
            ),
            final(self).commands_executed == old(self).commands_executed,
            final(self).commands_by_tool@ == old(self).commands_by_tool@,
            final(self).unique_commands@ == old(self).unique_commands@,
            final(self).errors_resolved == old(self).errors_resolved,
            final(self).start_time == old(self).start_time,
    {
        self.errors_encountered = self.errors_encountered + 1;
        let ghost cs = views(self.concepts_learned@);
        if holds(&self.concepts_learned, concept) {
            return;
        }
        self.concepts_learned.push(owned(concept));
        assert(views(self.concepts_learned@) =~= cs.push(concept@));
        assert(no_dups(cs) ==> no_dups(views(self.concepts_learned@))) by {
            let ns = views(self.concepts_learned@);
            assert forall|a: int, b: int| no_dups(cs) && 0 <= a < b < ns.len() implies ns[a] != ns[b] by {
                if b == ns.len() - 1 {
                    assert(cs[a] != concept@);
                }
            }
        }
    }

    /// Records that an error was resolved.
    pub fn record_resolution(&mut self)
        requires
            old(self).errors_resolved < u32::MAX,
        ensures
            final(self).errors_resolved == old(self).errors_resolved + 1,
            final(self).commands_executed == old(self).commands_executed,
            final(self).commands_by_tool@ == old(self).commands_by_tool@,
            final(self).unique_commands@ == old(self).unique_commands@,
            final(self).errors_encountered == old(self).errors_encountered,
            final(self).concepts_learned@ == old(self).concepts_learned@,
            final(self).start_time == old(self).start_time,
    {
        self.errors_resolved = self.errors_resolved + 1;
    }

    /// How long the session has lasted; the clock reading is not described.
    pub fn duration(&self) -> std::time::Duration {
        elapsed(&self.start_time)
    }

    /// How many commands ran with `tool`, if it was used.
    pub fn tool_count(&self, tool: &str) -> (r: Option<u32>)
        requires
            tools_wf(*self),
        ensures
            match r {
                Some(c) => exists|i: int|
                    0 <= i < self.commands_by_tool@.len() && #[trigger] tools_view(
                        self.commands_by_tool@,
                    )[i] == (tool@, c),
                None => !has_key(tools_view(self.commands_by_tool@), tool@),
            },
    {
        let ghost m = tools_view(self.commands_by_tool@);
        let mut i: usize = 0;
        while i < self.commands_by_tool.len()
            invariant
                i <= self.commands_by_tool@.len(),
                m == tools_view(self.commands_by_tool@),
                forall|j: int| 0 <= j < i ==> #[trigger] m[j].0 != tool@,
            decreases self.commands_by_tool.len() - i,
        {
            if str_eq(self.commands_by_tool[i].0.as_str(), tool) {
                assert(m[i as int] == (tool@, self.commands_by_tool@[i as int].1));
                return Some(self.commands_by_tool[i].1);
            }
            i = i + 1;
        }
        proof {
            if has_key(m, tool@) {
                let k = choose|k: int| 0 <= k < m.len() && m[k].0 == tool@;
                assert(m[k].0 != tool@);
            }
        }
        None
    }
}

impl Default for SessionStats {
    fn default() -> (r: Self)
        ensures
            stats_wf(r),
            r.commands_executed == 0,
            r.errors_encountered == 0,
            r.errors_resolved == 0,
    {
        SessionStats::new()
    }
}

/// Position of the first entry for `t` in `by_tool`, or the length when
/// there is none.
fn tool_position(by_tool: &Vec<(String, u32)>, t: &str) -> (i: usize)
    ensures
        i <= by_tool@.len(),
        forall|j: int| 0 <= j < i ==> #[trigger] tools_view(by_tool@)[j].0 != t@,
        i < by_tool@.len() ==> tools_view(by_tool@)[i as int].0 == t@,
{
    let ghost m = tools_view(by_tool@);
    let mut i: usize = 0;
    while i < by_tool.len()
        invariant
            i <= by_tool@.len(),
            m == tools_view(by_tool@),
            forall|j: int| 0 <= j < i ==> #[trigger] m[j].0 != t@,
        decreases by_tool.len() - i,
    {
        if str_eq(by_tool[i].0.as_str(), t) {
            return i;
        }
        i = i + 1;
    }
    i
}

/// Whether the tool `t` was used, according to `by_tool`.
fn uses_tool(by_tool: &Vec<(String, u32)>, t: &str) -> (r: bool)
    ensures
        r == has_key(tools_view(by_tool@), t@),
{
    let ghost m = tools_view(by_tool@);
    let mut i: usize = 0;
    while i < by_tool.len()
        invariant
            i <= by_tool@.len(),
            m == tools_view(by_tool@),
            forall|j: int| 0 <= j < i ==> #[trigger] m[j].0 != t@,
        decreases by_tool.len() - i,
    {
        if str_eq(by_tool[i].0.as_str(), t) {
            assert(m[i as int].0 == t@);
            return true;
        }
        i = i + 1;
    }
    proof {
        if has_key(m, t@) {
            let k = choose|k: int| 0 <= k < m.len() && m[k].0 == t@;
            assert(m[k].0 != t@);
        }
    }
    false
}

/// An achievement from its parts.
fn achievement(name: &str, description: &str, icon: &str) -> (r: Option<Achievement>)
    ensures
        achievement_view(r) == Some((name@, description@, icon@)),
{
    Some(Achievement { name: owned(name), description: owned(description), icon: owned(icon) })
}

/// Whether some of `acc` mentions `w`.
fn mentions_any(acc: &Vec<String>, w: &str) -> (r: bool)
    ensures
        r == any_mentions(views(acc@), w@),
{
    let ghost a = views(acc@);
    let mut i: usize = 0;
    while i < acc.len()
        invariant
            i <= acc@.len(),
            a == views(acc@),
            forall|j: int| 0 <= j < i ==> !contains(#[trigger] a[j], w@),
        decreases acc.len() - i,
    {
        if str_contains(acc[i].as_str(), w) {
            assert(contains(a[i as int], w@));
            return true;
        }
        i = i + 1;
    }
    false
}

/// Whether `acc` holds `t`.
fn holds(acc: &Vec<String>, t: &str) -> (r: bool)
    ensures
        r == views(acc@).contains(t@),
{
    let ghost a = views(acc@);
    let mut i: usize = 0;
    while i < acc.len()
        invariant
            i <= acc@.len(),
            a == views(acc@),
            forall|j: int| 0 <= j < i ==> #[trigger] a[j] != t@,
        decreases acc.len() - i,
    {
        if str_eq(acc[i].as_str(), t) {
            assert(a[i as int] == t@);
            return true;
        }
        i = i + 1;
    }
    proof {
        if a.contains(t@) {
            let k = choose|k: int| 0 <= k < a.len() && a[k] == t@;
            assert(a[k] != t@);
        }
    }
    false
}

/// Appends `t` to `acc`.
fn push_tip(acc: &mut Vec<String>, t: &str)
    ensures
        views(final(acc)@) == views(old(acc)@).push(t@),
{
    let ghost before = views(acc@);
    acc.push(owned(t));
    assert(views(acc@) =~= before.push(t@));
}

/// Adds the tips for one command.
fn add_command_tips(acc: &mut Vec<String>, cmd: &str)
    ensures
        views(final(acc)@) == tip_for_command(views(old(acc)@), cmd@),
{
    if str_eq(cmd, "ls") || str_eq(cmd, "cd") || str_eq(cmd, "pwd") {
        if !holds(acc, CHMOD_TIP) {
            push_tip(acc, CHMOD_TIP);
        }
    } else if str_eq(cmd, "kubectl") {
        push_tip(acc, KUBECTL_LOGS_TIP);
        push_tip(acc, KUBECTL_DESCRIBE_TIP);
    } else if str_eq(cmd, "docker") {
        push_tip(acc, DOCKER_TIP);
    } else if str_eq(cmd, "nginx") {
        push_tip(acc, NGINX_LOGS_TIP);
        push_tip(acc, NGINX_LOCATION_TIP);
    } else if str_eq(cmd, "systemctl") {
        push_tip(acc, SYSTEMCTL_TIP);
    } else if str_eq(cmd, "git") {
        push_tip(acc, GIT_TIP);
    }
}

/// Adds the tips for one concept.
fn add_concept_tips(acc: &mut Vec<String>, concept: &str)
    ensures
        views(final(acc)@) == tip_for_concept(views(old(acc)@), concept@),
{
    if str_eq(concept, "Permission Denied") {
        if !mentions_any(acc, "chmod") {
            push_tip(acc, CHMOD_MASTER_TIP);
        }
    } else if str_eq(concept, "Network Error") {
        push_tip(acc, NETWORK_TIP);
    }
}

/// The top of the summary box.
fn summary_head_text(summary: &SessionSummary, secs: u64) -> (r: String)
    ensures
        r@ == summary_head(*summary, secs as nat),
{
    let minutes = secs / 60;
    let seconds = secs % 60;
    let mut duration_str = String::new();
    if minutes > 0 {
        duration_str.append(u64_to_dec(minutes).as_str());
        duration_str.append(" min ");
        duration_str.append(u64_to_dec(seconds).as_str());
        duration_str.append(" sec");
    } else {
        duration_str.append(u64_to_dec(seconds).as_str());
        duration_str.append(" seconds");
    }
    assert(duration_str@ =~= duration_text(secs as nat));
    let mut out = owned(SUMMARY_TOP);
    out.append(SUMMARY_BLANK);
    out.append(DURATION_OPEN);
    out.append(pad_str(duration_str.as_str(), 20).as_str());
    out.append(DURATION_CLOSE);
    out.append(COMMANDS_OPEN);
    out.append(pad_str(u64_to_dec(summary.commands_executed as u64).as_str(), 10).as_str());
    out.append(COMMANDS_CLOSE);
    out.append(PROBLEMS_OPEN);
    out.append(pad_str(u64_to_dec(summary.problems_solved as u64).as_str(), 10).as_str());
    out.append(PROBLEMS_CLOSE);
    out.append(SUMMARY_BLANK);
    out
}

/// Appends the concepts section to `out`.
fn push_concepts(out: &mut String, concepts: &Vec<ConceptSummary>)
    ensures
        final(out)@ == old(out)@ + concepts_block(concepts_view(concepts@)),
{
    let ghost cv = concepts_view(concepts@);
    let ghost start0 = out@;
    if concepts.len() == 0 {
        assert(start0 + Seq::<char>::empty() =~= start0);
        return;
    }
    out.append(CONCEPTS_HEADING);
    let n: usize = if concepts.len() > 3 {
        3
    } else {
        concepts.len()
    };
    let ghost names = first_three(cv).map_values(|c: (Seq<char>, Seq<char>)| c.0);
    let ghost start = out@;
    let mut i: usize = 0;
    while i < n
        invariant
            n <= concepts@.len(),
            n == names.len(),
            cv == concepts_view(concepts@),
            names == first_three(cv).map_values(|c: (Seq<char>, Seq<char>)| c.0),
            i <= n,
            out@ == start + bullet_lines(names.take(i as int)),
        decreases n - i,
    {
        assert(names.take(i + 1).drop_last() =~= names.take(i as int));
        assert(names[i as int] == concepts@[i as int].name@);
        out.append(BULLET_OPEN);
        out.append(pad_str(concepts[i].name.as_str(), 50).as_str());
        out.append(BULLET_CLOSE);
        i = i + 1;
    }
    assert(names.take(n as int) =~= names);
    out.append(SUMMARY_BLANK);
    assert(out@ =~= start0 + concepts_block(cv));
}

/// Appends the tools section to `out`.
fn push_tools(out: &mut String, tools: &Vec<(String, u32)>)
    ensures
        final(out)@ == old(out)@ + tools_block(tools_view(tools@)),
{
    let ghost tv = tools_view(tools@);
    let ghost start0 = out@;
    if tools.len() == 0 {
        assert(start0 + Seq::<char>::empty() =~= start0);
        return;
    }
    out.append(TOOLS_HEADING);
    let n: usize = if tools.len() > 3 {
        3
    } else {
        tools.len()
    };
    let ghost shown = first_three(tv);
    let ghost start = out@;
    let mut i: usize = 0;
    while i < n
        invariant
            n <= tools@.len(),
            n == shown.len(),
            tv == tools_view(tools@),
            shown == first_three(tv),
            i <= n,
            out@ == start + tool_lines(shown.take(i as int)),
        decreases n - i,
    {
        assert(shown.take(i + 1).drop_last() =~= shown.take(i as int));
        assert(shown[i as int] == (tools@[i as int].0@, tools@[i as int].1));
        out.append(BULLET_OPEN);
        out.append(tools[i].0.as_str());
        out.append(" (");
        out.append(u64_to_dec(tools[i].1 as u64).as_str());
        out.append(TOOL_CLOSE);
        i = i + 1;
    }
    assert(shown.take(n as int) =~= shown);
    out.append(SUMMARY_BLANK);
    assert(out@ =~= start0 + tools_block(tv));
}

/// Appends the next-steps section to `out`.
fn push_steps(out: &mut String, steps: &Vec<String>)
    ensures
        final(out)@ == old(out)@ + steps_block(views(steps@)),
{
    let ghost sv = views(steps@);
    let ghost start0 = out@;
    if steps.len() == 0 {
        assert(start0 + Seq::<char>::empty() =~= start0);
        return;
    }
    out.append(STEPS_HEADING);
    let ghost start = out@;
    let mut i: usize = 0;
    while i < steps.len()
        invariant
            sv == views(steps@),
            i <= steps@.len(),
            out@ == start + bullet_lines(sv.take(i as int)),
        decreases steps.len() - i,
    {
        assert(sv.take(i + 1).drop_last() =~= sv.take(i as int));
        out.append(BULLET_OPEN);
        out.append(pad_str(steps[i].as_str(), 50).as_str());
        out.append(BULLET_CLOSE);
        i = i + 1;
    }
    assert(sv.take(steps@.len() as int) =~= sv);
    out.append(SUMMARY_BLANK);
    assert(out@ =~= start0 + steps_block(sv));
}

/// Appends the achievement line to `out`.
fn push_achievement(out: &mut String, a: &Option<Achievement>)
    ensures
        final(out)@ == old(out)@ + achievement_block(achievement_view(*a)),
{
    let ghost start0 = out@;
    match a {
        Some(a) => {
            out.append(ACHIEVEMENT_OPEN);
            out.append(a.icon.as_str());
            out.append(" Achievement Unlocked: \"");
            out.append(a.name.as_str());
            out.append(ACHIEVEMENT_CLOSE);
            out.append(SUMMARY_BLANK);
        },
        None => {
            assert(start0 + Seq::<char>::empty() =~= start0);
        },
    }
}

impl SummaryGenerator {
    /// The description of a concept; an unknown concept is described as
    /// `Understanding` and its name in lower case.
    pub fn get_concept_description(concept: &str) -> (r: String)
        ensures
            r@ == concept_description(concept@),
    {
        if str_eq(concept, "Command Not Found") {
            return owned("Understanding PATH and command availability");
        }
        if str_eq(concept, "Permission Denied") {
            return owned("File permissions and access control");
        }
        if str_eq(concept, "File Not Found") {
            return owned("Navigating the filesystem");
        }
        if str_eq(concept, "Network Error") {
            return owned("Network connectivity and troubleshooting");
        }
        if str_eq(concept, "Syntax Error") {
            return owned("Command syntax and arguments");
        }
        if str_eq(concept, "Config Error") {
            return owned("Configuration file formats");
        }
        if str_eq(concept, "Service Error") {
            return owned("System service management");
        }
        if str_eq(concept, "Docker Error") {
            return owned("Container management basics");
        }
        if str_eq(concept, "Kubernetes Error") {
            return owned("Kubernetes resource management");
        }
        let mut out = owned("Understanding ");
        out.append(to_lowercase(concept).as_str());
        out
    }
    /// Up to three suggested next steps: tips for the commands used (in
    /// order), then for the concepts met.
    pub fn suggest_next_steps(commands: &[String], concepts: &[String]) -> (r: Vec<String>)
        ensures
            views(r@) == next_steps_for(views(commands@), views(concepts@)),
            r@.len() <= 3,
    {
        let ghost cmds = views(commands@);
        let ghost cons = views(concepts@);
        let mut acc: Vec<String> = Vec::new();
        assert(views(acc@) =~= Seq::<Seq<char>>::empty());
        assert(cmds.skip(0) =~= cmds);
        let mut i: usize = 0;
        while i < commands.len()
            invariant
                i <= commands@.len(),
                cmds == views(commands@),
                tips_from_commands(seq![], cmds) == tips_from_commands(views(acc@), cmds.skip(i as int)),
            decreases commands.len() - i,
        {
            assert(cmds.skip(i as int)[0] == commands@[i as int]@);
            assert(cmds.skip(i as int).drop_first() =~= cmds.skip(i + 1));
            add_command_tips(&mut acc, commands[i].as_str());
            i = i + 1;
        }
        assert(cmds.skip(i as int).len() == 0);
        let ghost after_commands = views(acc@);
        assert(cons.skip(0) =~= cons);
        let mut k: usize = 0;
        while k < concepts.len()
            invariant
                k <= concepts@.len(),
                cons == views(concepts@),
                tips_from_concepts(after_commands, cons) == tips_from_concepts(views(acc@), cons.skip(k as int)),
            decreases concepts.len() - k,
        {
            assert(cons.skip(k as int)[0] == concepts@[k as int]@);
            assert(cons.skip(k as int).drop_first() =~= cons.skip(k + 1));
            add_concept_tips(&mut acc, concepts[k].as_str());
            k = k + 1;
        }
        assert(cons.skip(k as int).len() == 0);
        let ghost all = views(acc@);
        if acc.len() > 3 {
            acc.truncate(3);
            assert(views(acc@) =~= all.take(3));
        }
        acc
    }

    /// The achievement a session earns, if any.
    pub fn check_achievements(stats: &SessionStats) -> (r: Option<Achievement>)
        ensures
            achievement_view(r) == achievement_of(*stats),
    {
        if stats.commands_executed >= 1 && stats.errors_encountered == 0 {
            return achievement("Clean Start", "Completed session with no errors", "✨");
        }
        if stats.errors_resolved >= 3 {
            return achievement("Problem Solver", "Resolved 3 or more errors in one session", "🔧");
        }
        if uses_tool(&stats.commands_by_tool, "lsof") || uses_tool(&stats.commands_by_tool, "netstat")
            || uses_tool(&stats.commands_by_tool, "ss") {
            return achievement("Port Detective", "Used network debugging tools", "🔍");
        }
        if uses_tool(&stats.commands_by_tool, "docker") || uses_tool(&stats.commands_by_tool, "kubectl") {
            return achievement("Container Captain", "Worked with containers or Kubernetes", "🚀");
        }
        if stats.unique_commands.len() >= 5 {
            return achievement("Explorer", "Used 5 or more different commands", "🗺️");
        }
        None
    }

    /// The tools with their counts, most used first; tools used equally
    /// often keep the order of first use.
    pub fn tools_by_use(by_tool: &Vec<(String, u32)>) -> (r: Vec<(String, u32)>)
        ensures
            tools_view(r@) == sort_by_count(tools_view(by_tool@)),
            counts_descending(tools_view(r@)),
    {
        let ghost m = tools_view(by_tool@);
        let mut out: Vec<(String, u32)> = Vec::new();
        let mut i: usize = 0;
        assert(m.take(0) =~= Seq::<(Seq<char>, u32)>::empty());
        assert(tools_view(out@) =~= sort_by_count(m.take(0)));
        while i < by_tool.len()
            invariant
                i <= by_tool@.len(),
                m == tools_view(by_tool@),
                tools_view(out@) == sort_by_count(m.take(i as int)),
            decreases by_tool.len() - i,
        {
            let c = by_tool[i].1;
            let ghost s = tools_view(out@);
            let mut p: usize = 0;
            assert(s.skip(0) =~= s);
            while p < out.len() && out[p].1 >= c
                invariant
                    p <= out@.len(),
                    s == tools_view(out@),
                    below_index(s, c) == p + below_index(s.skip(p as int), c),
                decreases out.len() - p,
            {
                assert(s.skip(p as int)[0] == s[p as int]);
                assert(s.skip(p as int).drop_first() =~= s.skip(p + 1));
                p = p + 1;
            }
            proof {
                if p < s.len() {
                    assert(s.skip(p as int)[0] == s[p as int]);
                }
            }
            assert(below_index(s, c) == p);
            out.insert(p, (by_tool[i].0.clone(), c));
            assert(m.take(i + 1).drop_last() =~= m.take(i as int));
            assert(m.take(i + 1).last() == (by_tool@[i as int].0@, c));
            assert(tools_view(out@) =~= s.take(p as int) + seq![(by_tool@[i as int].0@, c)] + s.skip(p as int));
            i = i + 1;
        }
        assert(m.take(by_tool.len() as int) =~= m);
        proof {
            lemma_sort_by_count_descending(m);
        }
        out
    }

    /// The summary of a session: its length, the commands run, the
    /// problems solved, the concepts met with their descriptions, the tools
    /// by use, up to three next steps and the achievement earned.
    pub fn generate(stats: &SessionStats) -> (r: SessionSummary)
        ensures
            r.commands_executed == stats.commands_executed,
            r.problems_solved == stats.errors_resolved,
            concepts_view(r.concepts@) == described(views(stats.concepts_learned@)),
            tools_view(r.tools_used@) == sort_by_count(tools_view(stats.commands_by_tool@)),
            counts_descending(tools_view(r.tools_used@)),
            views(r.next_steps@) == next_steps_for(
                views(stats.unique_commands@),
                views(stats.concepts_learned@),
            ),
            r.next_steps@.len() <= 3,
            achievement_view(r.achievement) == achievement_of(*stats),
    {
        let duration = stats.duration();
        let duration_secs = duration_secs(&duration);
        let ghost names = views(stats.concepts_learned@);
        let mut concepts: Vec<ConceptSummary> = Vec::new();
        let mut i: usize = 0;
        while i < stats.concepts_learned.len()
            invariant
                i <= stats.concepts_learned@.len(),
                names == views(stats.concepts_learned@),
                concepts_view(concepts@) == described(names.take(i as int)),
            decreases stats.concepts_learned.len() - i,
        {
            let name = stats.concepts_learned[i].clone();
            let description = Self::get_concept_description(name.as_str());
            let ghost before = concepts_view(concepts@);
            concepts.push(ConceptSummary { name, description });
            assert(concepts_view(concepts@) =~= before.push((names[i as int], concept_description(names[i as int]))));
            assert(described(names.take(i + 1)) =~= described(names.take(i as int)).push((names[i as int], concept_description(names[i as int]))));
            i = i + 1;
        }
        assert(names.take(names.len() as int) =~= names);
        let tools_used = Self::tools_by_use(&stats.commands_by_tool);
        let next_steps = Self::suggest_next_steps(
            stats.unique_commands.as_slice(),
            stats.concepts_learned.as_slice(),
        );
        let achievement = Self::check_achievements(stats);
        SessionSummary {
            duration_secs,
            commands_executed: stats.commands_executed,
            problems_solved: stats.errors_resolved,
            concepts,
            tools_used,
            next_steps,
            achievement,
        }
    }

    /// The summary box for `summary`, whose session lasted `secs` seconds.
    pub fn render_with_secs(summary: &SessionSummary, secs: u64) -> (r: String)
        ensures
            r@ == summary_text(*summary, secs as nat),
    {
        let mut out = summary_head_text(summary, secs);
        push_concepts(&mut out, &summary.concepts);
        push_tools(&mut out, &summary.tools_used);
        push_steps(&mut out, &summary.next_steps);
        push_achievement(&mut out, &summary.achievement);
        out.append(SUMMARY_BOTTOM);
        out
    }

    /// The summary box for `summary`, showing its length in seconds.
    pub fn render(summary: &SessionSummary) -> (r: String)
        ensures
            r@ == summary_text(*summary, summary.duration_secs as nat),
    {
        Self::render_with_secs(summary, summary.duration_secs)
    }
}

/// The count recorded for `k` in `m` (0 when `k` is absent), read from
/// its last entry.
pub open spec fn count_of(m: Seq<(Seq<char>, u32)>, k: Seq<char>) -> nat
    decreases m.len(),
{
    if m.len() == 0 {
        0
    } else if m.last().0 == k {
        m.last().1 as nat
    } else {
        count_of(m.drop_last(), k)
    }
}

/// Where the keys are distinct, the count of `k` is that of its entry.
proof fn lemma_count_at(m: Seq<(Seq<char>, u32)>, k: Seq<char>, i: int)
    requires
        no_dups(tool_keys(m)),
        0 <= i < m.len(),
        m[i].0 == k,
    ensures
        count_of(m, k) == m[i].1,
    decreases m.len(),
{
    if i < m.len() - 1 {
        assert(tool_keys(m)[i] == m[i].0);
        assert(tool_keys(m)[m.len() - 1] == m.last().0);
        assert(tool_keys(m)[i] != tool_keys(m)[m.len() - 1]);
        assert(tool_keys(m.drop_last()) =~= tool_keys(m).drop_last());
        assert(m.drop_last()[i] == m[i]);
        lemma_count_at(m.drop_last(), k, i);
    }
}

/// An absent key counts 0.
proof fn lemma_count_absent(m: Seq<(Seq<char>, u32)>, k: Seq<char>)
    requires
        !has_key(m, k),
    ensures
        count_of(m, k) == 0,
    decreases m.len(),
{
    if m.len() > 0 {
        assert(m.last() == m[m.len() - 1]);
        assert(!has_key(m.drop_last(), k)) by {
            if has_key(m.drop_last(), k) {
                let p = choose|p: int| 0 <= p < m.drop_last().len() && m.drop_last()[p].0 == k;
                assert(m[p].0 == k);
            }
        }
        lemma_count_absent(m.drop_last(), k);
    }
}

/// Recording a command adds one to the count of its tool, leaves every
/// other tool's count as it was, and keeps each tool listed once.
pub proof fn law_record_counts_one_use(m: Seq<(Seq<char>, u32)>, k: Seq<char>, j: Seq<char>)
    requires
        no_dups(tool_keys(m)),
        count_of(m, k) < u32::MAX,
    ensures
        no_dups(tool_keys(count_use(m, k))),
        count_of(count_use(m, k), k) == count_of(m, k) + 1,
        j != k ==> count_of(count_use(m, k), j) == count_of(m, j),
{
    let m2 = count_use(m, k);
    if has_key(m, k) {
        assert(exists|c: int|
            0 <= c < m.len() && m[c].0 == k && m2 == m.update(c, (k, (m[c].1 + 1) as u32)));
        let i = choose|c: int|
            0 <= c < m.len() && m[c].0 == k && m2 == m.update(c, (k, (m[c].1 + 1) as u32));
        lemma_count_at(m, k, i);
        assert(tool_keys(m2) =~= tool_keys(m));
        lemma_count_at(m2, k, i);
        if j != k {
            if has_key(m, j) {
                let p = choose|p: int| 0 <= p < m.len() && m[p].0 == j;
                lemma_count_at(m, j, p);
                assert(m2[p] == m[p]);
                lemma_count_at(m2, j, p);
            } else {
                lemma_count_absent(m, j);
                assert(!has_key(m2, j)) by {
                    if has_key(m2, j) {
                        let p = choose|p: int| 0 <= p < m2.len() && m2[p].0 == j;
                        assert(m[p].0 == j);
                    }
                }
                lemma_count_absent(m2, j);
            }
        }
    } else {
        lemma_count_absent(m, k);
        assert(tool_keys(m2) =~= tool_keys(m).push(k));
        assert(no_dups(tool_keys(m2))) by {
            let ks = tool_keys(m2);
            assert forall|a: int, b: int| 0 <= a < b < ks.len() implies ks[a] != ks[b] by {
                if b == ks.len() - 1 {
                    if ks[a] == k {
                        assert(m[a].0 == k);
                    }
                } else {
                    assert(tool_keys(m)[a] != tool_keys(m)[b]);
                }
            }
        }
        lemma_count_at(m2, k, m.len() as int);
        if j != k {
            if has_key(m, j) {
                let p = choose|p: int| 0 <= p < m.len() && m[p].0 == j;
                lemma_count_at(m, j, p);
                assert(m2[p] == m[p]);
                lemma_count_at(m2, j, p);
            } else {
                lemma_count_absent(m, j);
                assert(!has_key(m2, j)) by {
                    if has_key(m2, j) {
                        let p = choose|p: int| 0 <= p < m2.len() && m2[p].0 == j;
                        if p < m.len() {
                            assert(m[p].0 == j);
                        }
                    }
                }
                lemma_count_absent(m2, j);
            }
        }
    }
}

/// The achievement a session earns is the first that applies: a clean
/// start (at least one command, no error), problem solver (3 or more errors
/// resolved), port detective (`lsof`, `netstat` or `ss` used), container
/// captain (`docker` or `kubectl` used), explorer (5 or more different
/// tools); none otherwise.
pub proof fn law_achievement_rules(s: SessionStats)
    ensures
        s.commands_executed >= 1 && s.errors_encountered == 0
            ==> achievement_of(s) == Some(("Clean Start"@, "Completed session with no errors"@, "✨"@)),
        !(s.commands_executed >= 1 && s.errors_encountered == 0) && s.errors_resolved >= 3
            ==> achievement_of(s) == Some(("Problem Solver"@, "Resolved 3 or more errors in one session"@, "🔧"@)),
        !(s.commands_executed >= 1 && s.errors_encountered == 0) && s.errors_resolved < 3
            && (used_tool(s, "lsof"@) || used_tool(s, "netstat"@) || used_tool(s, "ss"@))
            ==> achievement_of(s) == Some(("Port Detective"@, "Used network debugging tools"@, "🔍"@)),
        !(s.commands_executed >= 1 && s.errors_encountered == 0) && s.errors_resolved < 3
            && !(used_tool(s, "lsof"@) || used_tool(s, "netstat"@) || used_tool(s, "ss"@))
            && (used_tool(s, "docker"@) || used_tool(s, "kubectl"@))
            ==> achievement_of(s) == Some(("Container Captain"@, "Worked with containers or Kubernetes"@, "🚀"@)),
        !(s.commands_executed >= 1 && s.errors_encountered == 0) && s.errors_resolved < 3
            && !(used_tool(s, "lsof"@) || used_tool(s, "netstat"@) || used_tool(s, "ss"@))
            && !(used_tool(s, "docker"@) || used_tool(s, "kubectl"@)) && s.unique_commands@.len() >= 5
            ==> achievement_of(s) == Some(("Explorer"@, "Used 5 or more different commands"@, "🗺️"@)),
        !(s.commands_executed >= 1 && s.errors_encountered == 0) && s.errors_resolved < 3
            && !(used_tool(s, "lsof"@) || used_tool(s, "netstat"@) || used_tool(s, "ss"@))
            && !(used_tool(s, "docker"@) || used_tool(s, "kubectl"@)) && s.unique_commands@.len() < 5
            ==> achievement_of(s) is None,
{
}

} // verus!
