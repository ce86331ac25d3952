//! State of the ReAct troubleshooting loop and the decisions taken between
//! model calls and command runs.
use vstd::prelude::*;
use crate::clock::{elapsed_debug, elapsed_millis, instant_now, system_now};
use crate::text::{byte_boundary, contains, dec, lowercase, owned, starts_with, str_contains, str_trim, to_lowercase, trim, u64_to_dec, views, lines, split_lines, str_starts_with, chars_of, string_of_range};

verus! {

/// Maximum number of iterations before the loop stops.
pub const MAX_ITERATIONS: usize = 20;

/// Maximum total running time, in milliseconds (5 minutes).
pub const MAX_EXECUTION_MILLIS: u128 = 300000;

/// `{:?}` of a string: quoted, with special characters escaped.
pub uninterp spec fn str_debug(s: Seq<char>) -> Seq<char>;

/// Formats a string with `{:?}` (`<str as Debug>::fmt`); the result is named
/// `str_debug`.
#[verifier::external_body]
fn debug_str(s: &str) -> (r: String)
    ensures
        r@ == str_debug(s@),
{
    format!("{:?}", s)
}

/// Type of a step in the ReAct loop.
#[derive(Debug, Clone, Copy, PartialEq, Eq, Structural)]
pub enum StepType {
    Thought,
    Action,
    Observation,
    Reflection,
    Solution,
}

/// `{:?}` of a step type.
pub open spec fn step_type_name(t: StepType) -> Seq<char> {
    match t {
        StepType::Thought => "Thought"@,
        StepType::Action => "Action"@,
        StepType::Observation => "Observation"@,
        StepType::Reflection => "Reflection"@,
        StepType::Solution => "Solution"@,
    }
}

/// A single step of the loop.
#[derive(Debug, Clone)]
pub struct AgentStep {
    /// Step number (1-indexed).
    pub step_number: usize,
    /// Type of this step.
    pub step_type: StepType,
    /// Content (thought, command, observation, ...).
    pub content: String,
    /// Tool used, for an action.
    pub tool_used: Option<String>,
    /// Success, for an observation.
    pub success: Option<bool>,
    /// When the step was taken.
    pub timestamp: std::time::SystemTime,
    /// Explanation of the command, in explain mode.
    pub explanation: Option<String>,
}

/// Status of the loop.
#[derive(Debug, Clone, PartialEq, Eq)]
pub enum AgentStatus {
    Running,
    Completed,
    AwaitingConfirmation,
    Failed(String),
    Stopped(String),
}

/// `{:?}` of a status.
pub open spec fn status_debug(s: AgentStatus) -> Seq<char> {
    match s {
        AgentStatus::Running => "Running"@,
        AgentStatus::Completed => "Completed"@,
        AgentStatus::AwaitingConfirmation => "AwaitingConfirmation"@,
        AgentStatus::Failed(m) => "Failed("@ + str_debug(m@) + ")"@,
        AgentStatus::Stopped(m) => "Stopped("@ + str_debug(m@) + ")"@,
    }
}

/// State of the loop.
#[derive(Debug, Clone)]
pub struct AgentState {
    /// Task description.
    pub task: String,
    /// Current status.
    pub status: AgentStatus,
    /// All steps so far.
    pub history: Vec<AgentStep>,
    /// Information collected: (command, observation).
    pub collected_info: Vec<(String, String)>,
    /// Identified root cause.
    pub root_cause: Option<String>,
    /// Proposed solution plan.
    pub solution_plan: Option<Vec<String>>,
    /// Iteration count.
    pub iteration: usize,
    /// When the loop started.
    pub start_time: std::time::Instant,
}

/// The last `count` steps of type `t`, most recent first.
pub open spec fn recent_steps(h: Seq<AgentStep>, t: StepType, count: nat) -> Seq<AgentStep>
    decreases h.len(),
{
    if h.len() == 0 || count == 0 {
        Seq::empty()
    } else if h.last().step_type == t {
        seq![h.last()] + recent_steps(h.drop_last(), t, (count - 1) as nat)
    } else {
        recent_steps(h.drop_last(), t, count)
    }
}

/// The steps a list of references points at.
pub open spec fn derefs(v: Seq<&AgentStep>) -> Seq<AgentStep> {
    v.map_values(|s: &AgentStep| *s)
}

/// Number of steps of type `t`.
pub open spec fn count_steps(h: Seq<AgentStep>, t: StepType) -> nat
    decreases h.len(),
{
    if h.len() == 0 {
        0
    } else {
        count_steps(h.drop_last(), t) + if h.last().step_type == t { 1nat } else { 0nat }
    }
}

/// Steps are numbered 1, 2, 3, ... in the order they were taken.
pub open spec fn steps_numbered(h: Seq<AgentStep>) -> bool {
    forall|i: int| 0 <= i < h.len() ==> #[trigger] h[i].step_number == i + 1
}

/// Whether the loop may go on after `elapsed_ms` milliseconds.
pub open spec fn may_continue(s: AgentState, elapsed_ms: u128) -> bool {
    s.status == AgentStatus::Running && s.iteration < MAX_ITERATIONS && elapsed_ms < MAX_EXECUTION_MILLIS
}

/// The summary text of a state, given the formatted duration.
pub open spec fn summary_text(s: AgentState, duration: Seq<char>) -> Seq<char> {
    "Task: "@ + s.task@ + "\nStatus: "@ + status_debug(s.status) + "\nSteps: "@ + dec(s.history@.len())
        + " (Actions: "@ + dec(count_steps(s.history@, StepType::Action)) + ")\nDuration: "@ + duration
}

impl AgentState {
    /// A running state for a task, with no steps.
    pub fn new(task: String) -> (r: Self)
        ensures
            r.task == task,
            r.status == AgentStatus::Running,
            r.history@.len() == 0,
            r.collected_info@.len() == 0,
            r.root_cause is None,
            r.solution_plan is None,
            r.iteration == 0,
    {
        AgentState {
            task,
            status: AgentStatus::Running,
            history: Vec::new(),
            collected_info: Vec::new(),
            root_cause: None,
            solution_plan: None,
            iteration: 0,
            start_time: instant_now(),
        }
    }

    /// Appends a step numbered after the existing ones.
    pub fn add_step(&mut self, step_type: StepType, content: String, tool_used: Option<String>, success: Option<bool>)
        requires
            old(self).history@.len() < usize::MAX,
        ensures
            final(self).history@.len() == old(self).history@.len() + 1,
            final(self).history@.drop_last() == old(self).history@,
            final(self).history@.last().step_number == old(self).history@.len() + 1,
            final(self).history@.last().step_type == step_type,
            final(self).history@.last().content == content,
            final(self).history@.last().tool_used == tool_used,
            final(self).history@.last().success == success,
            final(self).history@.last().explanation is None,
            steps_numbered(old(self).history@) ==> steps_numbered(final(self).history@),
            final(self).task == old(self).task,
            final(self).status == old(self).status,
            final(self).iteration == old(self).iteration,
            final(self).collected_info == old(self).collected_info,
            final(self).root_cause == old(self).root_cause,
            final(self).solution_plan == old(self).solution_plan,
            final(self).start_time == old(self).start_time,
    {
        let step = AgentStep {
            step_number: self.history.len() + 1,
            step_type,
            content,
            tool_used,
            success,
            timestamp: system_now(),
            explanation: None,
        };
        self.history.push(step);
        assert(self.history@.drop_last() =~= old(self).history@);
    }

    /// Sets the explanation of the last step, if there is one.
    pub fn set_last_step_explanation(&mut self, explanation: String)
        ensures
            final(self).history@.len() == old(self).history@.len(),
            old(self).history@.len() > 0 ==> final(self).history@ == old(self).history@.update(
                old(self).history@.len() - 1,
                AgentStep { explanation: Some(explanation), ..old(self).history@.last() },
            ),
            old(self).history@.len() == 0 ==> *final(self) == *old(self),
            final(self).task == old(self).task,
            final(self).status == old(self).status,
            final(self).iteration == old(self).iteration,
            final(self).collected_info == old(self).collected_info,
            final(self).root_cause == old(self).root_cause,
            final(self).solution_plan == old(self).solution_plan,
            final(self).start_time == old(self).start_time,
    {
        let n = self.history.len();
        if n > 0 {
            let mut last = self.history.pop().unwrap();
            last.explanation = Some(explanation);
            self.history.push(last);
            assert(self.history@ =~= old(self).history@.update(n - 1, self.history@[n - 1]));
        }
    }

    /// Whether the loop may go on after `elapsed_ms` milliseconds: it is
    /// running, under the iteration limit and under the time limit.
    pub fn should_continue_after(&self, elapsed_ms: u128) -> (b: bool)
        ensures
            b == may_continue(*self, elapsed_ms),
    {
        match self.status {
            AgentStatus::Running => {
                if self.iteration >= MAX_ITERATIONS {
                    return false;
                }
                if elapsed_ms >= MAX_EXECUTION_MILLIS {
                    return false;
                }
                true
            },
            _ => false,
        }
    }

    /// Whether the loop may go on now.
    pub fn should_continue(&self) -> (b: bool)
        ensures
            b ==> self.status == AgentStatus::Running && self.iteration < MAX_ITERATIONS,
            !(self.status == AgentStatus::Running && self.iteration < MAX_ITERATIONS) ==> !b,
            exists|elapsed_ms: u128| b == may_continue(*self, elapsed_ms),
    {
        let e = elapsed_millis(&self.start_time);
        let b = self.should_continue_after(e);
        assert(b == may_continue(*self, e));
        b
    }

    /// The last `count` steps of a type, most recent first.
    pub fn get_recent_steps(&self, step_type: StepType, count: usize) -> (r: Vec<&AgentStep>)
        ensures
            derefs(r@) == recent_steps(self.history@, step_type, count as nat),
    {
        let mut r: Vec<&AgentStep> = Vec::new();
        let mut i: usize = self.history.len();
        let mut left = count;
        assert(self.history@.take(i as int) =~= self.history@);
        while i > 0 && left > 0
            invariant
                i <= self.history@.len(),
                left <= count,
                recent_steps(self.history@, step_type, count as nat) == derefs(r@) + recent_steps(self.history@.take(i as int), step_type, left as nat),
            decreases i,
        {
            let s = &self.history[i - 1];
            let ghost h = self.history@.take(i as int);
            assert(h.drop_last() =~= self.history@.take(i - 1));
            assert(h.last() == *s);
            if s.step_type == step_type {
                let ghost before = derefs(r@);
                r.push(s);
                assert(derefs(r@) =~= before + seq![*s]);
                left = left - 1;
            }
            i = i - 1;
        }
        assert(recent_steps(self.history@.take(i as int), step_type, left as nat) =~= Seq::empty());
        assert(derefs(r@) =~= derefs(r@) + Seq::<AgentStep>::empty());
        r
    }

    /// Number of steps of a type.
    pub fn count_steps_of(&self, step_type: StepType) -> (n: usize)
        ensures
            n == count_steps(self.history@, step_type),
    {
        let mut n: usize = 0;
        let mut i: usize = 0;
        assert(self.history@.take(0) =~= Seq::<AgentStep>::empty());
        while i < self.history.len()
            invariant
                i <= self.history@.len(),
                n <= i,
                n == count_steps(self.history@.take(i as int), step_type),
            decreases self.history@.len() - i,
        {
            assert(self.history@.take(i + 1).drop_last() =~= self.history@.take(i as int));
            if self.history[i].step_type == step_type {
                n = n + 1;
            }
            i = i + 1;
        }
        assert(self.history@.take(i as int) =~= self.history@);
        n
    }

    /// The summary text, given the formatted duration.
    pub fn summary_with_duration(&self, duration: &str) -> (r: String)
        ensures
            r@ == summary_text(*self, duration@),
    {
        let mut r = owned("Task: ");
        r.append(self.task.as_str());
        r.append("\nStatus: ");
        let st = status_debug_string(&self.status);
        r.append(st.as_str());
        r.append("\nSteps: ");
        let n = u64_to_dec(self.history.len() as u64);
        r.append(n.as_str());
        r.append(" (Actions: ");
        let a = self.count_steps_of(StepType::Action);
        let an = u64_to_dec(a as u64);
        r.append(an.as_str());
        r.append(")\nDuration: ");
        r.append(duration);
        r
    }

    /// A summary of the run so far.
    pub fn summary(&self) -> (r: String)
        ensures
            exists|d: Seq<char>| r@ == summary_text(*self, d),
    {
        let d = elapsed_debug(&self.start_time);
        self.summary_with_duration(d.as_str())
    }
}

/// `{:?}` of a status.
pub fn status_debug_string(s: &AgentStatus) -> (r: String)
    ensures
        r@ == status_debug(*s),
{
    match s {
        AgentStatus::Running => owned("Running"),
        AgentStatus::Completed => owned("Completed"),
        AgentStatus::AwaitingConfirmation => owned("AwaitingConfirmation"),
        AgentStatus::Failed(m) => {
            let mut r = owned("Failed(");
            let d = debug_str(m.as_str());
            r.append(d.as_str());
            r.append(")");
            r
        },
        AgentStatus::Stopped(m) => {
            let mut r = owned("Stopped(");
            let d = debug_str(m.as_str());
            r.append(d.as_str());
            r.append(")");
            r
        },
    }
}


/// A parsed action: which tool runs which command.
#[derive(Debug, Clone)]
pub struct ActionCommand {
    pub tool_name: String,
    pub command: String,
}

/// What running a command gave.
#[derive(Debug, Clone)]
pub struct ToolOutput {
    pub exit_code: i32,
    pub stdout: String,
    pub stderr: String,
}

/// A thought (in lower case) that declares the task finished.
pub open spec fn completion_words(l: Seq<char>) -> bool {
    contains(l, "solution:"@) || contains(l, "task complete"@) || contains(l, "problem solved"@)
}

/// The observation recorded for a command's output.
pub open spec fn observation_text(r: ToolOutput) -> Seq<char> {
    if r.exit_code == 0 {
        if r.stdout@.len() > 0 { r.stdout@ } else { "Command executed successfully (no output)"@ }
    } else {
        "Command failed (exit code "@ + crate::text::dec_int(r.exit_code as int) + "): "@
            + if r.stderr@.len() > 0 { r.stderr@ } else { r.stdout@ }
    }
}

/// Position of the first space in `s`.
pub open spec fn first_space(s: Seq<char>) -> Option<int> {
    if exists|i: int| 0 <= i < s.len() && s[i] == ' ' {
        Some(choose|i: int| 0 <= i < s.len() && s[i] == ' ' && forall|j: int| 0 <= j < i ==> s[j] != ' ')
    } else {
        None
    }
}

/// The action written on an action line (after `ACTION:`), split at the
/// first space into tool and command.
pub open spec fn action_of_line(line: Seq<char>) -> Option<(Seq<char>, Seq<char>)> {
    let content = trim(crate::text::skip_bytes(trim(line), 7));
    match first_space(content) {
        Some(p) => Some((content.take(p), content.skip(p + 1))),
        None => None,
    }
}

/// A line is an action line: trimmed and lower-cased, it starts with
/// `action:`.
pub open spec fn is_action_line(line: Seq<char>) -> bool {
    starts_with(lowercase(trim(line)), "action:"@)
}

/// Position of the first action line.
pub open spec fn first_action_line(ls: Seq<Seq<char>>) -> Option<int> {
    if exists|i: int| 0 <= i < ls.len() && is_action_line(ls[i]) {
        Some(choose|i: int| 0 <= i < ls.len() && is_action_line(ls[i]) && forall|j: int| 0 <= j < i ==> !is_action_line(ls[j]))
    } else {
        None
    }
}

/// Cutting the `ACTION:` prefix off the first action line cuts between
/// characters (else the original slicing panics).
pub open spec fn action_cut_ok(thought: Seq<char>) -> bool {
    match first_action_line(lines(thought)) {
        Some(i) => byte_boundary(trim(lines(thought)[i]), 7),
        None => true,
    }
}

/// The action a thought asks for: `tool command` from the first action
/// line when it holds a space, else the whole thought run by the shell.
pub open spec fn parsed_action(thought: Seq<char>) -> (Seq<char>, Seq<char>) {
    match first_action_line(lines(thought)) {
        Some(i) => match action_of_line(lines(thought)[i]) {
            Some(a) => a,
            None => ("shell"@, thought),
        },
        None => ("shell"@, thought),
    }
}

/// Whether a thought given in lower case declares the task finished.
pub fn is_completion_lowered(thought_lower: &str) -> (b: bool)
    ensures
        b == completion_words(thought_lower@),
        b <==> (contains(thought_lower@, "solution:"@) || contains(thought_lower@, "task complete"@) || contains(thought_lower@, "problem solved"@)),
{
    str_contains(thought_lower, "solution:") || str_contains(thought_lower, "task complete")
        || str_contains(thought_lower, "problem solved")
}

/// Whether a thought declares the task finished, case ignored.
pub fn is_completion_thought(thought: &str) -> (b: bool)
    ensures
        b == completion_words(lowercase(thought@)),
        b <==> (contains(lowercase(thought@), "solution:"@) || contains(lowercase(thought@), "task complete"@) || contains(lowercase(thought@), "problem solved"@)),
{
    let l = to_lowercase(thought);
    is_completion_lowered(l.as_str())
}

/// A thought is a completion thought exactly when its lower-case form
/// contains `solution:`, `task complete` or `problem solved`; any other
/// thought asks for an action.
pub proof fn law_completion_words(thought: Seq<char>)
    ensures
        completion_words(lowercase(thought)) <==> (contains(lowercase(thought), "solution:"@) || contains(lowercase(thought), "task complete"@) || contains(lowercase(thought), "problem solved"@)),
        contains(lowercase(thought), "task complete"@) ==> completion_words(lowercase(thought)),
        contains(lowercase(thought), "solution:"@) ==> completion_words(lowercase(thought)),
        contains(lowercase(thought), "problem solved"@) ==> completion_words(lowercase(thought)),
{
}

/// Whether a line given trimmed and in lower case is an action line.
pub fn is_action_line_lowered(trimmed_lower: &str) -> (b: bool)
    ensures
        b == starts_with(trimmed_lower@, "action:"@),
{
    str_starts_with(trimmed_lower, "action:")
}

/// The position of the first space in `v`.
fn find_space(v: &Vec<char>) -> (r: Option<usize>)
    ensures
        match r {
            Some(p) => p < v@.len() && first_space(v@) == Some(p as int),
            None => first_space(v@) is None,
        },
{
    let mut i: usize = 0;
    while i < v.len()
        invariant
            i <= v.len(),
            forall|j: int| 0 <= j < i ==> v@[j] != ' ',
        decreases v.len() - i,
    {
        if v[i] == ' ' {
            proof {
                let c = choose|c: int| 0 <= c < v@.len() && v@[c] == ' ' && forall|j: int| 0 <= j < c ==> v@[j] != ' ';
                if c < i {
                } else if c > i {
                }
            }
            return Some(i);
        }
        i = i + 1;
    }
    None
}

/// Whether `parse_action_from_thought` can cut the thought where it needs
/// to (after `ACTION:` on its first action line).
pub fn action_cut_fits(thought: &str) -> (r: bool)
    ensures
        r == action_cut_ok(thought@),
{
    let ls = split_lines(thought);
    let mut i: usize = 0;
    while i < ls.len()
        invariant
            i <= ls.len(),
            views(ls@) == lines(thought@),
            forall|j: int| 0 <= j < i ==> !is_action_line(#[trigger] views(ls@)[j]),
        decreases ls.len() - i,
    {
        let t = str_trim(ls[i].as_str());
        let tl = to_lowercase(t.as_str());
        if is_action_line_lowered(tl.as_str()) {
            proof {
                assert(is_action_line(views(ls@)[i as int]));
                let c = choose|c: int| 0 <= c < views(ls@).len() && is_action_line(views(ls@)[c]) && forall|j: int| 0 <= j < c ==> !is_action_line(views(ls@)[j]);
                if c < i {
                } else if c > i {
                }
                assert(first_action_line(lines(thought@)) == Some(i as int));
            }
            return crate::text::is_byte_boundary(t.as_str(), 7);
        }
        i = i + 1;
    }
    proof {
        if first_action_line(lines(thought@)) is Some {
            let c = choose|c: int| 0 <= c < views(ls@).len() && is_action_line(views(ls@)[c]) && forall|j: int| 0 <= j < c ==> !is_action_line(views(ls@)[j]);
            assert(!is_action_line(views(ls@)[c]));
        }
    }
    true
}

/// The action a thought asks for: from its first `ACTION: tool command`
/// line, else the whole thought run by the shell.
pub fn parse_action_from_thought(thought: &str) -> (r: ActionCommand)
    requires
        action_cut_ok(thought@),
    ensures
        (r.tool_name@, r.command@) == parsed_action(thought@),
{
    let ls = split_lines(thought);
    let mut i: usize = 0;
    while i < ls.len()
        invariant
            i <= ls.len(),
            views(ls@) == lines(thought@),
            action_cut_ok(thought@),
            forall|j: int| 0 <= j < i ==> !is_action_line(#[trigger] views(ls@)[j]),
        decreases ls.len() - i,
    {
        let t = str_trim(ls[i].as_str());
        let tl = to_lowercase(t.as_str());
        if is_action_line_lowered(tl.as_str()) {
            proof {
                assert(is_action_line(views(ls@)[i as int]));
                let c = choose|c: int| 0 <= c < views(ls@).len() && is_action_line(views(ls@)[c]) && forall|j: int| 0 <= j < c ==> !is_action_line(views(ls@)[j]);
                if c < i {
                } else if c > i {
                }
                assert(first_action_line(lines(thought@)) == Some(i as int));
            }
            let rest = crate::text::suffix_bytes(t.as_str(), 7);
            let content = str_trim(rest.as_str());
            let cv = chars_of(content.as_str());
            match find_space(&cv) {
                Some(p) => {
                    let tool = string_of_range(&cv, 0, p);
                    let command = string_of_range(&cv, p + 1, cv.len());
                    assert(cv@.subrange(0, p as int) =~= cv@.take(p as int));
                    assert(cv@.subrange(p + 1, cv@.len() as int) =~= cv@.skip(p + 1));
                    return ActionCommand { tool_name: tool, command };
                },
                None => {
                    return ActionCommand { tool_name: owned("shell"), command: owned(thought) };
                },
            }
        }
        i = i + 1;
    }
    proof {
        if first_action_line(lines(thought@)) is Some {
            let c = choose|c: int| 0 <= c < views(ls@).len() && is_action_line(views(ls@)[c]) && forall|j: int| 0 <= j < c ==> !is_action_line(views(ls@)[j]);
            assert(!is_action_line(views(ls@)[c]));
        }
    }
    ActionCommand { tool_name: owned("shell"), command: owned(thought) }
}

/// The observation recorded for a command's output.
pub fn format_observation(result: &ToolOutput) -> (r: String)
    ensures
        r@ == observation_text(*result),
{
    if result.exit_code == 0 {
        if !result.stdout.as_str().is_empty() {
            result.stdout.clone()
        } else {
            owned("Command executed successfully (no output)")
        }
    } else {
        let mut r = owned("Command failed (exit code ");
        let d = crate::text::i64_to_dec(result.exit_code as i64);
        r.append(d.as_str());
        r.append("): ");
        if !result.stderr.as_str().is_empty() {
            r.append(result.stderr.as_str());
        } else {
            r.append(result.stdout.as_str());
        }
        r
    }
}

/// The ReAct loop: its state, and whether commands are explained.
pub struct AgentLoop {
    state: AgentState,
    explain_mode: bool,
}

impl View for AgentLoop {
    type V = (AgentState, bool);

    /// The state, and whether explain mode is on.
    closed spec fn view(&self) -> (AgentState, bool) {
        (self.state, self.explain_mode)
    }
}

impl AgentLoop {
    /// A loop for a task, with explain mode on.
    pub fn new(task: String) -> (r: Self)
        ensures
            r@.0.task == task,
            r@.0.status == AgentStatus::Running,
            r@.0.history@.len() == 0,
            r@.0.iteration == 0,
            r@.1,
    {
        AgentLoop { state: AgentState::new(task), explain_mode: true }
    }

    /// Turns explain mode on or off.
    pub fn with_explain_mode(self, enabled: bool) -> (r: Self)
        ensures
            r@ == (self@.0, enabled),
    {
        AgentLoop { explain_mode: enabled, ..self }
    }

    /// Whether explain mode is on.
    pub fn explain_mode(&self) -> (b: bool)
        ensures
            b == self@.1,
    {
        self.explain_mode
    }

    /// The current state.
    pub fn state(&self) -> (r: &AgentState)
        ensures
            *r == self@.0,
    {
        &self.state
    }

    /// The current state, for changing it.
    pub fn state_mut(&mut self) -> (r: &mut AgentState)
        ensures
            *r == old(self)@.0,
            final(self)@ == (*final(r), old(self)@.1),
    {
        &mut self.state
    }

    /// Starts an iteration after `elapsed_ms` milliseconds: when the loop
    /// may go on, counts the iteration; otherwise stops it, saying whether
    /// the iteration or the time limit was reached.
    pub fn begin_iteration(&mut self, elapsed_ms: u128) -> (go: bool)
        ensures
            go == may_continue(old(self)@.0, elapsed_ms),
            go ==> final(self)@.0 == (AgentState { iteration: (old(self)@.0.iteration + 1) as usize, ..old(self)@.0 }),
            !go && old(self)@.0.iteration >= MAX_ITERATIONS ==> final(self)@.0.status == AgentStatus::Stopped(
                final(self)@.0.status->Stopped_0,
            ) && final(self)@.0.status->Stopped_0@ == "Maximum iterations reached"@,
            !go && old(self)@.0.iteration < MAX_ITERATIONS && elapsed_ms >= MAX_EXECUTION_MILLIS
                ==> final(self)@.0.status->Stopped_0@ == "Maximum execution time exceeded"@ && final(self)@.0.status is Stopped,
            !go && old(self)@.0.iteration < MAX_ITERATIONS && elapsed_ms < MAX_EXECUTION_MILLIS ==> final(self)@ == old(self)@,
            final(self)@.1 == old(self)@.1,
    {
        if !self.state.should_continue_after(elapsed_ms) {
            if self.state.iteration >= MAX_ITERATIONS {
                self.state.status = AgentStatus::Stopped(owned("Maximum iterations reached"));
            } else if elapsed_ms >= MAX_EXECUTION_MILLIS {
                self.state.status = AgentStatus::Stopped(owned("Maximum execution time exceeded"));
            }
            return false;
        }
        self.state.iteration = self.state.iteration + 1;
        true
    }
}


/// Instructions closing the thought prompt.
pub const THOUGHT_INSTRUCTIONS: &'static str = "Think about what to do next:\n\nTo gather information, respond with:\nACTION: [tool_name] [command]\nExample: ACTION: nginx nginx -t\nExample: ACTION: network netstat -tuln\nExample: ACTION: apache2 apache2ctl -S\n\nWhen you've identified the root cause, respond with:\nSOLUTION: [explanation and fix]\n\nYour thought:";

/// Questions closing the reflection prompt.
pub const REFLECTION_QUESTIONS: &'static str = "\n\nReflect on progress:\n- Are you making progress toward the goal?\n- Have you identified the root cause?\n- What information is still missing?\n- Should you continue investigating or propose a solution?\n\nYour reflection:";

/// The content of the latest observation, or `No observation`.
pub open spec fn latest_observation(h: Seq<AgentStep>) -> Seq<char> {
    let r = recent_steps(h, StepType::Observation, 1);
    if r.len() > 0 { r[0].content@ } else { "No observation"@ }
}

/// The reflection prompt for a state.
pub open spec fn reflection_prompt(s: AgentState) -> Seq<char> {
    "Task: "@ + s.task@ + "\nLatest observation: "@ + latest_observation(s.history@) + REFLECTION_QUESTIONS@
}

/// One history line of the thought prompt.
pub open spec fn history_line(step: AgentStep) -> Seq<char> {
    "Step "@ + dec(step.step_number as nat) + ": "@ + step_type_name(step.step_type) + " - "@
        + (if step.content@.len() > 150 { step.content@.take(150) } else { step.content@ }) + "\n"@
}

/// History lines for a list of steps.
pub open spec fn history_lines(steps: Seq<AgentStep>) -> Seq<char>
    decreases steps.len(),
{
    if steps.len() == 0 { Seq::empty() } else { history_lines(steps.drop_last()) + history_line(steps.last()) }
}

/// Appends the history line of `step` to `r`.
fn push_history_line(r: &mut String, step: &AgentStep)
    ensures
        final(r)@ == old(r)@ + history_line(*step),
{
    let ghost start = r@;
    r.append("Step ");
    let n = u64_to_dec(step.step_number as u64);
    r.append(n.as_str());
    r.append(": ");
    r.append(step_type_debug(step.step_type));
    r.append(" - ");
    let cv = chars_of(step.content.as_str());
    let k = if cv.len() > 150 { 150 } else { cv.len() };
    let preview = string_of_range(&cv, 0, k);
    proof {
        if cv@.len() > 150 {
            assert(cv@.subrange(0, 150) =~= cv@.take(150));
        } else {
            assert(cv@.subrange(0, cv@.len() as int) =~= cv@);
        }
    }
    r.append(preview.as_str());
    r.append("\n");
    assert(r@ =~= start + history_line(*step));
}

/// The thought prompt for a state and the names of the available tools:
/// the task, the tools, the last six steps, then the instructions.
pub open spec fn thought_prompt(s: AgentState, tools: Seq<Seq<char>>) -> Seq<char> {
    let h = s.history@;
    let head = "You are an autonomous ops troubleshooting agent.\nTask: "@ + s.task@ + "\n\nAvailable tools: "@
        + crate::text::join(tools, ", "@) + "\n\n"@;
    let hist = if h.len() > 0 {
        "What you've done so far:\n"@ + history_lines(if h.len() > 6 { h.skip(h.len() - 6) } else { h }) + "\n"@
    } else {
        Seq::empty()
    };
    head + hist + THOUGHT_INSTRUCTIONS@
}

/// `{:?}` of a step type.
fn step_type_debug(t: StepType) -> (r: &'static str)
    ensures
        r@ == step_type_name(t),
{
    match t {
        StepType::Thought => "Thought",
        StepType::Action => "Action",
        StepType::Observation => "Observation",
        StepType::Reflection => "Reflection",
        StepType::Solution => "Solution",
    }
}

impl AgentLoop {
    /// The prompt asking the model to reflect on the latest observation.
    pub fn build_reflection_prompt(&self) -> (r: String)
        ensures
            r@ == reflection_prompt(self@.0),
    {
        let recent = self.state.get_recent_steps(StepType::Observation, 1);
        let mut r = owned("Task: ");
        r.append(self.state.task.as_str());
        r.append("\nLatest observation: ");
        if recent.len() > 0 {
            r.append(recent[0].content.as_str());
        } else {
            r.append("No observation");
        }
        r.append(REFLECTION_QUESTIONS);
        r
    }

    /// The prompt asking the model for its next thought, given the names of
    /// the available tools.
    pub fn build_thought_prompt(&self, available_tools: &Vec<String>) -> (r: String)
        ensures
            r@ == thought_prompt(self@.0, views(available_tools@)),
    {
        let mut r = owned("You are an autonomous ops troubleshooting agent.\nTask: ");
        r.append(self.state.task.as_str());
        r.append("\n\nAvailable tools: ");
        let tools = crate::text::join_strings(available_tools, ", ");
        r.append(tools.as_str());
        r.append("\n\n");
        let ghost head = r@;
        let h = &self.state.history;
        if h.len() > 0 {
            r.append("What you've done so far:\n");
            let start: usize = if h.len() > 6 { h.len() - 6 } else { 0 };
            let ghost shown = if h@.len() > 6 { h@.skip(h@.len() - 6) } else { h@ };
            let ghost before = r@;
            assert(h@.skip(start as int) =~= shown);
            let mut i = start;
            assert(shown.take(0) =~= Seq::<AgentStep>::empty());
            while i < h.len()
                invariant
                    start <= i <= h@.len(),
                    shown == h@.skip(start as int),
                    r@ == before + history_lines(shown.take(i - start)),
                decreases h@.len() - i,
            {
                push_history_line(&mut r, &h[i]);
                proof {
                    let t = shown.take(i + 1 - start);
                    assert(t.drop_last() =~= shown.take(i - start));
                    assert(t.last() == h@[i as int]);
                }
                i = i + 1;
            }
            assert(shown.take(i - start) =~= shown);
            r.append("\n");
        }
        r.append(THOUGHT_INSTRUCTIONS);
        r
    }
}

/// What the loop does once the model has given its thought.
#[derive(Debug, Clone)]
pub enum ThoughtOutcome {
    /// The thought declares the task finished: the loop is complete.
    Completed,
    /// Run this action, then report its output with `on_observation`.
    Run(ActionCommand),
}

/// The step recorded for a thought, an action or an observation.
pub open spec fn is_step(
    s: AgentStep,
    number: nat,
    t: StepType,
    content: Seq<char>,
    tool: Option<Seq<char>>,
    success: Option<bool>,
) -> bool {
    &&& s.step_number == number
    &&& s.step_type == t
    &&& s.content@ == content
    &&& crate::text::opt_view(s.tool_used) == tool
    &&& s.success == success
    &&& s.explanation is None
}

impl AgentLoop {
    /// Takes the model's thought for this iteration: records it; when it
    /// declares the task finished, completes the loop; otherwise records
    /// the action it asks for and hands that action back to be run.
    pub fn on_thought(&mut self, thought: String) -> (r: ThoughtOutcome)
        requires
            old(self)@.0.history@.len() + 2 < usize::MAX,
            action_cut_ok(thought@),
        ensures
            ({
                let h0 = old(self)@.0.history@;
                let h = final(self)@.0.history@;
                &&& h.take(h0.len() as int) == h0
                &&& h.len() > h0.len()
                &&& is_step(h[h0.len() as int], h0.len() + 1, StepType::Thought, thought@, None, None)
                &&& steps_numbered(h0) ==> steps_numbered(h)
                &&& final(self)@.0.task == old(self)@.0.task
                &&& final(self)@.0.iteration == old(self)@.0.iteration
                &&& final(self)@.0.collected_info == old(self)@.0.collected_info
                &&& final(self)@.1 == old(self)@.1
                &&& (r is Completed) <==> (contains(lowercase(thought@), "solution:"@) || contains(lowercase(thought@), "task complete"@) || contains(lowercase(thought@), "problem solved"@))
                &&& if completion_words(lowercase(thought@)) {
                    &&& r is Completed
                    &&& h.len() == h0.len() + 1
                    &&& final(self)@.0.status == AgentStatus::Completed
                } else {
                    &&& r matches ThoughtOutcome::Run(a)
                    &&& (a.tool_name@, a.command@) == parsed_action(thought@)
                    &&& h.len() == h0.len() + 2
                    &&& is_step(h[(h0.len() + 1) as int], h0.len() + 2, StepType::Action, a.command@, Some(a.tool_name@), None)
                    &&& final(self)@.0.status == old(self)@.0.status
                }
            }),
    {
        let ghost h0 = self.state.history@;
        let done = is_completion_thought(thought.as_str());
        let action = if done {
            None
        } else {
            Some(parse_action_from_thought(thought.as_str()))
        };
        self.state.add_step(StepType::Thought, thought, None, None);
        proof {
            assert(self.state.history@.take(h0.len() as int) =~= h0);
        }
        match action {
            None => {
                self.state.status = AgentStatus::Completed;
                ThoughtOutcome::Completed
            },
            Some(a) => {
                let ghost h1 = self.state.history@;
                self.state.add_step(StepType::Action, a.command.clone(), Some(a.tool_name.clone()), None);
                proof {
                    assert(self.state.history@.drop_last() == h1);
                    assert(self.state.history@[h0.len() as int] == h1[h0.len() as int]);
                    assert(self.state.history@.take(h0.len() as int) =~= h0);
                }
                ThoughtOutcome::Run(a)
            },
        }
    }

    /// Takes the output of the action just run: records the observation
    /// (a success when the command exited with 0) and keeps the command
    /// with its observation among the information collected.
    pub fn on_observation(&mut self, action: &ActionCommand, result: &ToolOutput)
        requires
            old(self)@.0.history@.len() + 1 < usize::MAX,
        ensures
            final(self)@.0.history@.drop_last() == old(self)@.0.history@,
            final(self)@.0.history@.len() == old(self)@.0.history@.len() + 1,
            is_step(
                final(self)@.0.history@.last(),
                old(self)@.0.history@.len() + 1,
                StepType::Observation,
                observation_text(*result),
                None,
                Some(result.exit_code == 0),
            ),
            steps_numbered(old(self)@.0.history@) ==> steps_numbered(final(self)@.0.history@),
            final(self)@.0.collected_info@.len() == old(self)@.0.collected_info@.len() + 1,
            final(self)@.0.collected_info@.drop_last() == old(self)@.0.collected_info@,
            final(self)@.0.collected_info@.last().0@ == action.command@,
            final(self)@.0.collected_info@.last().1@ == observation_text(*result),
            final(self)@.0.task == old(self)@.0.task,
            final(self)@.0.status == old(self)@.0.status,
            final(self)@.0.iteration == old(self)@.0.iteration,
            final(self)@.1 == old(self)@.1,
    {
        let observation = format_observation(result);
        let success = result.exit_code == 0;
        self.state.add_step(StepType::Observation, observation.clone(), None, Some(success));
        let ghost c0 = self.state.collected_info@;
        self.state.collected_info.push((action.command.clone(), observation));
        assert(self.state.collected_info@.drop_last() =~= c0);
    }
}

/// The loop goes on exactly while it is running, has taken fewer than 20
/// iterations and has run for less than 300 seconds: a stopped, failed or
/// completed loop, or one that has used its iterations or its time, never
/// takes another step.
pub proof fn law_loop_is_bounded(s: AgentState, elapsed_ms: u128)
    ensures
        may_continue(s, elapsed_ms) ==> s.status == AgentStatus::Running && s.iteration < MAX_ITERATIONS
            && elapsed_ms < MAX_EXECUTION_MILLIS,
        may_continue(s, elapsed_ms) <==> (s.status == AgentStatus::Running && s.iteration < 20
            && elapsed_ms < 300_000),
{
}

/// What is recorded of a command's output: its standard output when it
/// succeeded and printed something; `Command executed successfully (no
/// output)` when it succeeded silently; otherwise `Command failed (exit
/// code N): ` followed by its error output, or its standard output when the
/// error output is empty.
pub proof fn law_observation_text(r: ToolOutput)
    ensures
        r.exit_code == 0 && r.stdout@.len() > 0 ==> observation_text(r) == r.stdout@,
        r.exit_code == 0 && r.stdout@.len() == 0 ==> observation_text(r) == "Command executed successfully (no output)"@,
        r.exit_code != 0 && r.stderr@.len() > 0 ==> observation_text(r)
            == "Command failed (exit code "@ + crate::text::dec_int(r.exit_code as int) + "): "@ + r.stderr@,
        r.exit_code != 0 && r.stderr@.len() == 0 ==> observation_text(r)
            == "Command failed (exit code "@ + crate::text::dec_int(r.exit_code as int) + "): "@ + r.stdout@,
{
}

} // verus!
