//! Recognises errors in the output of failed commands: which kind of error
//! it is, its key message, the file location it names, and the lines around
//! it. The expressions are matched by the `regex` crate.
use crate::matching::{captures_view, regex_captures, regex_captures_of};
use crate::mentor::types::{error_type_of_exit_code, ErrorInfo, ErrorType, SourceLocation};
use crate::text::{
    contains, lines, lowercase, opt_view, owned, parse_u32, parsed_u32, split_lines, str_contains,
    str_eq, str_trim, to_lowercase, trim, views,
};
use vstd::prelude::*;

verus! {

/// An expression that marks a kind of error, and which group of its match
/// is the key message (0 for the whole match).
#[derive(Debug, Clone, Copy)]
pub struct ErrorPattern {
    pub pattern: &'static str,
    pub error_type: ErrorType,
    pub key_group: usize,
}

/// Recognises errors in command output.
pub struct ErrorDetector {
    patterns: Vec<ErrorPattern>,
    location_pattern: &'static str,
}

/// A pattern as plain values.
pub open spec fn pattern_view(p: ErrorPattern) -> (Seq<char>, ErrorType, usize) {
    (p.pattern@, p.error_type, p.key_group)
}

impl View for ErrorDetector {
    /// The patterns, tried in order, and the expression for file locations.
    type V = (Seq<(Seq<char>, ErrorType, usize)>, Seq<char>);

    closed spec fn view(&self) -> (Seq<(Seq<char>, ErrorType, usize)>, Seq<char>) {
        (self.patterns@.map_values(|p: ErrorPattern| pattern_view(p)), self.location_pattern@)
    }
}

/// Number of built-in patterns.
pub const PATTERN_COUNT: usize = 41;

/// The expression for `/path:line` or `/path:line:column`.
pub const LOCATION_PATTERN: &'static str = r"(?:^|[:\s])(/[^\s:]+):(\d+)(?::(\d+))?";

/// The built-in pattern at position `k`; more specific patterns come first.
pub open spec fn builtin_pattern(k: int) -> (Seq<char>, ErrorType, usize) {
    if k == 0 {
        (r"(?i)(?:command not found|not found):\s*(\S+)"@, ErrorType::CommandNotFound, 0usize)
    } else if k == 1 {
        (r"(?i)(\S+):\s*command not found"@, ErrorType::CommandNotFound, 0usize)
    } else if k == 2 {
        (r"(?i)permission denied"@, ErrorType::PermissionDenied, 0usize)
    } else if k == 3 {
        (r"(?i)EACCES"@, ErrorType::PermissionDenied, 0usize)
    } else if k == 4 {
        (r"(?i)no such file or directory"@, ErrorType::FileNotFound, 0usize)
    } else if k == 5 {
        (r"(?i)ENOENT"@, ErrorType::FileNotFound, 0usize)
    } else if k == 6 {
        (r"(?i)cannot find module"@, ErrorType::DependencyError, 0usize)
    } else if k == 7 {
        (r"(?i)(?:module|package|dependency) .+ not found"@, ErrorType::DependencyError, 0usize)
    } else if k == 8 {
        (r"(?i)no matching version"@, ErrorType::DependencyError, 0usize)
    } else if k == 9 {
        (r#"(?i)cannot (?:open|access|stat)\s+['"]?([^'"]+)['"]?"#@, ErrorType::FileNotFound, 0usize)
    } else if k == 10 {
        (r"(?i)connection refused"@, ErrorType::ConnectionRefused, 0usize)
    } else if k == 11 {
        (r"(?i)ECONNREFUSED"@, ErrorType::ConnectionRefused, 0usize)
    } else if k == 12 {
        (r"(?i)(?:connection|operation) timed? ?out"@, ErrorType::ConnectionTimeout, 0usize)
    } else if k == 13 {
        (r"(?i)ETIMEDOUT"@, ErrorType::ConnectionTimeout, 0usize)
    } else if k == 14 {
        (r"(?i)syntax error"@, ErrorType::SyntaxError, 0usize)
    } else if k == 15 {
        (r"(?i)unexpected token"@, ErrorType::SyntaxError, 0usize)
    } else if k == 16 {
        (r"(?i)parse error"@, ErrorType::SyntaxError, 0usize)
    } else if k == 17 {
        (r"nginx:\s*\[emerg\]\s*(.+)"@, ErrorType::ConfigurationError, 1usize)
    } else if k == 18 {
        (r#"(?i)unknown directive\s+['"]?(\w+)['"]?"#@, ErrorType::ConfigurationError, 0usize)
    } else if k == 19 {
        (r"(?i)(?:unable to find|cannot find) image"@, ErrorType::DockerError, 0usize)
    } else if k == 20 {
        (r"(?i)error response from daemon:\s*(.+)"@, ErrorType::DockerError, 0usize)
    } else if k == 21 {
        (r"(?i)container .+ is not running"@, ErrorType::DockerError, 0usize)
    } else if k == 22 {
        (r"(?i)error from server \((\w+)\):\s*(.+)"@, ErrorType::KubernetesError, 0usize)
    } else if k == 23 {
        (r"(?i)the server doesn't have a resource type"@, ErrorType::KubernetesError, 0usize)
    } else if k == 24 {
        (r#"(?i)(?:pods?|deployments?|services?|configmaps?)\s+['\"]?(\S+)['\"]?\s+not found"#@, ErrorType::ResourceNotFound, 0usize)
    } else if k == 25 {
        (r"(?i)fatal:\s*(.+)"@, ErrorType::GitError, 0usize)
    } else if k == 26 {
        (r"(?i)not a git repository"@, ErrorType::GitError, 0usize)
    } else if k == 27 {
        (r"(?i)(?:authentication|auth) (?:failed|error|denied)"@, ErrorType::AuthenticationFailed, 0usize)
    } else if k == 28 {
        (r"(?i)unauthorized"@, ErrorType::AuthenticationFailed, 0usize)
    } else if k == 29 {
        (r"(?i)access denied"@, ErrorType::AuthenticationFailed, 0usize)
    } else if k == 30 {
        (r"(?i)no space left on device"@, ErrorType::DiskFull, 0usize)
    } else if k == 31 {
        (r"(?i)ENOSPC"@, ErrorType::DiskFull, 0usize)
    } else if k == 32 {
        (r"(?i)out of memory"@, ErrorType::OutOfMemory, 0usize)
    } else if k == 33 {
        (r"(?i)cannot allocate memory"@, ErrorType::OutOfMemory, 0usize)
    } else if k == 34 {
        (r"(?i)address already in use"@, ErrorType::PortInUse, 0usize)
    } else if k == 35 {
        (r"(?i)EADDRINUSE"@, ErrorType::PortInUse, 0usize)
    } else if k == 36 {
        (r"(?i)port \d+ (?:is )?(?:already )?in use"@, ErrorType::PortInUse, 0usize)
    } else if k == 37 {
        (r"(?i)invalid (?:option|argument|flag)"@, ErrorType::InvalidArgument, 0usize)
    } else if k == 38 {
        (r"(?i)unrecognized (?:option|argument|flag)"@, ErrorType::InvalidArgument, 0usize)
    } else if k == 39 {
        (r"(?i)(?:mysql|postgres|sqlite).*error"@, ErrorType::DatabaseError, 0usize)
    } else if k == 40 {
        (r"(?i)database .+ does not exist"@, ErrorType::DatabaseError, 0usize)
    } else {
        (seq![], ErrorType::Unknown, 0usize)
    }
}

/// The built-in patterns, in the order they are tried.
pub open spec fn builtin_patterns() -> Seq<(Seq<char>, ErrorType, usize)> {
    Seq::new(PATTERN_COUNT as nat, |k: int| builtin_pattern(k))
}

/// The key message of a match: group `g` when it took part, else the whole
/// match.
pub open spec fn key_of(caps: Seq<Option<Seq<char>>>, g: usize) -> Seq<char> {
    if g > 0 && g < caps.len() && caps[g as int] is Some {
        caps[g as int]->0
    } else {
        caps[0]->0
    }
}

/// A line that reads like an error.
pub open spec fn has_indicator(l: Seq<char>) -> bool {
    contains(l, "error"@) || contains(l, "Error"@) || contains(l, "ERROR"@) || contains(l, "failed"@) || contains(l, "Failed"@) || contains(l, "FAILED"@) || contains(l, "fatal"@) || contains(l, "Fatal"@) || contains(l, "FATAL"@) || contains(l, "cannot"@) || contains(l, "Cannot"@) || contains(l, "CANNOT"@) || contains(l, "unable"@) || contains(l, "Unable"@) || contains(l, "UNABLE"@) || contains(l, "denied"@) || contains(l, "Denied"@) || contains(l, "DENIED"@)
}

/// The first of `ls` that is not empty and satisfies `indicator` (when
/// `needs`).
pub open spec fn first_line_where(ls: Seq<Seq<char>>, needs: bool) -> Option<Seq<char>>
    decreases ls.len(),
{
    if ls.len() == 0 {
        None
    } else if ls[0].len() > 0 && (!needs || has_indicator(ls[0])) {
        Some(ls[0])
    } else {
        first_line_where(ls.drop_first(), needs)
    }
}

/// The trimmed lines of `output`.
pub open spec fn trimmed_lines(output: Seq<char>) -> Seq<Seq<char>> {
    lines(output).map_values(|l: Seq<char>| trim(l))
}

/// The key message when no pattern matched: the first line that reads like
/// an error, else the first non-empty line, else `Unknown error`.
pub open spec fn first_error_line(output: Seq<char>) -> Seq<char> {
    let tl = trimmed_lines(output);
    match first_line_where(tl, true) {
        Some(l) => l,
        None => match first_line_where(tl, false) {
            Some(l) => l,
            None => "Unknown error"@,
        },
    }
}

/// The kind of error and key message that `pats`, tried in order, find in
/// `output`; by the exit code and the first error line when none matches.
pub open spec fn detect_with(pats: Seq<(Seq<char>, ErrorType, usize)>, output: Seq<char>, code: i32) -> (
    ErrorType,
    Seq<char>,
)
    decreases pats.len(),
{
    if pats.len() == 0 {
        (error_type_of_exit_code(code), first_error_line(output))
    } else {
        match regex_captures_of(pats[0].0, output) {
            Some(caps) => (pats[0].1, key_of(caps, pats[0].2)),
            None => detect_with(pats.drop_first(), output, code),
        }
    }
}

/// The file location named in `output` as (path, line, column): the groups
/// that `pattern` captures, the numbers parsed; nothing when it does not
/// match or captures no path or line.
pub open spec fn location_parts(pattern: Seq<char>, output: Seq<char>) -> Option<
    (Seq<char>, Option<u32>, Option<u32>),
> {
    match regex_captures_of(pattern, output) {
        Some(c) => if c.len() > 2 && c[1] is Some && c[2] is Some {
            Some(
                (
                    c[1]->0,
                    parsed_u32(c[2]->0),
                    if c.len() > 3 && c[3] is Some {
                        parsed_u32(c[3]->0)
                    } else {
                        None
                    },
                ),
            )
        } else {
            None
        },
        None => None,
    }
}

/// A location as plain values.
pub open spec fn location_view(o: Option<SourceLocation>) -> Option<(Seq<char>, Option<u32>, Option<u32>)> {
    match o {
        Some(l) => Some((l.file@, l.line, l.column)),
        None => None,
    }
}

/// The line mentions an error, a failure or something fatal (in any case).
pub open spec fn flags_error(line: Seq<char>) -> bool {
    let l = lowercase(line);
    contains(l, "error"@) || contains(l, "failed"@) || contains(l, "fatal"@)
}

/// `acc` with `t` added when it is not empty and not there yet.
pub open spec fn add_context(acc: Seq<Seq<char>>, t: Seq<char>) -> Seq<Seq<char>> {
    if t.len() > 0 && !acc.contains(t) {
        acc.push(t)
    } else {
        acc
    }
}

/// `acc` with the trimmed lines `ls[j]` added, for `j` from `j` to `end`.
pub open spec fn add_range(acc: Seq<Seq<char>>, ls: Seq<Seq<char>>, j: int, end: int) -> Seq<Seq<char>>
    decreases end - j,
{
    if j >= end {
        acc
    } else {
        add_range(add_context(acc, trim(ls[j])), ls, j + 1, end)
    }
}

/// The context gathered from the lines `ls[i..]`: around each line that
/// flags an error, the line before it, itself and the line after.
pub open spec fn context_from(acc: Seq<Seq<char>>, ls: Seq<Seq<char>>, i: int) -> Seq<Seq<char>>
    decreases ls.len() - i,
{
    if i >= ls.len() || i < 0 {
        acc
    } else {
        let next = if flags_error(ls[i]) {
            add_range(
                acc,
                ls,
                if i >= 1 {
                    i - 1
                } else {
                    0
                },
                if i + 2 <= ls.len() {
                    i + 2
                } else {
                    ls.len() as int
                },
            )
        } else {
            acc
        };
        context_from(next, ls, i + 1)
    }
}

/// The context lines of `output`: at most five, without repeats.
pub open spec fn context_lines_of(output: Seq<char>) -> Seq<Seq<char>> {
    let all = context_from(seq![], lines(output), 0);
    if all.len() > 5 {
        all.take(5)
    } else {
        all
    }
}

/// The built-in pattern at position `k`.
fn pattern_at(k: usize) -> (r: ErrorPattern)
    requires
        k < PATTERN_COUNT,
    ensures
        pattern_view(r) == builtin_pattern(k as int),
{
    if k == 0 {
        ErrorPattern { pattern: r"(?i)(?:command not found|not found):\s*(\S+)", error_type: ErrorType::CommandNotFound, key_group: 0 }
    } else if k == 1 {
        ErrorPattern { pattern: r"(?i)(\S+):\s*command not found", error_type: ErrorType::CommandNotFound, key_group: 0 }
    } else if k == 2 {
        ErrorPattern { pattern: r"(?i)permission denied", error_type: ErrorType::PermissionDenied, key_group: 0 }
    } else if k == 3 {
        ErrorPattern { pattern: r"(?i)EACCES", error_type: ErrorType::PermissionDenied, key_group: 0 }
    } else if k == 4 {
        ErrorPattern { pattern: r"(?i)no such file or directory", error_type: ErrorType::FileNotFound, key_group: 0 }
    } else if k == 5 {
        ErrorPattern { pattern: r"(?i)ENOENT", error_type: ErrorType::FileNotFound, key_group: 0 }
    } else if k == 6 {
        ErrorPattern { pattern: r"(?i)cannot find module", error_type: ErrorType::DependencyError, key_group: 0 }
    } else if k == 7 {
        ErrorPattern { pattern: r"(?i)(?:module|package|dependency) .+ not found", error_type: ErrorType::DependencyError, key_group: 0 }
    } else if k == 8 {
        ErrorPattern { pattern: r"(?i)no matching version", error_type: ErrorType::DependencyError, key_group: 0 }
    } else if k == 9 {
        ErrorPattern { pattern: r#"(?i)cannot (?:open|access|stat)\s+['"]?([^'"]+)['"]?"#, error_type: ErrorType::FileNotFound, key_group: 0 }
    } else if k == 10 {
        ErrorPattern { pattern: r"(?i)connection refused", error_type: ErrorType::ConnectionRefused, key_group: 0 }
    } else if k == 11 {
        ErrorPattern { pattern: r"(?i)ECONNREFUSED", error_type: ErrorType::ConnectionRefused, key_group: 0 }
    } else if k == 12 {
        ErrorPattern { pattern: r"(?i)(?:connection|operation) timed? ?out", error_type: ErrorType::ConnectionTimeout, key_group: 0 }
    } else if k == 13 {
        ErrorPattern { pattern: r"(?i)ETIMEDOUT", error_type: ErrorType::ConnectionTimeout, key_group: 0 }
    } else if k == 14 {
        ErrorPattern { pattern: r"(?i)syntax error", error_type: ErrorType::SyntaxError, key_group: 0 }
    } else if k == 15 {
        ErrorPattern { pattern: r"(?i)unexpected token", error_type: ErrorType::SyntaxError, key_group: 0 }
    } else if k == 16 {
        ErrorPattern { pattern: r"(?i)parse error", error_type: ErrorType::SyntaxError, key_group: 0 }
    } else if k == 17 {
        ErrorPattern { pattern: r"nginx:\s*\[emerg\]\s*(.+)", error_type: ErrorType::ConfigurationError, key_group: 1 }
    } else if k == 18 {
        ErrorPattern { pattern: r#"(?i)unknown directive\s+['"]?(\w+)['"]?"#, error_type: ErrorType::ConfigurationError, key_group: 0 }
    } else if k == 19 {
        ErrorPattern { pattern: r"(?i)(?:unable to find|cannot find) image", error_type: ErrorType::DockerError, key_group: 0 }
    } else if k == 20 {
        ErrorPattern { pattern: r"(?i)error response from daemon:\s*(.+)", error_type: ErrorType::DockerError, key_group: 0 }
    } else if k == 21 {
        ErrorPattern { pattern: r"(?i)container .+ is not running", error_type: ErrorType::DockerError, key_group: 0 }
    } else if k == 22 {
        ErrorPattern { pattern: r"(?i)error from server \((\w+)\):\s*(.+)", error_type: ErrorType::KubernetesError, key_group: 0 }
    } else if k == 23 {
        ErrorPattern { pattern: r"(?i)the server doesn't have a resource type", error_type: ErrorType::KubernetesError, key_group: 0 }
    } else if k == 24 {
        ErrorPattern { pattern: r#"(?i)(?:pods?|deployments?|services?|configmaps?)\s+['\"]?(\S+)['\"]?\s+not found"#, error_type: ErrorType::ResourceNotFound, key_group: 0 }
    } else if k == 25 {
        ErrorPattern { pattern: r"(?i)fatal:\s*(.+)", error_type: ErrorType::GitError, key_group: 0 }
    } else if k == 26 {
        ErrorPattern { pattern: r"(?i)not a git repository", error_type: ErrorType::GitError, key_group: 0 }
    } else if k == 27 {
        ErrorPattern { pattern: r"(?i)(?:authentication|auth) (?:failed|error|denied)", error_type: ErrorType::AuthenticationFailed, key_group: 0 }
    } else if k == 28 {
        ErrorPattern { pattern: r"(?i)unauthorized", error_type: ErrorType::AuthenticationFailed, key_group: 0 }
    } else if k == 29 {
        ErrorPattern { pattern: r"(?i)access denied", error_type: ErrorType::AuthenticationFailed, key_group: 0 }
    } else if k == 30 {
        ErrorPattern { pattern: r"(?i)no space left on device", error_type: ErrorType::DiskFull, key_group: 0 }
    } else if k == 31 {
        ErrorPattern { pattern: r"(?i)ENOSPC", error_type: ErrorType::DiskFull, key_group: 0 }
    } else if k == 32 {
        ErrorPattern { pattern: r"(?i)out of memory", error_type: ErrorType::OutOfMemory, key_group: 0 }
    } else if k == 33 {
        ErrorPattern { pattern: r"(?i)cannot allocate memory", error_type: ErrorType::OutOfMemory, key_group: 0 }
    } else if k == 34 {
        ErrorPattern { pattern: r"(?i)address already in use", error_type: ErrorType::PortInUse, key_group: 0 }
    } else if k == 35 {
        ErrorPattern { pattern: r"(?i)EADDRINUSE", error_type: ErrorType::PortInUse, key_group: 0 }
    } else if k == 36 {
        ErrorPattern { pattern: r"(?i)port \d+ (?:is )?(?:already )?in use", error_type: ErrorType::PortInUse, key_group: 0 }
    } else if k == 37 {
        ErrorPattern { pattern: r"(?i)invalid (?:option|argument|flag)", error_type: ErrorType::InvalidArgument, key_group: 0 }
    } else if k == 38 {
        ErrorPattern { pattern: r"(?i)unrecognized (?:option|argument|flag)", error_type: ErrorType::InvalidArgument, key_group: 0 }
    } else if k == 39 {
        ErrorPattern { pattern: r"(?i)(?:mysql|postgres|sqlite).*error", error_type: ErrorType::DatabaseError, key_group: 0 }
    } else {
        ErrorPattern { pattern: r"(?i)database .+ does not exist", error_type: ErrorType::DatabaseError, key_group: 0 }
    }
}

/// Whether `acc` holds `t`.
fn has_line(acc: &Vec<String>, t: &str) -> (r: bool)
    ensures
        r == views(acc@).contains(t@),
{
    let ghost a = views(acc@);
    let mut i: usize = 0;
    while i < acc.len()
        invariant
            i <= acc@.len(),
            a == views(acc@),
            forall|j: int| 0 <= j < i ==> #[trigger] a[j] != t@,
        decreases acc.len() - i,
    {
        if str_eq(acc[i].as_str(), t) {
            assert(a[i as int] == t@);
            return true;
        }
        i = i + 1;
    }
    proof {
        if a.contains(t@) {
            let k = choose|k: int| 0 <= k < a.len() && a[k] == t@;
            assert(a[k] != t@);
        }
    }
    false
}

impl ErrorDetector {
    /// A detector with the built-in patterns.
    pub fn new() -> (r: Self)
        ensures
            r@ == (builtin_patterns(), LOCATION_PATTERN@),
    {
        let mut patterns: Vec<ErrorPattern> = Vec::new();
        let mut k: usize = 0;
        while k < PATTERN_COUNT
            invariant
                k <= PATTERN_COUNT,
                patterns@.map_values(|p: ErrorPattern| pattern_view(p)) == builtin_patterns().take(k as int),
            decreases PATTERN_COUNT - k,
        {
            let p = pattern_at(k);
            let ghost before = patterns@.map_values(|p: ErrorPattern| pattern_view(p));
            patterns.push(p);
            assert(patterns@.map_values(|p: ErrorPattern| pattern_view(p)) =~= before.push(pattern_view(p)));
            assert(builtin_patterns().take(k + 1) =~= builtin_patterns().take(k as int).push(builtin_pattern(k as int)));
            k = k + 1;
        }
        assert(builtin_patterns().take(PATTERN_COUNT as int) =~= builtin_patterns());
        ErrorDetector { patterns, location_pattern: LOCATION_PATTERN }
    }

    /// The kind of error and key message in `output`: the first pattern
    /// that matches decides, its key group (or whole match) giving the
    /// message; when none matches, the exit code decides and the first
    /// error line is the message.
    pub fn detect_error_type(&self, output: &str, exit_code: i32) -> (r: (ErrorType, String))
        ensures
            (r.0, r.1@) == detect_with(self@.0, output@, exit_code),
    {
        let ghost pats = self@.0;
        let mut i: usize = 0;
        assert(pats.skip(0) =~= pats);
        while i < self.patterns.len()
            invariant
                i <= self.patterns@.len(),
                pats == self@.0,
                pats.len() == self.patterns@.len(),
                detect_with(pats, output@, exit_code) == detect_with(pats.skip(i as int), output@, exit_code),
            decreases self.patterns.len() - i,
        {
            let p = self.patterns[i];
            assert(pats.skip(i as int)[0] == pattern_view(p));
            assert(pats.skip(i as int).drop_first() =~= pats.skip(i + 1));
            match regex_captures(p.pattern, output) {
                Some(caps) => {
                    let g = p.key_group;
                    let ghost cv = captures_view(Some(caps))->0;
                    let key = if g > 0 && g < caps.len() && caps[g].is_some() {
                        caps[g].clone().unwrap()
                    } else {
                        caps[0].clone().unwrap()
                    };
                    assert(key@ == key_of(cv, g));
                    return (p.error_type, key);
                },
                None => {},
            }
            i = i + 1;
        }
        assert(pats.skip(i as int).len() == 0);
        (ErrorType::from_exit_code(exit_code), Self::extract_first_error_line(output))
    }

    /// The first line of `output` that reads like an error (trimmed), else
    /// its first non-empty line, else `Unknown error`.
    pub fn extract_first_error_line(output: &str) -> (r: String)
        ensures
            r@ == first_error_line(output@),
    {
        let raw = split_lines(output);
        let ghost tl = trimmed_lines(output@);
        let mut trimmed: Vec<String> = Vec::new();
        let mut i: usize = 0;
        while i < raw.len()
            invariant
                i <= raw@.len(),
                views(raw@) == lines(output@),
                tl == trimmed_lines(output@),
                views(trimmed@) == tl.take(i as int),
            decreases raw.len() - i,
        {
            let ghost before = views(trimmed@);
            trimmed.push(str_trim(raw[i].as_str()));
            assert(views(trimmed@) =~= before.push(tl[i as int]));
            assert(tl.take(i + 1) =~= tl.take(i as int).push(tl[i as int]));
            i = i + 1;
        }
        assert(tl.take(raw@.len() as int) =~= tl);
        match Self::first_line(&trimmed, true) {
            Some(l) => l,
            None => match Self::first_line(&trimmed, false) {
                Some(l) => l,
                None => owned("Unknown error"),
            },
        }
    }

    /// The first of `ls` that is not empty and, when `needs`, reads like an
    /// error.
    fn first_line(ls: &Vec<String>, needs: bool) -> (r: Option<String>)
        ensures
            opt_view(r) == first_line_where(views(ls@), needs),
    {
        let ghost all = views(ls@);
        let mut i: usize = 0;
        assert(all.skip(0) =~= all);
        while i < ls.len()
            invariant
                i <= ls@.len(),
                all == views(ls@),
                first_line_where(all, needs) == first_line_where(all.skip(i as int), needs),
            decreases ls.len() - i,
        {
            assert(all.skip(i as int)[0] == ls@[i as int]@);
            assert(all.skip(i as int).drop_first() =~= all.skip(i + 1));
            let l = ls[i].as_str();
            if l.unicode_len() > 0 && (!needs || Self::indicator(l)) {
                return Some(ls[i].clone());
            }
            i = i + 1;
        }
        assert(all.skip(i as int).len() == 0);
        None
    }

    /// Whether `l` reads like an error.
    fn indicator(l: &str) -> (r: bool)
        ensures
            r == has_indicator(l@),
            r <==> (contains(l@, "error"@) || contains(l@, "Error"@) || contains(l@, "ERROR"@)
            || contains(l@, "failed"@) || contains(l@, "Failed"@) || contains(l@, "FAILED"@)
            || contains(l@, "fatal"@) || contains(l@, "Fatal"@) || contains(l@, "FATAL"@)
            || contains(l@, "cannot"@) || contains(l@, "Cannot"@) || contains(l@, "CANNOT"@)
            || contains(l@, "unable"@) || contains(l@, "Unable"@) || contains(l@, "UNABLE"@)
            || contains(l@, "denied"@) || contains(l@, "Denied"@) || contains(l@, "DENIED"@)),
    {
        str_contains(l, "error") || str_contains(l, "Error") || str_contains(l, "ERROR") || str_contains(l, "failed") || str_contains(l, "Failed") || str_contains(l, "FAILED") || str_contains(l, "fatal") || str_contains(l, "Fatal") || str_contains(l, "FATAL") || str_contains(l, "cannot") || str_contains(l, "Cannot") || str_contains(l, "CANNOT") || str_contains(l, "unable") || str_contains(l, "Unable") || str_contains(l, "UNABLE") || str_contains(l, "denied") || str_contains(l, "Denied") || str_contains(l, "DENIED")
    }

    /// The file location named in `output`: a path starting with `/`, a
    /// line number and maybe a column.
    pub fn extract_source_location(&self, output: &str) -> (r: Option<SourceLocation>)
        ensures
            location_view(r) == location_parts(self@.1, output@),
    {
        match regex_captures(self.location_pattern, output) {
            Some(caps) => {
                if caps.len() > 2 && caps[1].is_some() && caps[2].is_some() {
                    let file = caps[1].clone().unwrap();
                    let line_text = caps[2].clone().unwrap();
                    let line = parse_u32(line_text.as_str());
                    let column = if caps.len() > 3 && caps[3].is_some() {
                        let col_text = caps[3].clone().unwrap();
                        parse_u32(col_text.as_str())
                    } else {
                        None
                    };
                    let ghost cv = captures_view(Some(caps))->0;
                    assert(cv[1] == Some(file@));
                    assert(cv[2] == Some(line_text@));
                    Some(SourceLocation { file, line, column })
                } else {
                    let ghost cv = captures_view(Some(caps))->0;
                    assert(caps.len() > 2 ==> (cv[1] is Some == caps[1] is Some) && (cv[2] is Some == caps[2] is Some));
                    None
                }
            },
            None => None,
        }
    }

    /// Up to five lines of context: around each line that mentions an
    /// error, a failure or something fatal, the line before, the line
    /// itself and the line after, trimmed, non-empty and without repeats.
    pub fn extract_context_lines(output: &str) -> (r: Vec<String>)
        ensures
            views(r@) == context_lines_of(output@),
    {
        let ls = split_lines(output);
        let ghost lv = lines(output@);
        let mut context: Vec<String> = Vec::new();
        let mut i: usize = 0;
        assert(views(context@) =~= Seq::<Seq<char>>::empty());
        while i < ls.len()
            invariant
                i <= ls@.len(),
                lv == views(ls@),
                context_from(seq![], lv, 0) == context_from(views(context@), lv, i as int),
            decreases ls.len() - i,
        {
            let lower = to_lowercase(ls[i].as_str());
            let l = lower.as_str();
            assert(lv[i as int] == ls@[i as int]@);
            if str_contains(l, "error") || str_contains(l, "failed") || str_contains(l, "fatal") {
                let start: usize = if i >= 1 {
                    i - 1
                } else {
                    0
                };
                let end: usize = if i + 1 < ls.len() {
                    i + 2
                } else {
                    ls.len()
                };
                let ghost acc0 = views(context@);
                let mut j: usize = start;
                while j < end
                    invariant
                        start <= j <= end,
                        end <= ls@.len(),
                        lv == views(ls@),
                        add_range(acc0, lv, start as int, end as int) == add_range(views(context@), lv, j as int, end as int),
                    decreases end - j,
                {
                    let t = str_trim(ls[j].as_str());
                    assert(lv[j as int] == ls@[j as int]@);
                    let ghost before = views(context@);
                    if t.as_str().unicode_len() > 0 && !has_line(&context, t.as_str()) {
                        context.push(t);
                        assert(views(context@) =~= before.push(trim(lv[j as int])));
                    }
                    j = j + 1;
                }
            }
            i = i + 1;
        }
        let ghost all = views(context@);
        assert(all == context_from(seq![], lv, 0));
        if context.len() > 5 {
            context.truncate(5);
            assert(views(context@) =~= all.take(5));
        }
        context
    }

    /// The error in the result of a failed command run as `command`, which
    /// printed `output` and exited with `exit_code`: nothing when it
    /// succeeded (exit code 0) or was interrupted (130); otherwise its kind,
    /// key message, location and context, the exit code counting as 1 when
    /// unknown.
    pub fn analyze(&self, output: &str, exit_code: Option<i32>, command: &str) -> (r: Option<ErrorInfo>)
        ensures
            exit_code == Some(0i32) || exit_code == Some(130i32) ==> r is None,
            !(exit_code == Some(0i32) || exit_code == Some(130i32)) ==> (r matches Some(e) && {
                let code = match exit_code {
                    Some(c) => c,
                    None => 1i32,
                };
                &&& (e.error_type, e.key_message@) == detect_with(self@.0, output@, code)
                &&& e.exit_code == code
                &&& e.full_output@ == output@
                &&& e.command@ == command@
                &&& views(e.context_lines@) == context_lines_of(output@)
                &&& location_view(e.source_location) == location_parts(self@.1, output@)
            }),
    {
        if exit_code == Some(0i32) || exit_code == Some(130i32) {
            return None;
        }
        let code: i32 = match exit_code {
            Some(c) => c,
            None => 1,
        };
        let (error_type, key_message) = self.detect_error_type(output, code);
        let source_location = self.extract_source_location(output);
        let context_lines = Self::extract_context_lines(output);
        Some(ErrorInfo {
            error_type,
            exit_code: code,
            key_message,
            full_output: owned(output),
            command: owned(command),
            context_lines,
            source_location,
        })
    }
}

impl Default for ErrorDetector {
    fn default() -> (r: Self)
        ensures
            r@ == (builtin_patterns(), LOCATION_PATTERN@),
    {
        ErrorDetector::new()
    }
}

/// The built-in patterns, in order, with the kind of error each one marks
/// and its key group: command not found, permission denied, file not found,
/// dependency errors, refused and timed-out connections, syntax and
/// configuration errors, Docker, Kubernetes and Git errors, failed
/// authentication, a full disk (`no space left on device`, `ENOSPC`),
/// memory exhausted, a port in use, invalid arguments and database errors.
pub proof fn law_builtin_pattern_table()
    ensures
        builtin_patterns().len() == 41,
        builtin_patterns()[0] == (r"(?i)(?:command not found|not found):\s*(\S+)"@, ErrorType::CommandNotFound, 0usize),
        builtin_patterns()[1] == (r"(?i)(\S+):\s*command not found"@, ErrorType::CommandNotFound, 0usize),
        builtin_patterns()[2] == (r"(?i)permission denied"@, ErrorType::PermissionDenied, 0usize),
        builtin_patterns()[3] == (r"(?i)EACCES"@, ErrorType::PermissionDenied, 0usize),
        builtin_patterns()[4] == (r"(?i)no such file or directory"@, ErrorType::FileNotFound, 0usize),
        builtin_patterns()[5] == (r"(?i)ENOENT"@, ErrorType::FileNotFound, 0usize),
        builtin_patterns()[6] == (r"(?i)cannot find module"@, ErrorType::DependencyError, 0usize),
        builtin_patterns()[7] == (r"(?i)(?:module|package|dependency) .+ not found"@, ErrorType::DependencyError, 0usize),
        builtin_patterns()[8] == (r"(?i)no matching version"@, ErrorType::DependencyError, 0usize),
        builtin_patterns()[9] == (r#"(?i)cannot (?:open|access|stat)\s+['"]?([^'"]+)['"]?"#@, ErrorType::FileNotFound, 0usize),
        builtin_patterns()[10] == (r"(?i)connection refused"@, ErrorType::ConnectionRefused, 0usize),
        builtin_patterns()[11] == (r"(?i)ECONNREFUSED"@, ErrorType::ConnectionRefused, 0usize),
        builtin_patterns()[12] == (r"(?i)(?:connection|operation) timed? ?out"@, ErrorType::ConnectionTimeout, 0usize),
        builtin_patterns()[13] == (r"(?i)ETIMEDOUT"@, ErrorType::ConnectionTimeout, 0usize),
        builtin_patterns()[14] == (r"(?i)syntax error"@, ErrorType::SyntaxError, 0usize),
        builtin_patterns()[15] == (r"(?i)unexpected token"@, ErrorType::SyntaxError, 0usize),
        builtin_patterns()[16] == (r"(?i)parse error"@, ErrorType::SyntaxError, 0usize),
        builtin_patterns()[17] == (r"nginx:\s*\[emerg\]\s*(.+)"@, ErrorType::ConfigurationError, 1usize),
        builtin_patterns()[18] == (r#"(?i)unknown directive\s+['"]?(\w+)['"]?"#@, ErrorType::ConfigurationError, 0usize),
        builtin_patterns()[19] == (r"(?i)(?:unable to find|cannot find) image"@, ErrorType::DockerError, 0usize),
        builtin_patterns()[20] == (r"(?i)error response from daemon:\s*(.+)"@, ErrorType::DockerError, 0usize),
        builtin_patterns()[21] == (r"(?i)container .+ is not running"@, ErrorType::DockerError, 0usize),
        builtin_patterns()[22] == (r"(?i)error from server \((\w+)\):\s*(.+)"@, ErrorType::KubernetesError, 0usize),
        builtin_patterns()[23] == (r"(?i)the server doesn't have a resource type"@, ErrorType::KubernetesError, 0usize),
        builtin_patterns()[24] == (r#"(?i)(?:pods?|deployments?|services?|configmaps?)\s+['\"]?(\S+)['\"]?\s+not found"#@, ErrorType::ResourceNotFound, 0usize),
        builtin_patterns()[25] == (r"(?i)fatal:\s*(.+)"@, ErrorType::GitError, 0usize),
        builtin_patterns()[26] == (r"(?i)not a git repository"@, ErrorType::GitError, 0usize),
        builtin_patterns()[27] == (r"(?i)(?:authentication|auth) (?:failed|error|denied)"@, ErrorType::AuthenticationFailed, 0usize),
        builtin_patterns()[28] == (r"(?i)unauthorized"@, ErrorType::AuthenticationFailed, 0usize),
        builtin_patterns()[29] == (r"(?i)access denied"@, ErrorType::AuthenticationFailed, 0usize),
        builtin_patterns()[30] == (r"(?i)no space left on device"@, ErrorType::DiskFull, 0usize),
        builtin_patterns()[31] == (r"(?i)ENOSPC"@, ErrorType::DiskFull, 0usize),
        builtin_patterns()[32] == (r"(?i)out of memory"@, ErrorType::OutOfMemory, 0usize),
        builtin_patterns()[33] == (r"(?i)cannot allocate memory"@, ErrorType::OutOfMemory, 0usize),
        builtin_patterns()[34] == (r"(?i)address already in use"@, ErrorType::PortInUse, 0usize),
        builtin_patterns()[35] == (r"(?i)EADDRINUSE"@, ErrorType::PortInUse, 0usize),
        builtin_patterns()[36] == (r"(?i)port \d+ (?:is )?(?:already )?in use"@, ErrorType::PortInUse, 0usize),
        builtin_patterns()[37] == (r"(?i)invalid (?:option|argument|flag)"@, ErrorType::InvalidArgument, 0usize),
        builtin_patterns()[38] == (r"(?i)unrecognized (?:option|argument|flag)"@, ErrorType::InvalidArgument, 0usize),
        builtin_patterns()[39] == (r"(?i)(?:mysql|postgres|sqlite).*error"@, ErrorType::DatabaseError, 0usize),
        builtin_patterns()[40] == (r"(?i)database .+ does not exist"@, ErrorType::DatabaseError, 0usize),
{
}

/// The first pattern that matches decides: when pattern `k` matches
/// `output` and none before it does, the kind of error is that pattern's
/// and the key message is its key group (or whole match).
pub proof fn law_first_matching_pattern_decides(
    pats: Seq<(Seq<char>, ErrorType, usize)>,
    output: Seq<char>,
    code: i32,
    k: int,
)
    requires
        0 <= k < pats.len(),
        regex_captures_of(pats[k].0, output) is Some,
        forall|j: int| 0 <= j < k ==> regex_captures_of(#[trigger] pats[j].0, output) is None,
    ensures
        detect_with(pats, output, code) == (pats[k].1, key_of(regex_captures_of(pats[k].0, output)->0, pats[k].2)),
    decreases k,
{
    if k > 0 {
        let d = pats.drop_first();
        assert(regex_captures_of(pats[0].0, output) is None);
        assert forall|j: int| 0 <= j < k - 1 implies regex_captures_of(#[trigger] d[j].0, output) is None by {
            assert(d[j] == pats[j + 1]);
        }
        assert(d[k - 1] == pats[k]);
        law_first_matching_pattern_decides(d, output, code, k - 1);
    }
}

/// When no pattern matches, the exit code decides the kind of error and
/// the first error line is the key message.
pub proof fn law_no_pattern_matches(pats: Seq<(Seq<char>, ErrorType, usize)>, output: Seq<char>, code: i32)
    requires
        forall|j: int| 0 <= j < pats.len() ==> regex_captures_of(#[trigger] pats[j].0, output) is None,
    ensures
        detect_with(pats, output, code) == (error_type_of_exit_code(code), first_error_line(output)),
    decreases pats.len(),
{
    if pats.len() > 0 {
        let d = pats.drop_first();
        assert(regex_captures_of(pats[0].0, output) is None);
        assert forall|j: int| 0 <= j < d.len() implies regex_captures_of(#[trigger] d[j].0, output) is None by {
            assert(d[j] == pats[j + 1]);
        }
        law_no_pattern_matches(d, output, code);
    }
}

/// Output that the expression `(?i)no space left on device` (or
/// `(?i)ENOSPC`) matches, and that no earlier built-in pattern matches, is
/// a full disk.
pub proof fn law_disk_full_detected(output: Seq<char>, code: i32)
    requires
        regex_captures_of(r"(?i)no space left on device"@, output) is Some
            || regex_captures_of(r"(?i)ENOSPC"@, output) is Some,
        forall|j: int| 0 <= j < 30 ==> regex_captures_of(#[trigger] builtin_patterns()[j].0, output) is None,
    ensures
        detect_with(builtin_patterns(), output, code).0 == ErrorType::DiskFull,
{
    law_builtin_pattern_table();
    let pats = builtin_patterns();
    if regex_captures_of(r"(?i)no space left on device"@, output) is Some {
        law_first_matching_pattern_decides(pats, output, code, 30);
    } else {
        assert forall|j: int| 0 <= j < 31 implies regex_captures_of(#[trigger] pats[j].0, output) is None by {}
        law_first_matching_pattern_decides(pats, output, code, 31);
    }
}

/// The words that make a line read like an error when no pattern matched
/// (error, failed, fatal, cannot, unable, denied, each in lower case,
/// capitalised or upper case), and those that make a line part of the
/// context (error, failed, fatal, in any case).
pub proof fn law_error_line_words(l: Seq<char>)
    ensures
        has_indicator(l) <==> (contains(l, "error"@) || contains(l, "Error"@) || contains(l, "ERROR"@)
            || contains(l, "failed"@) || contains(l, "Failed"@) || contains(l, "FAILED"@)
            || contains(l, "fatal"@) || contains(l, "Fatal"@) || contains(l, "FATAL"@)
            || contains(l, "cannot"@) || contains(l, "Cannot"@) || contains(l, "CANNOT"@)
            || contains(l, "unable"@) || contains(l, "Unable"@) || contains(l, "UNABLE"@)
            || contains(l, "denied"@) || contains(l, "Denied"@) || contains(l, "DENIED"@)),
        flags_error(l) <==> (contains(lowercase(l), "error"@) || contains(lowercase(l), "failed"@)
            || contains(lowercase(l), "fatal"@)),
{
}

} // verus!
