//! Boxed, colored rendering of errors and guidance in three verbosities.
use vstd::prelude::*;
use crate::text::{byte_boundary, byte_len, dec, join, first_word, last_word, u64_to_dec, chars_of, lemma_byte_len_concat, lemma_space_byte_len, owned, prefix_bytes, repeat, repeat_str, join_strings, split_words, str_byte_len, take_bytes, views, words};
use super::colors::{colored, MentorColors};
use super::guidance::{MentorGuidance, NextStep};
use super::types::{error_type_name, location_text, ErrorInfo, ErrorType, SourceLocation};

verus! {

/// Verbosity level of the mentor display.
#[derive(Debug, Clone, Copy, PartialEq, Eq, Structural)]
pub enum Verbosity {
    /// Full educational explanation.
    Verbose,
    /// Standard display with key points.
    Normal,
    /// One line for experts.
    Compact,
}

impl Default for Verbosity {
    fn default() -> (r: Self)
        ensures
            r == Verbosity::Normal,
    {
        Verbosity::Normal
    }
}

/// Configuration of the mentor display.
#[derive(Debug, Clone, Copy)]
pub struct DisplayConfig {
    /// Verbosity level.
    pub verbosity: Verbosity,
    /// Terminal width (0 = detect).
    pub terminal_width: u16,
    /// Whether colors are enabled.
    pub colors_enabled: bool,
}

impl DisplayConfig {
    /// The configuration `new` returns.
    pub open spec fn new_spec(colors_enabled: bool) -> DisplayConfig {
        DisplayConfig { verbosity: Verbosity::Normal, terminal_width: 0, colors_enabled }
    }

    /// Normal verbosity, detected width, colors as given (the caller decides,
    /// for instance from `NO_COLOR`).
    pub fn new(colors_enabled: bool) -> (r: Self)
        ensures
            r == Self::new_spec(colors_enabled),
    {
        DisplayConfig { verbosity: Verbosity::Normal, terminal_width: 0, colors_enabled }
    }
}

// ---------------------------------------------------------------------------
// Layout specifications
// ---------------------------------------------------------------------------

/// Visible characters of `s` from here on, when `esc` tells whether an ANSI
/// escape sequence (from `ESC` up to `m`) is open.
pub open spec fn visible_from(s: Seq<char>, esc: bool) -> nat
    decreases s.len(),
{
    if s.len() == 0 {
        0
    } else if s[0] == '\x1b' {
        visible_from(s.drop_first(), true)
    } else if esc {
        visible_from(s.drop_first(), s[0] != 'm')
    } else {
        1 + visible_from(s.drop_first(), false)
    }
}

/// Number of characters of `s` outside ANSI escape sequences.
pub open spec fn visible_len(s: Seq<char>) -> nat {
    visible_from(s, false)
}

/// `s` cut to `max` bytes with `...` when longer (what `truncate` returns).
pub open spec fn truncated(s: Seq<char>, max: nat) -> Seq<char> {
    if byte_len(s) <= max {
        s
    } else if max > 3 {
        take_bytes(s, max - 3) + "..."@
    } else {
        take_bytes(s, max as int)
    }
}

/// Cutting `s` to `max` bytes cuts between characters (else `truncate`
/// panics, as string slicing does).
pub open spec fn truncate_ok(s: Seq<char>, max: nat) -> bool {
    byte_len(s) <= max || (max > 3 && byte_boundary(s, max - 3)) || (max <= 3 && byte_boundary(
        s,
        max as int,
    ))
}

/// Greedy word wrap: `cur` is the line being filled, `acc` the finished
/// lines; a word joins the line when the line stays within `width` bytes.
pub open spec fn wrap_from(ws: Seq<Seq<char>>, width: nat, cur: Seq<char>, acc: Seq<Seq<char>>) -> Seq<Seq<char>>
    decreases ws.len(),
{
    if ws.len() == 0 {
        if cur.len() > 0 { acc.push(cur) } else { acc }
    } else if cur.len() == 0 {
        wrap_from(ws.drop_first(), width, ws[0], acc)
    } else if byte_len(cur) + 1 + byte_len(ws[0]) <= width {
        wrap_from(ws.drop_first(), width, cur + " "@ + ws[0], acc)
    } else {
        wrap_from(ws.drop_first(), width, ws[0], acc.push(cur))
    }
}

/// The lines of `text` wrapped to `width` bytes (what `wrap_text` returns).
pub open spec fn wrapped(text: Seq<char>, width: nat) -> Seq<Seq<char>> {
    wrap_from(words(text), width, seq![], seq![])
}

pub open spec fn c_border(e: bool) -> Seq<char> { colored(e, "\x1b[36m"@) }
pub open spec fn c_title(e: bool) -> Seq<char> { colored(e, "\x1b[1;36m"@) }
pub open spec fn c_key(e: bool) -> Seq<char> { colored(e, "\x1b[1;33m"@) }
pub open spec fn c_location(e: bool) -> Seq<char> { colored(e, "\x1b[34m"@) }
pub open spec fn c_search(e: bool) -> Seq<char> { colored(e, "\x1b[32m"@) }
pub open spec fn c_command(e: bool) -> Seq<char> { colored(e, "\x1b[1;37m"@) }
pub open spec fn c_concept(e: bool) -> Seq<char> { colored(e, "\x1b[35m"@) }
pub open spec fn c_dim(e: bool) -> Seq<char> { colored(e, "\x1b[2m"@) }
pub open spec fn c_error(e: bool) -> Seq<char> { colored(e, "\x1b[1;31m"@) }
pub open spec fn c_reset(e: bool) -> Seq<char> { colored(e, "\x1b[0m"@) }

/// An empty line inside a box of `width` columns.
pub open spec fn empty_line(e: bool, width: nat) -> Seq<char> {
    c_border(e) + "│"@ + repeat(" "@, (width - 2) as nat) + c_reset(e) + "│"@ + c_reset(e) + "\n"@
}

/// A content line inside a box of `width` columns, padded by visible length.
pub open spec fn box_line(e: bool, width: nat, content: Seq<char>) -> Seq<char> {
    let pad: nat = if width - 2 > visible_len(content) { (width - 2 - visible_len(content)) as nat } else { 0 };
    c_border(e) + "│"@ + content + repeat(" "@, pad) + c_reset(e) + "│"@ + c_reset(e) + "\n"@
}

/// Lines `prefix + l` for each `l` of `ls`.
pub open spec fn prefixed_lines(e: bool, width: nat, prefix: Seq<char>, ls: Seq<Seq<char>>) -> Seq<char>
    decreases ls.len(),
{
    if ls.len() == 0 {
        Seq::<char>::empty()
    } else {
        prefixed_lines(e, width, prefix, ls.drop_last()) + box_line(e, width, prefix + ls.last())
    }
}

/// Title border of a normal or verbose box.
pub open spec fn top_border(e: bool, width: nat) -> Seq<char> {
    "\n"@ + c_border(e) + "┌─ "@ + c_title(e) + "MENTOR"@ + c_border(e) + " "@ + repeat("─"@, (width - 12) as nat) + "┐"@ + c_reset(e) + "\n"@
}

/// Bottom border of a normal or verbose box.
pub open spec fn bottom_border(e: bool, width: nat) -> Seq<char> {
    c_border(e) + "└"@ + repeat("─"@, (width - 2) as nat) + "┘"@ + c_reset(e) + "\n"@
}

/// The compact one-line box for a key message.
pub open spec fn compact_box(e: bool, box_width: nat, key: Seq<char>) -> Seq<char> {
    let width: nat = if box_width < 60 { box_width } else { 60 };
    let inner: nat = (width - 4) as nat;
    let k = truncated(key, (inner - 4) as nat);
    let pad: nat = if inner > byte_len(k) { (inner - byte_len(k)) as nat } else { 0 };
    c_border(e) + "┌─ MENTOR "@ + repeat("─"@, (width - 12) as nat) + "┐"@ + c_reset(e) + "\n"@
    + c_border(e) + "│"@ + c_key(e) + " "@ + k + c_reset(e) + " "@ + repeat(" "@, pad) + "│"@ + c_reset(e) + "\n"@
    + c_border(e) + "└"@ + repeat("─"@, (width - 2) as nat) + "┘"@ + c_reset(e)
}

/// Box width for a terminal of `term_width` columns: capped at 80 above 100
/// columns, a margin of 4 above 60, at least 40.
pub open spec fn box_width_for(term_width: nat) -> nat {
    if term_width > 100 {
        80
    } else if term_width > 60 {
        (term_width - 4) as nat
    } else if term_width < 40 {
        40
    } else {
        term_width
    }
}

// ---------------------------------------------------------------------------
// Trusted items
// ---------------------------------------------------------------------------

/// Calls `terminal_size::terminal_size` and returns the width in columns.
/// The answer depends on the terminal the process is attached to; nothing is
/// stated of it.
#[verifier::external_body]
fn detect_terminal_width() -> (r: Option<u16>) {
    terminal_size::terminal_size().map(|(w, _)| w.0)
}

// ---------------------------------------------------------------------------
// Layout functions
// ---------------------------------------------------------------------------

/// Number of characters of `s` outside ANSI escape sequences.
pub fn visible_length(s: &str) -> (n: usize)
    ensures
        n == visible_len(s@),
{
    let v = chars_of(s);
    let mut n: usize = 0;
    let mut esc = false;
    let mut i: usize = 0;
    assert(v@.skip(0) =~= v@);
    while i < v.len()
        invariant
            i <= v.len(),
            n <= i,
            visible_len(v@) == n + visible_from(v@.skip(i as int), esc),
        decreases v.len() - i,
    {
        let c = v[i];
        assert(v@.skip(i as int).drop_first() =~= v@.skip(i + 1));
        if c == '\x1b' {
            esc = true;
        } else if esc {
            if c == 'm' {
                esc = false;
            }
        } else {
            n = n + 1;
        }
        i = i + 1;
    }
    assert(v@.skip(i as int) =~= Seq::<char>::empty());
    n
}

/// `s` cut to `max_len` bytes, ending in `...` when anything was cut.
pub fn truncate(s: &str, max_len: usize) -> (r: String)
    requires
        truncate_ok(s@, max_len as nat),
    ensures
        r@ == truncated(s@, max_len as nat),
{
    if str_byte_len(s) <= max_len {
        owned(s)
    } else if max_len > 3 {
        let mut p = prefix_bytes(s, max_len - 3);
        p.append("...");
        p
    } else {
        prefix_bytes(s, max_len)
    }
}

/// Whether `truncate(s, max_len)` cuts between characters.
pub fn truncate_fits(s: &str, max_len: usize) -> (r: bool)
    ensures
        r == truncate_ok(s@, max_len as nat),
{
    str_byte_len(s) <= max_len || (max_len > 3 && crate::text::is_byte_boundary(s, max_len - 3)) || (max_len
        <= 3 && crate::text::is_byte_boundary(s, max_len))
}

/// Greedy word wrap of `text` to lines of at most `width` bytes (a single
/// longer word stays whole on its own line).
pub fn wrap_text(text: &str, width: usize) -> (r: Vec<String>)
    ensures
        views(r@) == wrapped(text@, width as nat),
{
    let ws = split_words(text);
    let mut acc: Vec<String> = Vec::new();
    let mut cur = String::new();
    let mut cur_bytes: usize = 0;
    let mut i: usize = 0;
    assert(views(ws@).skip(0) =~= views(ws@));
    assert(views(acc@) =~= Seq::<Seq<char>>::empty());
    while i < ws.len()
        invariant
            i <= ws.len(),
            views(ws@) == words(text@),
            cur_bytes == byte_len(cur@),
            wrapped(text@, width as nat) == wrap_from(views(ws@).skip(i as int), width as nat, cur@, views(acc@)),
        decreases ws.len() - i,
    {
        let w = &ws[i];
        assert(views(ws@).skip(i as int).drop_first() =~= views(ws@).skip(i + 1));
        assert(views(ws@).skip(i as int)[0] == w@);
        let wb = str_byte_len(w.as_str());
        if cur.as_str().is_empty() {
            cur = w.clone();
            cur_bytes = wb;
        } else if cur_bytes <= width && wb <= width - cur_bytes && 1 <= width - cur_bytes - wb {
            proof {
                lemma_byte_len_concat(cur@, " "@);
                lemma_byte_len_concat(cur@ + " "@, w@);
                lemma_space_byte_len();
            }
            cur.append(" ");
            cur.append(w.as_str());
            cur_bytes = cur_bytes + 1 + wb;
        } else {
            let ghost old_acc = acc@;
            let done = cur;
            acc.push(done);
            assert(views(acc@) =~= views(old_acc).push(done@));
            cur = w.clone();
            cur_bytes = wb;
        }
        i = i + 1;
    }
    assert(views(ws@).skip(i as int) =~= Seq::<Seq<char>>::empty());
    if !cur.as_str().is_empty() {
        let ghost old_acc = acc@;
        let ghost cv = cur@;
        acc.push(cur);
        assert(views(acc@) =~= views(old_acc).push(cv));
    }
    acc
}

/// Box width for a terminal of `term_width` columns.
pub fn box_width_for_terminal(term_width: usize) -> (r: usize)
    ensures
        r == box_width_for(term_width as nat),
{
    if term_width > 100 {
        80
    } else if term_width > 60 {
        term_width - 4
    } else if term_width < 40 {
        40
    } else {
        term_width
    }
}


// ---------------------------------------------------------------------------
// What the boxes say about each error type
// ---------------------------------------------------------------------------

/// The command a key message names: its last word, else `command`.
pub open spec fn named_command(key: Seq<char>) -> Seq<char> {
    match last_word(key) {
        Some(w) => w,
        None => "command"@,
    }
}

/// One-line suggestion for an error.
pub open spec fn quick_suggestion(err: ErrorInfo) -> Option<Seq<char>> {
    match err.error_type {
        ErrorType::CommandNotFound => {
            let cmd = named_command(err.key_message@);
            Some("which "@ + cmd + " or brew install "@ + cmd)
        },
        ErrorType::PermissionDenied => Some("sudo !!"@),
        ErrorType::FileNotFound => Some("ls -la to check path"@),
        ErrorType::ConnectionRefused => Some("Check if service is running"@),
        ErrorType::PortInUse => Some("lsof -i :<port> to find process"@),
        _ => None,
    }
}

/// Explanation of what an error type means.
pub open spec fn error_explanation(t: ErrorType) -> Option<Seq<char>> {
    match t {
        ErrorType::CommandNotFound => Some("The shell cannot find this command. It's either not installed, or not in your PATH environment variable."@),
        ErrorType::PermissionDenied => Some("You don't have permission to perform this action. This usually means you need elevated privileges (sudo) or the file/directory permissions need to be changed."@),
        ErrorType::FileNotFound => Some("The specified file or directory doesn't exist. Check the path for typos or verify the file was created."@),
        ErrorType::SyntaxError => Some("There's a syntax error in the command or configuration file. Check for typos, missing quotes, or incorrect formatting."@),
        ErrorType::ConnectionRefused => Some("The connection was refused by the target. The service might not be running, or a firewall is blocking it."@),
        ErrorType::ConfigurationError => Some("There's an error in a configuration file. Check the file for typos or invalid directives."@),
        ErrorType::PortInUse => Some("Another process is already using this port. You'll need to stop that process or use a different port."@),
        ErrorType::DependencyError => Some("A required module or dependency is missing. You may need to install it or check your import paths."@),
        _ => None,
    }
}

/// What to search for about an error.
pub open spec fn search_suggestion(err: ErrorInfo) -> Option<Seq<char>> {
    match err.error_type {
        ErrorType::CommandNotFound => Some("install "@ + named_command(err.key_message@) + " macos/linux"@),
        ErrorType::ConfigurationError => Some(
            match first_word(err.command@) {
                Some(w) => w,
                None => "config"@,
            } + " configuration syntax"@,
        ),
        ErrorType::DockerError => Some("docker troubleshooting"@),
        ErrorType::KubernetesError => Some("kubernetes debugging"@),
        ErrorType::GitError => Some("git common errors"@),
        _ => None,
    }
}

/// Suggested next steps for an error.
pub open spec fn next_steps_for(err: ErrorInfo) -> Seq<Seq<char>> {
    match err.error_type {
        ErrorType::CommandNotFound => {
            let cmd = named_command(err.key_message@);
            seq!["which "@ + cmd, "brew install "@ + cmd + " (macOS)"@, "apt install "@ + cmd + " (Ubuntu)"@]
        },
        ErrorType::PermissionDenied => seq![
            "sudo !! (run last command as root)"@,
            "ls -la <file> (check permissions)"@,
            "chmod +x <file> (if executable)"@,
        ],
        ErrorType::FileNotFound => seq![
            "ls -la (list current directory)"@,
            "pwd (print working directory)"@,
            "find . -name '<filename>'"@,
        ],
        ErrorType::PortInUse => seq![
            "lsof -i :<port> (find process)"@,
            "kill <pid> (stop process)"@,
            "Use a different port"@,
        ],
        ErrorType::ConnectionRefused => seq![
            "Check if service is running"@,
            "Verify the host and port"@,
            "Check firewall settings"@,
        ],
        _ => match err.source_location {
            Some(loc) => match loc.line {
                Some(l) => seq!["vim "@ + loc.file@ + " +"@ + dec(l as nat)],
                None => seq!["vim "@ + loc.file@],
            },
            None => Seq::<Seq<char>>::empty(),
        },
    }
}

/// Concepts to learn about for an error type.
pub open spec fn learning_concepts(t: ErrorType) -> Option<Seq<char>> {
    match t {
        ErrorType::CommandNotFound => Some("PATH environment, package managers"@),
        ErrorType::PermissionDenied => Some("Unix permissions, sudo, file ownership"@),
        ErrorType::FileNotFound => Some("file paths, working directory, ls command"@),
        ErrorType::ConnectionRefused => Some("networking, ports, services"@),
        ErrorType::ConfigurationError => Some("configuration files, syntax checking"@),
        ErrorType::DockerError => Some("Docker containers, images, volumes"@),
        ErrorType::KubernetesError => Some("Kubernetes pods, deployments, services"@),
        ErrorType::GitError => Some("Git workflow, branches, commits"@),
        _ => None,
    }
}

/// The command named by a key message (its last word, else `command`).
pub fn named_command_of(key: &str) -> (r: String)
    ensures
        r@ == named_command(key@),
{
    let ws = split_words(key);
    if ws.len() > 0 {
        ws[ws.len() - 1].clone()
    } else {
        owned("command")
    }
}

/// One-line suggestion for an error.
pub fn get_quick_suggestion(error: &ErrorInfo) -> (r: Option<String>)
    ensures
        match r {
            Some(x) => quick_suggestion(*error) == Some(x@),
            None => quick_suggestion(*error) is None,
        },
{
    match error.error_type {
        ErrorType::CommandNotFound => {
            let cmd = named_command_of(error.key_message.as_str());
            let mut r = owned("which ");
            r.append(cmd.as_str());
            r.append(" or brew install ");
            r.append(cmd.as_str());
            Some(r)
        },
        ErrorType::PermissionDenied => Some(owned("sudo !!")),
        ErrorType::FileNotFound => Some(owned("ls -la to check path")),
        ErrorType::ConnectionRefused => Some(owned("Check if service is running")),
        ErrorType::PortInUse => Some(owned("lsof -i :<port> to find process")),
        _ => None,
    }
}

/// Explanation of what an error type means.
pub fn get_error_explanation(error: &ErrorInfo) -> (r: Option<String>)
    ensures
        match r {
            Some(x) => error_explanation(error.error_type) == Some(x@),
            None => error_explanation(error.error_type) is None,
        },
{
    match error.error_type {
        ErrorType::CommandNotFound => Some(owned("The shell cannot find this command. It's either not installed, or not in your PATH environment variable.")),
        ErrorType::PermissionDenied => Some(owned("You don't have permission to perform this action. This usually means you need elevated privileges (sudo) or the file/directory permissions need to be changed.")),
        ErrorType::FileNotFound => Some(owned("The specified file or directory doesn't exist. Check the path for typos or verify the file was created.")),
        ErrorType::SyntaxError => Some(owned("There's a syntax error in the command or configuration file. Check for typos, missing quotes, or incorrect formatting.")),
        ErrorType::ConnectionRefused => Some(owned("The connection was refused by the target. The service might not be running, or a firewall is blocking it.")),
        ErrorType::ConfigurationError => Some(owned("There's an error in a configuration file. Check the file for typos or invalid directives.")),
        ErrorType::PortInUse => Some(owned("Another process is already using this port. You'll need to stop that process or use a different port.")),
        ErrorType::DependencyError => Some(owned("A required module or dependency is missing. You may need to install it or check your import paths.")),
        _ => None,
    }
}

/// What to search for about an error.
pub fn get_search_suggestion(error: &ErrorInfo) -> (r: Option<String>)
    ensures
        match r {
            Some(x) => search_suggestion(*error) == Some(x@),
            None => search_suggestion(*error) is None,
        },
{
    match error.error_type {
        ErrorType::CommandNotFound => {
            let cmd = named_command_of(error.key_message.as_str());
            let mut r = owned("install ");
            r.append(cmd.as_str());
            r.append(" macos/linux");
            Some(r)
        },
        ErrorType::ConfigurationError => {
            let ws = split_words(error.command.as_str());
            let mut r = if ws.len() > 0 { ws[0].clone() } else { owned("config") };
            r.append(" configuration syntax");
            Some(r)
        },
        ErrorType::DockerError => Some(owned("docker troubleshooting")),
        ErrorType::KubernetesError => Some(owned("kubernetes debugging")),
        ErrorType::GitError => Some(owned("git common errors")),
        _ => None,
    }
}

/// A string made of `a` followed by `b`.
fn cat2(a: &str, b: &str) -> (r: String)
    ensures
        r@ == a@ + b@,
{
    let mut r = owned(a);
    r.append(b);
    r
}

/// Suggested next steps for an error.
pub fn get_next_steps(error: &ErrorInfo) -> (r: Vec<String>)
    ensures
        views(r@) == next_steps_for(*error),
{
    let r: Vec<String> = match error.error_type {
        ErrorType::CommandNotFound => {
            let cmd = named_command_of(error.key_message.as_str());
            let a = cat2("which ", cmd.as_str());
            let mut b = cat2("brew install ", cmd.as_str());
            b.append(" (macOS)");
            let mut c = cat2("apt install ", cmd.as_str());
            c.append(" (Ubuntu)");
            vec![a, b, c]
        },
        ErrorType::PermissionDenied => vec![
            owned("sudo !! (run last command as root)"),
            owned("ls -la <file> (check permissions)"),
            owned("chmod +x <file> (if executable)"),
        ],
        ErrorType::FileNotFound => vec![
            owned("ls -la (list current directory)"),
            owned("pwd (print working directory)"),
            owned("find . -name '<filename>'"),
        ],
        ErrorType::PortInUse => vec![
            owned("lsof -i :<port> (find process)"),
            owned("kill <pid> (stop process)"),
            owned("Use a different port"),
        ],
        ErrorType::ConnectionRefused => vec![
            owned("Check if service is running"),
            owned("Verify the host and port"),
            owned("Check firewall settings"),
        ],
        _ => match &error.source_location {
            Some(loc) => match loc.line {
                Some(l) => {
                    let mut a = cat2("vim ", loc.file.as_str());
                    a.append(" +");
                    let d = u64_to_dec(l as u64);
                    a.append(d.as_str());
                    vec![a]
                },
                None => vec![cat2("vim ", loc.file.as_str())],
            },
            None => Vec::new(),
        },
    };
    assert(views(r@) =~= next_steps_for(*error));
    r
}

/// Concepts to learn about for an error.
pub fn get_learning_concepts(error: &ErrorInfo) -> (r: Option<String>)
    ensures
        match r {
            Some(x) => learning_concepts(error.error_type) == Some(x@),
            None => learning_concepts(error.error_type) is None,
        },
{
    match error.error_type {
        ErrorType::CommandNotFound => Some(owned("PATH environment, package managers")),
        ErrorType::PermissionDenied => Some(owned("Unix permissions, sudo, file ownership")),
        ErrorType::FileNotFound => Some(owned("file paths, working directory, ls command")),
        ErrorType::ConnectionRefused => Some(owned("networking, ports, services")),
        ErrorType::ConfigurationError => Some(owned("configuration files, syntax checking")),
        ErrorType::DockerError => Some(owned("Docker containers, images, volumes")),
        ErrorType::KubernetesError => Some(owned("Kubernetes pods, deployments, services")),
        ErrorType::GitError => Some(owned("Git workflow, branches, commits")),
        _ => None,
    }
}

// ---------------------------------------------------------------------------
// Whole boxes
// ---------------------------------------------------------------------------

/// Concatenation of all `parts`.
pub open spec fn concat_all(parts: Seq<Seq<char>>) -> Seq<char>
    decreases parts.len(),
{
    if parts.len() == 0 { Seq::<char>::empty() } else { concat_all(parts.drop_last()) + parts.last() }
}

/// Numbered step lines of the verbose error box.
pub open spec fn error_step_lines(e: bool, width: nat, steps: Seq<Seq<char>>) -> Seq<char>
    decreases steps.len(),
{
    if steps.len() == 0 {
        Seq::<char>::empty()
    } else {
        error_step_lines(e, width, steps.drop_last()) + box_line(
            e,
            width,
            "    "@ + c_dim(e) + dec(steps.len()) + ". "@ + c_command(e) + truncated(
                steps.last(),
                (width - 12) as nat,
            ) + c_reset(e),
        )
    }
}

/// Normal box for an error.
pub open spec fn normal_error_text(e: bool, width: nat, err: ErrorInfo) -> Seq<char> {
    let inner = (width - 4) as nat;
    let s0 = top_border(e, width) + empty_line(e, width) + box_line(
        e,
        width,
        "  "@ + c_dim(e) + "Type:"@ + c_reset(e) + " "@ + error_type_name(err.error_type),
    ) + box_line(
        e,
        width,
        "  "@ + c_error(e) + "Key:"@ + c_reset(e) + " "@ + c_key(e) + truncated(err.key_message@, (inner - 10) as nat) + c_reset(e),
    );
    let s1 = match err.source_location {
        Some(loc) => s0 + box_line(
            e,
            width,
            "  "@ + c_location(e) + "Location:"@ + c_reset(e) + " "@ + c_location(e) + truncated(
                location_text(loc),
                (inner - 14) as nat,
            ) + c_reset(e),
        ),
        None => s0,
    };
    let s2 = s1 + empty_line(e, width);
    let s3 = match quick_suggestion(err) {
        Some(sg) => s2 + box_line(e, width, "  "@ + c_search(e) + "Try:"@ + c_reset(e) + " "@ + sg) + empty_line(e, width),
        None => s2,
    };
    s3 + bottom_border(e, width)
}

/// Key line and underline shared by the verbose boxes.
pub open spec fn verbose_key_lines(e: bool, width: nat, key: Seq<char>) -> Seq<char> {
    let inner = (width - 4) as nat;
    let kd = truncated(key, (inner - 10) as nat);
    let ul: nat = if byte_len(kd) < inner - 12 { byte_len(kd) } else { (inner - 12) as nat };
    box_line(e, width, "  "@ + c_error(e) + "Key:"@ + c_reset(e) + " \""@ + c_key(e) + kd + c_reset(e) + "\""@)
        + box_line(e, width, "       "@ + c_dim(e) + repeat("~"@, ul) + c_reset(e))
}

/// Verbose box for an error.
pub open spec fn verbose_error_text(e: bool, width: nat, err: ErrorInfo) -> Seq<char> {
    let inner = (width - 4) as nat;
    let s0 = top_border(e, width) + empty_line(e, width) + verbose_key_lines(e, width, err.key_message@)
        + empty_line(e, width);
    let s1 = match error_explanation(err.error_type) {
        Some(x) => s0 + box_line(e, width, "  "@ + c_dim(e) + "This means:"@ + c_reset(e))
            + prefixed_lines(e, width, "    "@, wrapped(x, (inner - 6) as nat)) + empty_line(e, width),
        None => s0,
    };
    let s2 = match err.source_location {
        Some(loc) => s1 + box_line(
            e,
            width,
            "  "@ + c_location(e) + "Location:"@ + c_reset(e) + " "@ + c_location(e) + location_text(loc) + c_reset(e),
        ) + empty_line(e, width),
        None => s1,
    };
    let s3 = match search_suggestion(err) {
        Some(x) => s2 + box_line(e, width, "  "@ + c_search(e) + "Search:"@ + c_reset(e) + " "@ + x) + empty_line(e, width),
        None => s2,
    };
    let steps = next_steps_for(err);
    let s4 = if steps.len() > 0 {
        s3 + box_line(e, width, "  "@ + c_dim(e) + "Next steps:"@ + c_reset(e)) + error_step_lines(e, width, steps)
            + empty_line(e, width)
    } else {
        s3
    };
    let s5 = match learning_concepts(err.error_type) {
        Some(x) => s4 + box_line(
            e,
            width,
            "  "@ + c_concept(e) + "Learn more:"@ + c_reset(e) + " "@ + c_concept(e) + x + c_reset(e),
        ) + empty_line(e, width),
        None => s4,
    };
    s5 + bottom_border(e, width)
}

/// The text a next step of guidance shows in the verbose box.
pub open spec fn step_text(e: bool, step: NextStep) -> Seq<char> {
    match step.command {
        Some(c) => c_command(e) + c@ + c_reset(e),
        None => step.description@,
    }
}

/// Numbered step lines of the verbose guidance box.
pub open spec fn guidance_step_lines(e: bool, width: nat, steps: Seq<NextStep>) -> Seq<char>
    decreases steps.len(),
{
    if steps.len() == 0 {
        Seq::<char>::empty()
    } else {
        guidance_step_lines(e, width, steps.drop_last()) + box_line(
            e,
            width,
            "    "@ + c_dim(e) + dec(steps.len()) + ". "@ + c_reset(e) + truncated(
                step_text(e, steps.last()),
                (width - 12) as nat,
            ),
        )
    }
}

/// Normal box for guidance.
pub open spec fn normal_guidance_text(e: bool, width: nat, g: MentorGuidance) -> Seq<char> {
    let inner = (width - 4) as nat;
    let s0 = top_border(e, width) + empty_line(e, width) + box_line(
        e,
        width,
        "  "@ + c_error(e) + "Key:"@ + c_reset(e) + " "@ + c_key(e) + truncated(g.key_message@, (inner - 10) as nat) + c_reset(e),
    ) + empty_line(e, width) + prefixed_lines(e, width, "  "@, wrapped(g.explanation@, (inner - 4) as nat))
        + empty_line(e, width);
    let s1 = if g.next_steps@.len() > 0 {
        let step = g.next_steps@[0];
        let t = match step.command {
            Some(c) => "Try: "@ + c_command(e) + c@ + c_reset(e),
            None => "Try: "@ + step.description@,
        };
        s0 + box_line(e, width, "  "@ + c_search(e) + t + c_reset(e)) + empty_line(e, width)
    } else {
        s0
    };
    s1 + bottom_border(e, width)
}

/// Verbose box for guidance.
pub open spec fn verbose_guidance_text(e: bool, width: nat, g: MentorGuidance) -> Seq<char> {
    let inner = (width - 4) as nat;
    let s0 = top_border(e, width) + empty_line(e, width) + verbose_key_lines(e, width, g.key_message@)
        + empty_line(e, width) + box_line(e, width, "  "@ + c_dim(e) + "This means:"@ + c_reset(e))
        + prefixed_lines(e, width, "    "@, wrapped(g.explanation@, (inner - 6) as nat)) + empty_line(e, width);
    let s1 = if g.search_keywords@.len() > 0 {
        s0 + box_line(e, width, "  "@ + c_search(e) + "Search:"@ + c_reset(e) + " "@ + join(views(g.search_keywords@), ", "@))
            + empty_line(e, width)
    } else {
        s0
    };
    let s2 = if g.next_steps@.len() > 0 {
        let shown = if g.next_steps@.len() > 4 { g.next_steps@.take(4) } else { g.next_steps@ };
        s1 + box_line(e, width, "  "@ + c_dim(e) + "Next steps:"@ + c_reset(e)) + guidance_step_lines(e, width, shown)
            + empty_line(e, width)
    } else {
        s1
    };
    let s3 = if g.related_concepts@.len() > 0 {
        s2 + box_line(
            e,
            width,
            "  "@ + c_concept(e) + "Learn more:"@ + c_reset(e) + " "@ + c_concept(e) + join(views(g.related_concepts@), ", "@) + c_reset(e),
        ) + empty_line(e, width)
    } else {
        s2
    };
    s3 + bottom_border(e, width)
}

/// Box for an error at a verbosity.
pub open spec fn error_box(v: Verbosity, e: bool, width: nat, err: ErrorInfo) -> Seq<char> {
    match v {
        Verbosity::Verbose => verbose_error_text(e, width, err),
        Verbosity::Normal => normal_error_text(e, width, err),
        Verbosity::Compact => compact_box(e, width, err.key_message@),
    }
}

/// Box for guidance at a verbosity.
pub open spec fn guidance_box(v: Verbosity, e: bool, width: nat, g: MentorGuidance) -> Seq<char> {
    match v {
        Verbosity::Verbose => verbose_guidance_text(e, width, g),
        Verbosity::Normal => normal_guidance_text(e, width, g),
        Verbosity::Compact => compact_box(e, width, g.key_message@),
    }
}

/// No cut made while rendering an error box would split a character.
pub open spec fn error_cuts_ok(v: Verbosity, width: nat, err: ErrorInfo) -> bool {
    let inner = (width - 4) as nat;
    let cw: nat = if width < 60 { width } else { 60 };
    match v {
        Verbosity::Compact => truncate_ok(err.key_message@, (cw - 8) as nat),
        Verbosity::Normal => truncate_ok(err.key_message@, (inner - 10) as nat) && match err.source_location {
            Some(loc) => truncate_ok(location_text(loc), (inner - 14) as nat),
            None => true,
        },
        Verbosity::Verbose => truncate_ok(err.key_message@, (inner - 10) as nat) && forall|i: int|
            0 <= i < next_steps_for(err).len() ==> truncate_ok(#[trigger] next_steps_for(err)[i], (inner - 8) as nat),
    }
}

/// No cut made while rendering a guidance box would split a character.
pub open spec fn guidance_cuts_ok(v: Verbosity, width: nat, g: MentorGuidance) -> bool {
    let inner = (width - 4) as nat;
    let cw: nat = if width < 60 { width } else { 60 };
    match v {
        Verbosity::Compact => truncate_ok(g.key_message@, (cw - 8) as nat),
        Verbosity::Normal => truncate_ok(g.key_message@, (inner - 10) as nat),
        Verbosity::Verbose => truncate_ok(g.key_message@, (inner - 10) as nat) && forall|i: int|
            0 <= i < g.next_steps@.len() && i < 4 ==> truncate_ok(step_text(true, #[trigger] g.next_steps@[i]), (inner - 8) as nat)
                && truncate_ok(step_text(false, g.next_steps@[i]), (inner - 8) as nat),
    }
}

// ---------------------------------------------------------------------------
// Building boxes
// ---------------------------------------------------------------------------

/// Appends a content line of a box of `width` columns.
fn push_line(out: &mut String, c: &MentorColors, width: usize, content: &str)
    requires
        width >= 2,
    ensures
        final(out)@ == old(out)@ + box_line(c@, width as nat, content@),
{
    let vis = visible_length(content);
    let pad: usize = if width - 2 > vis { width - 2 - vis } else { 0 };
    out.append(c.border());
    out.append("│");
    out.append(content);
    let sp = repeat_str(" ", pad);
    out.append(sp.as_str());
    out.append(c.reset());
    out.append("│");
    out.append(c.reset());
    out.append("\n");
}

/// Appends an empty line of a box of `width` columns.
fn push_empty(out: &mut String, c: &MentorColors, width: usize)
    requires
        width >= 2,
    ensures
        final(out)@ == old(out)@ + empty_line(c@, width as nat),
{
    out.append(c.border());
    out.append("│");
    let sp = repeat_str(" ", width - 2);
    out.append(sp.as_str());
    out.append(c.reset());
    out.append("│");
    out.append(c.reset());
    out.append("\n");
}

/// Appends the title border.
fn push_top(out: &mut String, c: &MentorColors, width: usize)
    requires
        width >= 12,
    ensures
        final(out)@ == old(out)@ + top_border(c@, width as nat),
{
    out.append("\n");
    out.append(c.border());
    out.append("┌─ ");
    out.append(c.title());
    out.append("MENTOR");
    out.append(c.border());
    out.append(" ");
    let bar = repeat_str("─", width - 12);
    out.append(bar.as_str());
    out.append("┐");
    out.append(c.reset());
    out.append("\n");
}

/// Appends the bottom border.
fn push_bottom(out: &mut String, c: &MentorColors, width: usize)
    requires
        width >= 2,
    ensures
        final(out)@ == old(out)@ + bottom_border(c@, width as nat),
{
    out.append(c.border());
    out.append("└");
    let bar = repeat_str("─", width - 2);
    out.append(bar.as_str());
    out.append("┘");
    out.append(c.reset());
    out.append("\n");
}

/// Appends a line `prefix + l` for each `l` of `ls`.
fn push_prefixed_lines(out: &mut String, c: &MentorColors, width: usize, prefix: &str, ls: &Vec<String>)
    requires
        width >= 2,
    ensures
        final(out)@ == old(out)@ + prefixed_lines(c@, width as nat, prefix@, views(ls@)),
{
    let ghost start = out@;
    let mut i: usize = 0;
    assert(views(ls@).take(0) =~= Seq::<Seq<char>>::empty());
    while i < ls.len()
        invariant
            i <= ls.len(),
            width >= 2,
            out@ == start + prefixed_lines(c@, width as nat, prefix@, views(ls@).take(i as int)),
        decreases ls.len() - i,
    {
        let mut content = owned(prefix);
        content.append(ls[i].as_str());
        push_line(out, c, width, content.as_str());
        proof {
            let t = views(ls@).take(i + 1);
            assert(t.drop_last() =~= views(ls@).take(i as int));
            assert(t.last() == ls@[i as int]@);
        }
        i = i + 1;
    }
    assert(views(ls@).take(ls.len() as int) =~= views(ls@));
}

/// The compact box for a key message.
fn compact_text(c: &MentorColors, box_width: usize, key: &str) -> (r: String)
    requires
        box_width >= 12,
        truncate_ok(key@, ((if box_width < 60 { box_width } else { 60 }) - 8) as nat),
    ensures
        r@ == compact_box(c@, box_width as nat, key@),
{
    let width = if box_width < 60 { box_width } else { 60 };
    let inner = width - 4;
    let k = truncate(key, inner - 4);
    let kb = str_byte_len(k.as_str());
    let pad = if inner > kb { inner - kb } else { 0 };
    let mut out = String::new();
    out.append(c.border());
    out.append("┌─ MENTOR ");
    let bar = repeat_str("─", width - 12);
    out.append(bar.as_str());
    out.append("┐");
    out.append(c.reset());
    out.append("\n");
    out.append(c.border());
    out.append("│");
    out.append(c.key_message());
    out.append(" ");
    out.append(k.as_str());
    out.append(c.reset());
    out.append(" ");
    let sp = repeat_str(" ", pad);
    out.append(sp.as_str());
    out.append("│");
    out.append(c.reset());
    out.append("\n");
    out.append(c.border());
    out.append("└");
    let bar2 = repeat_str("─", width - 2);
    out.append(bar2.as_str());
    out.append("┘");
    out.append(c.reset());
    assert(out@ =~= compact_box(c@, box_width as nat, key@));
    out
}


/// Appends the numbered step lines of the verbose error box.
fn push_error_steps(out: &mut String, c: &MentorColors, width: usize, steps: &Vec<String>)
    requires
        width >= 12,
        forall|i: int| 0 <= i < steps@.len() ==> truncate_ok(#[trigger] steps@[i]@, (width - 12) as nat),
    ensures
        final(out)@ == old(out)@ + error_step_lines(c@, width as nat, views(steps@)),
{
    let ghost start = out@;
    let mut i: usize = 0;
    assert(views(steps@).take(0) =~= Seq::<Seq<char>>::empty());
    while i < steps.len()
        invariant
            i <= steps.len(),
            width >= 12,
            forall|i: int| 0 <= i < steps@.len() ==> truncate_ok(#[trigger] steps@[i]@, (width - 12) as nat),
            out@ == start + error_step_lines(c@, width as nat, views(steps@).take(i as int)),
        decreases steps.len() - i,
    {
        let t = truncate(steps[i].as_str(), width - 12);
        let n = u64_to_dec((i + 1) as u64);
        let mut content = String::new();
        content.append("    ");
        content.append(c.dim());
        content.append(n.as_str());
        content.append(". ");
        content.append(c.command());
        content.append(t.as_str());
        content.append(c.reset());
        push_line(out, c, width, content.as_str());
        proof {
            let tk = views(steps@).take(i + 1);
            assert(tk.drop_last() =~= views(steps@).take(i as int));
            assert(tk.last() == steps@[i as int]@);
            assert(tk.len() == i + 1);
        }
        i = i + 1;
    }
    assert(views(steps@).take(steps.len() as int) =~= views(steps@));
}

/// The normal box for an error.
fn normal_error(c: &MentorColors, width: usize, err: &ErrorInfo) -> (r: String)
    requires
        width >= 40,
        error_cuts_ok(Verbosity::Normal, width as nat, *err),
    ensures
        r@ == normal_error_text(c@, width as nat, *err),
{
    let inner = width - 4;
    let mut out = String::new();
    push_top(&mut out, c, width);
    push_empty(&mut out, c, width);
    let mut l1 = String::new();
    l1.append("  ");
    l1.append(c.dim());
    l1.append("Type:");
    l1.append(c.reset());
    l1.append(" ");
    l1.append(err.error_type.name());
    push_line(&mut out, c, width, l1.as_str());
    let kd = truncate(err.key_message.as_str(), inner - 10);
    let mut l2 = String::new();
    l2.append("  ");
    l2.append(c.error_type());
    l2.append("Key:");
    l2.append(c.reset());
    l2.append(" ");
    l2.append(c.key_message());
    l2.append(kd.as_str());
    l2.append(c.reset());
    push_line(&mut out, c, width, l2.as_str());
    match &err.source_location {
        Some(loc) => {
            let ls = loc.to_string();
            let ld = truncate(ls.as_str(), inner - 14);
            let mut l3 = String::new();
            l3.append("  ");
            l3.append(c.location());
            l3.append("Location:");
            l3.append(c.reset());
            l3.append(" ");
            l3.append(c.location());
            l3.append(ld.as_str());
            l3.append(c.reset());
            push_line(&mut out, c, width, l3.as_str());
        },
        None => {},
    }
    push_empty(&mut out, c, width);
    match get_quick_suggestion(err) {
        Some(sg) => {
            let mut l4 = String::new();
            l4.append("  ");
            l4.append(c.search());
            l4.append("Try:");
            l4.append(c.reset());
            l4.append(" ");
            l4.append(sg.as_str());
            push_line(&mut out, c, width, l4.as_str());
            push_empty(&mut out, c, width);
        },
        None => {},
    }
    push_bottom(&mut out, c, width);
    out
}


/// Appends the key line and underline of the verbose boxes.
fn push_verbose_key(out: &mut String, c: &MentorColors, width: usize, key: &str)
    requires
        width >= 40,
        truncate_ok(key@, (width - 14) as nat),
    ensures
        final(out)@ == old(out)@ + verbose_key_lines(c@, width as nat, key@),
{
    let inner = width - 4;
    let kd = truncate(key, inner - 10);
    let mut l = String::new();
    l.append("  ");
    l.append(c.error_type());
    l.append("Key:");
    l.append(c.reset());
    l.append(" \"");
    l.append(c.key_message());
    l.append(kd.as_str());
    l.append(c.reset());
    l.append("\"");
    push_line(out, c, width, l.as_str());
    let kb = str_byte_len(kd.as_str());
    let ul = if kb < inner - 12 { kb } else { inner - 12 };
    let tildes = repeat_str("~", ul);
    let mut u = String::new();
    u.append("       ");
    u.append(c.dim());
    u.append(tildes.as_str());
    u.append(c.reset());
    push_line(out, c, width, u.as_str());
}

/// The verbose box for an error.
fn verbose_error(c: &MentorColors, width: usize, err: &ErrorInfo) -> (r: String)
    requires
        width >= 40,
        error_cuts_ok(Verbosity::Verbose, width as nat, *err),
    ensures
        r@ == verbose_error_text(c@, width as nat, *err),
{
    let inner = width - 4;
    let mut out = String::new();
    push_top(&mut out, c, width);
    push_empty(&mut out, c, width);
    push_verbose_key(&mut out, c, width, err.key_message.as_str());
    push_empty(&mut out, c, width);
    match get_error_explanation(err) {
        Some(x) => {
            let mut h = String::new();
            h.append("  ");
            h.append(c.dim());
            h.append("This means:");
            h.append(c.reset());
            push_line(&mut out, c, width, h.as_str());
            let ls = wrap_text(x.as_str(), inner - 6);
            push_prefixed_lines(&mut out, c, width, "    ", &ls);
            push_empty(&mut out, c, width);
        },
        None => {},
    }
    match &err.source_location {
        Some(loc) => {
            let ls = loc.to_string();
            let mut l = String::new();
            l.append("  ");
            l.append(c.location());
            l.append("Location:");
            l.append(c.reset());
            l.append(" ");
            l.append(c.location());
            l.append(ls.as_str());
            l.append(c.reset());
            push_line(&mut out, c, width, l.as_str());
            push_empty(&mut out, c, width);
        },
        None => {},
    }
    match get_search_suggestion(err) {
        Some(x) => {
            let mut l = String::new();
            l.append("  ");
            l.append(c.search());
            l.append("Search:");
            l.append(c.reset());
            l.append(" ");
            l.append(x.as_str());
            push_line(&mut out, c, width, l.as_str());
            push_empty(&mut out, c, width);
        },
        None => {},
    }
    let steps = get_next_steps(err);
    if steps.len() > 0 {
        let mut h = String::new();
        h.append("  ");
        h.append(c.dim());
        h.append("Next steps:");
        h.append(c.reset());
        push_line(&mut out, c, width, h.as_str());
        proof {
            assert forall|i: int| 0 <= i < steps@.len() implies truncate_ok(#[trigger] steps@[i]@, (width - 12) as nat) by {
                assert(views(steps@)[i] == steps@[i]@);
            }
        }
        push_error_steps(&mut out, c, width, &steps);
        push_empty(&mut out, c, width);
    }
    match get_learning_concepts(err) {
        Some(x) => {
            let mut l = String::new();
            l.append("  ");
            l.append(c.concept());
            l.append("Learn more:");
            l.append(c.reset());
            l.append(" ");
            l.append(c.concept());
            l.append(x.as_str());
            l.append(c.reset());
            push_line(&mut out, c, width, l.as_str());
            push_empty(&mut out, c, width);
        },
        None => {},
    }
    push_bottom(&mut out, c, width);
    out
}

/// The normal box for guidance.
fn normal_guidance(c: &MentorColors, width: usize, g: &MentorGuidance) -> (r: String)
    requires
        width >= 40,
        guidance_cuts_ok(Verbosity::Normal, width as nat, *g),
    ensures
        r@ == normal_guidance_text(c@, width as nat, *g),
{
    let inner = width - 4;
    let mut out = String::new();
    push_top(&mut out, c, width);
    push_empty(&mut out, c, width);
    let kd = truncate(g.key_message.as_str(), inner - 10);
    let mut l = String::new();
    l.append("  ");
    l.append(c.error_type());
    l.append("Key:");
    l.append(c.reset());
    l.append(" ");
    l.append(c.key_message());
    l.append(kd.as_str());
    l.append(c.reset());
    push_line(&mut out, c, width, l.as_str());
    push_empty(&mut out, c, width);
    let ls = wrap_text(g.explanation.as_str(), inner - 4);
    push_prefixed_lines(&mut out, c, width, "  ", &ls);
    push_empty(&mut out, c, width);
    if g.next_steps.len() > 0 {
        let step = &g.next_steps[0];
        let mut t = String::new();
        t.append("Try: ");
        match &step.command {
            Some(cmd) => {
                t.append(c.command());
                t.append(cmd.as_str());
                t.append(c.reset());
            },
            None => {
                t.append(step.description.as_str());
            },
        }
        let mut l2 = String::new();
        l2.append("  ");
        l2.append(c.search());
        l2.append(t.as_str());
        l2.append(c.reset());
        push_line(&mut out, c, width, l2.as_str());
        push_empty(&mut out, c, width);
    }
    push_bottom(&mut out, c, width);
    out
}

/// The text of a next step in the verbose guidance box.
fn step_text_of(c: &MentorColors, step: &NextStep) -> (r: String)
    ensures
        r@ == step_text(c@, *step),
{
    match &step.command {
        Some(cmd) => {
            let mut t = String::new();
            t.append(c.command());
            t.append(cmd.as_str());
            t.append(c.reset());
            t
        },
        None => step.description.clone(),
    }
}

/// Appends the numbered step lines of the verbose guidance box for the first
/// `count` steps.
fn push_guidance_steps(out: &mut String, c: &MentorColors, width: usize, steps: &Vec<NextStep>, count: usize)
    requires
        width >= 12,
        count <= steps@.len(),
        forall|i: int| 0 <= i < count ==> truncate_ok(step_text(c@, #[trigger] steps@[i]), (width - 12) as nat),
    ensures
        final(out)@ == old(out)@ + guidance_step_lines(c@, width as nat, steps@.take(count as int)),
{
    let ghost start = out@;
    let mut i: usize = 0;
    assert(steps@.take(0) =~= Seq::<NextStep>::empty());
    while i < count
        invariant
            i <= count <= steps@.len(),
            width >= 12,
            forall|i: int| 0 <= i < count ==> truncate_ok(step_text(c@, #[trigger] steps@[i]), (width - 12) as nat),
            out@ == start + guidance_step_lines(c@, width as nat, steps@.take(i as int)),
        decreases count - i,
    {
        let st = step_text_of(c, &steps[i]);
        let t = truncate(st.as_str(), width - 12);
        let n = u64_to_dec((i + 1) as u64);
        let mut l = String::new();
        l.append("    ");
        l.append(c.dim());
        l.append(n.as_str());
        l.append(". ");
        l.append(c.reset());
        l.append(t.as_str());
        push_line(out, c, width, l.as_str());
        proof {
            let tk = steps@.take(i + 1);
            assert(tk.drop_last() =~= steps@.take(i as int));
            assert(tk.last() == steps@[i as int]);
        }
        i = i + 1;
    }
}

/// The verbose box for guidance.
fn verbose_guidance(c: &MentorColors, width: usize, g: &MentorGuidance) -> (r: String)
    requires
        width >= 40,
        guidance_cuts_ok(Verbosity::Verbose, width as nat, *g),
    ensures
        r@ == verbose_guidance_text(c@, width as nat, *g),
{
    let inner = width - 4;
    let mut out = String::new();
    push_top(&mut out, c, width);
    push_empty(&mut out, c, width);
    push_verbose_key(&mut out, c, width, g.key_message.as_str());
    push_empty(&mut out, c, width);
    let mut h = String::new();
    h.append("  ");
    h.append(c.dim());
    h.append("This means:");
    h.append(c.reset());
    push_line(&mut out, c, width, h.as_str());
    let ls = wrap_text(g.explanation.as_str(), inner - 6);
    push_prefixed_lines(&mut out, c, width, "    ", &ls);
    push_empty(&mut out, c, width);
    if g.search_keywords.len() > 0 {
        let kw = join_strings(&g.search_keywords, ", ");
        let mut l = String::new();
        l.append("  ");
        l.append(c.search());
        l.append("Search:");
        l.append(c.reset());
        l.append(" ");
        l.append(kw.as_str());
        push_line(&mut out, c, width, l.as_str());
        push_empty(&mut out, c, width);
    }
    if g.next_steps.len() > 0 {
        let mut h2 = String::new();
        h2.append("  ");
        h2.append(c.dim());
        h2.append("Next steps:");
        h2.append(c.reset());
        push_line(&mut out, c, width, h2.as_str());
        let count = if g.next_steps.len() > 4 { 4 } else { g.next_steps.len() };
        proof {
            assert forall|i: int| 0 <= i < count implies truncate_ok(step_text(c@, #[trigger] g.next_steps@[i]), (width - 12) as nat) by {
                if c@ {
                    assert(truncate_ok(step_text(true, g.next_steps@[i]), (inner - 8) as nat));
                } else {
                    assert(truncate_ok(step_text(false, g.next_steps@[i]), (inner - 8) as nat));
                }
            }
        }
        push_guidance_steps(&mut out, c, width, &g.next_steps, count);
        proof {
            if g.next_steps@.len() <= 4 {
                assert(g.next_steps@.take(count as int) =~= g.next_steps@);
            }
        }
        push_empty(&mut out, c, width);
    }
    if g.related_concepts.len() > 0 {
        let cs = join_strings(&g.related_concepts, ", ");
        let mut l = String::new();
        l.append("  ");
        l.append(c.concept());
        l.append("Learn more:");
        l.append(c.reset());
        l.append(" ");
        l.append(c.concept());
        l.append(cs.as_str());
        l.append(c.reset());
        push_line(&mut out, c, width, l.as_str());
        push_empty(&mut out, c, width);
    }
    push_bottom(&mut out, c, width);
    out
}


/// Mentor display renderer.
pub struct MentorDisplay {
    config: DisplayConfig,
}

impl View for MentorDisplay {
    type V = DisplayConfig;

    /// The configuration the display renders with.
    closed spec fn view(&self) -> DisplayConfig {
        self.config
    }
}

/// Widths a box can be given when the terminal is measured.
pub open spec fn detected_width_range(w: nat) -> bool {
    40 <= w <= 96
}

/// No cut made while rendering `err` would split a character, at the width
/// the configuration gives (every possible width when it is measured).
pub open spec fn error_renders(cfg: DisplayConfig, err: ErrorInfo) -> bool {
    if cfg.terminal_width > 0 {
        error_cuts_ok(cfg.verbosity, box_width_for(cfg.terminal_width as nat), err)
    } else {
        forall|w: nat| detected_width_range(w) ==> error_cuts_ok(cfg.verbosity, w, err)
    }
}

/// Like `error_renders`, for guidance.
pub open spec fn guidance_renders(cfg: DisplayConfig, g: MentorGuidance) -> bool {
    if cfg.terminal_width > 0 {
        guidance_cuts_ok(cfg.verbosity, box_width_for(cfg.terminal_width as nat), g)
    } else {
        forall|w: nat| detected_width_range(w) ==> guidance_cuts_ok(cfg.verbosity, w, g)
    }
}

impl MentorDisplay {
    /// A display with normal verbosity, measured width and colors as given.
    pub fn new(colors_enabled: bool) -> (r: Self)
        ensures
            r@ == DisplayConfig::new_spec(colors_enabled),
    {
        Self::with_config(DisplayConfig::new(colors_enabled))
    }

    /// A display with the given configuration.
    pub fn with_config(config: DisplayConfig) -> (r: Self)
        ensures
            r@ == config,
    {
        MentorDisplay { config }
    }

    /// The same display at another verbosity.
    pub fn with_verbosity(self, verbosity: Verbosity) -> (r: Self)
        ensures
            r@ == (DisplayConfig { verbosity, ..self@ }),
    {
        MentorDisplay { config: DisplayConfig { verbosity, ..self.config } }
    }

    /// The width of the box: from the configured terminal width, else from
    /// the measured one (80 columns when it cannot be measured).
    pub fn box_width(&self) -> (r: usize)
        ensures
            self@.terminal_width > 0 ==> r == box_width_for(self@.terminal_width as nat),
            detected_width_range(r as nat),
    {
        let tw: usize = if self.config.terminal_width > 0 {
            self.config.terminal_width as usize
        } else {
            match detect_terminal_width() {
                Some(w) => w as usize,
                None => 80,
            }
        };
        box_width_for_terminal(tw)
    }

    /// Renders an error as a box `width` columns wide.
    pub fn render_with_width(&self, error: &ErrorInfo, width: usize) -> (r: String)
        requires
            detected_width_range(width as nat),
            error_cuts_ok(self@.verbosity, width as nat, *error),
        ensures
            r@ == error_box(self@.verbosity, self@.colors_enabled, width as nat, *error),
    {
        let c = MentorColors::with_enabled(self.config.colors_enabled);
        match self.config.verbosity {
            Verbosity::Verbose => verbose_error(&c, width, error),
            Verbosity::Normal => normal_error(&c, width, error),
            Verbosity::Compact => compact_text(&c, width, error.key_message.as_str()),
        }
    }

    /// Renders guidance as a box `width` columns wide.
    pub fn render_guidance_with_width(&self, guidance: &MentorGuidance, width: usize) -> (r: String)
        requires
            detected_width_range(width as nat),
            guidance_cuts_ok(self@.verbosity, width as nat, *guidance),
        ensures
            r@ == guidance_box(self@.verbosity, self@.colors_enabled, width as nat, *guidance),
    {
        let c = MentorColors::with_enabled(self.config.colors_enabled);
        match self.config.verbosity {
            Verbosity::Verbose => verbose_guidance(&c, width, guidance),
            Verbosity::Normal => normal_guidance(&c, width, guidance),
            Verbosity::Compact => compact_text(&c, width, guidance.key_message.as_str()),
        }
    }

    /// Renders an error at the configured verbosity and width.
    pub fn render(&self, error: &ErrorInfo) -> (r: String)
        requires
            error_renders(self@, *error),
        ensures
            self@.terminal_width > 0 ==> r@ == error_box(
                self@.verbosity,
                self@.colors_enabled,
                box_width_for(self@.terminal_width as nat),
                *error,
            ),
            exists|w: nat| detected_width_range(w) && r@ == error_box(self@.verbosity, self@.colors_enabled, w, *error),
    {
        let w = self.box_width();
        let r = self.render_with_width(error, w);
        assert(detected_width_range(w as nat) && r@ == error_box(self@.verbosity, self@.colors_enabled, w as nat, *error));
        r
    }

    /// Renders guidance at the configured verbosity and width.
    pub fn render_guidance(&self, guidance: &MentorGuidance) -> (r: String)
        requires
            guidance_renders(self@, *guidance),
        ensures
            self@.terminal_width > 0 ==> r@ == guidance_box(
                self@.verbosity,
                self@.colors_enabled,
                box_width_for(self@.terminal_width as nat),
                *guidance,
            ),
            exists|w: nat| detected_width_range(w) && r@ == guidance_box(self@.verbosity, self@.colors_enabled, w, *guidance),
    {
        let w = self.box_width();
        let r = self.render_guidance_with_width(guidance, w);
        assert(detected_width_range(w as nat) && r@ == guidance_box(self@.verbosity, self@.colors_enabled, w as nat, *guidance));
        r
    }
}

impl MentorDisplay {
    /// Whether an error can be rendered as a box `width` columns wide at
    /// the configured verbosity without cutting inside a character.
    pub fn error_fits_width(&self, error: &ErrorInfo, width: usize) -> (r: bool)
        requires
            detected_width_range(width as nat),
        ensures
            r == error_cuts_ok(self@.verbosity, width as nat, *error),
    {
        let inner = width - 4;
        let cw: usize = if width < 60 { width } else { 60 };
        let key = error.key_message.as_str();
        match self.config.verbosity {
            Verbosity::Compact => truncate_fits(key, cw - 8),
            Verbosity::Normal => {
                truncate_fits(key, inner - 10) && match &error.source_location {
                    Some(loc) => {
                        let t = loc.to_string();
                        truncate_fits(t.as_str(), inner - 14)
                    },
                    None => true,
                }
            },
            Verbosity::Verbose => {
                if !truncate_fits(key, inner - 10) {
                    return false;
                }
                let steps = get_next_steps(error);
                let mut i: usize = 0;
                while i < steps.len()
                    invariant
                        i <= steps@.len(),
                        width >= 40,
                        inner == width - 4,
                        views(steps@) == next_steps_for(*error),
                        self@.verbosity == Verbosity::Verbose,
                        truncate_ok(error.key_message@, (inner - 10) as nat),
                        forall|j: int| 0 <= j < i ==> truncate_ok(#[trigger] next_steps_for(*error)[j], (inner - 8) as nat),
                    decreases steps.len() - i,
                {
                    assert(steps@[i as int]@ == next_steps_for(*error)[i as int]);
                    if !truncate_fits(steps[i].as_str(), inner - 8) {
                        assert(!truncate_ok(next_steps_for(*error)[i as int], (inner - 8) as nat));
                        return false;
                    }
                    i = i + 1;
                }
                true
            },
        }
    }

    /// Whether guidance can be rendered as a box `width` columns wide at
    /// the configured verbosity without cutting inside a character.
    pub fn guidance_fits_width(&self, guidance: &MentorGuidance, width: usize) -> (r: bool)
        requires
            detected_width_range(width as nat),
        ensures
            r == guidance_cuts_ok(self@.verbosity, width as nat, *guidance),
    {
        let inner = width - 4;
        let cw: usize = if width < 60 { width } else { 60 };
        let key = guidance.key_message.as_str();
        match self.config.verbosity {
            Verbosity::Compact => truncate_fits(key, cw - 8),
            Verbosity::Normal => truncate_fits(key, inner - 10),
            Verbosity::Verbose => {
                if !truncate_fits(key, inner - 10) {
                    return false;
                }
                let lit = MentorColors::with_enabled(true);
                let plain = MentorColors::with_enabled(false);
                let steps = &guidance.next_steps;
                let mut i: usize = 0;
                while i < steps.len() && i < 4
                    invariant
                        i <= steps@.len(),
                        width >= 40,
                        inner == width - 4,
                        lit@ == true,
                        plain@ == false,
                        steps@ == guidance.next_steps@,
                        self@.verbosity == Verbosity::Verbose,
                        truncate_ok(guidance.key_message@, (inner - 10) as nat),
                        forall|j: int|
                            0 <= j < i ==> truncate_ok(step_text(true, #[trigger] steps@[j]), (inner - 8) as nat)
                                && truncate_ok(step_text(false, steps@[j]), (inner - 8) as nat),
                    decreases steps.len() - i,
                {
                    let a = step_text_of(&lit, &steps[i]);
                    let b = step_text_of(&plain, &steps[i]);
                    if !truncate_fits(a.as_str(), inner - 8) || !truncate_fits(b.as_str(), inner - 8) {
                        assert(!(truncate_ok(step_text(true, steps@[i as int]), (inner - 8) as nat)
                            && truncate_ok(step_text(false, steps@[i as int]), (inner - 8) as nat)));
                        return false;
                    }
                    i = i + 1;
                }
                true
            },
        }
    }
}

// ---------------------------------------------------------------------------
// Laws
// ---------------------------------------------------------------------------

/// Boxes are never narrower than 40 columns nor wider than 96: wide
/// terminals are capped at 80, narrow ones get the minimum of 40.
pub proof fn law_box_width_bounded(term_width: nat)
    ensures
        40 <= box_width_for(term_width) <= 96,
        term_width > 100 ==> box_width_for(term_width) == 80,
{
}

/// Three dots take three bytes.
proof fn lemma_ellipsis_bytes()
    ensures
        byte_len("..."@) == 3,
{
    reveal_strlit("...");
    assert("..."@ =~= seq!['.'] + seq!['.'] + seq!['.']);
    crate::text::lemma_byte_len_single('.');
    lemma_byte_len_concat(seq!['.'], seq!['.']);
    lemma_byte_len_concat(seq!['.'] + seq!['.'], seq!['.']);
}

/// A truncated message never takes more than `max` bytes.
pub proof fn law_truncate_fits(s: Seq<char>, max: nat)
    requires
        truncate_ok(s, max),
    ensures
        byte_len(truncated(s, max)) <= max,
{
    if byte_len(s) > max {
        if max > 3 {
            let k = choose|k: int| 0 <= k <= s.len() && byte_len(s.take(k)) == max - 3;
            lemma_ellipsis_bytes();
            lemma_byte_len_concat(take_bytes(s, max - 3), "..."@);
        } else {
            let k = choose|k: int| 0 <= k <= s.len() && byte_len(s.take(k)) == max;
        }
    }
}

/// A line fits in `width` bytes, or is one of the words.
pub open spec fn fits_or_word(l: Seq<char>, width: nat, all: Seq<Seq<char>>) -> bool {
    byte_len(l) <= width || all.contains(l)
}

/// Wrapping words of `all` keeps every line within the width, except a
/// word that alone is wider.
proof fn lemma_wrap_lines(ws: Seq<Seq<char>>, width: nat, cur: Seq<char>, acc: Seq<Seq<char>>, all: Seq<Seq<char>>)
    requires
        forall|i: int| 0 <= i < ws.len() ==> all.contains(#[trigger] ws[i]),
        cur.len() == 0 || fits_or_word(cur, width, all),
        forall|i: int| 0 <= i < acc.len() ==> fits_or_word(#[trigger] acc[i], width, all),
    ensures
        forall|i: int|
            0 <= i < wrap_from(ws, width, cur, acc).len() ==> fits_or_word(
                #[trigger] wrap_from(ws, width, cur, acc)[i],
                width,
                all,
            ),
    decreases ws.len(),
{
    if ws.len() == 0 {
        if cur.len() > 0 {
            assert forall|i: int| 0 <= i < acc.push(cur).len() implies fits_or_word(#[trigger] acc.push(cur)[i], width, all) by {
                if i < acc.len() {
                    assert(acc.push(cur)[i] == acc[i]);
                }
            }
        }
    } else {
        assert(all.contains(ws[0]));
        assert forall|i: int| 0 <= i < ws.drop_first().len() implies all.contains(#[trigger] ws.drop_first()[i]) by {
            assert(ws.drop_first()[i] == ws[i + 1]);
        }
        if cur.len() == 0 {
            assert(wrap_from(ws, width, cur, acc) == wrap_from(ws.drop_first(), width, ws[0], acc));
            lemma_wrap_lines(ws.drop_first(), width, ws[0], acc, all);
        } else if byte_len(cur) + 1 + byte_len(ws[0]) <= width {
            lemma_space_byte_len();
            lemma_byte_len_concat(cur, " "@);
            lemma_byte_len_concat(cur + " "@, ws[0]);
            assert(fits_or_word(cur + " "@ + ws[0], width, all));
            assert(wrap_from(ws, width, cur, acc) == wrap_from(ws.drop_first(), width, cur + " "@ + ws[0], acc));
            lemma_wrap_lines(ws.drop_first(), width, cur + " "@ + ws[0], acc, all);
        } else {
            assert(wrap_from(ws, width, cur, acc) == wrap_from(ws.drop_first(), width, ws[0], acc.push(cur)));
            assert forall|i: int| 0 <= i < acc.push(cur).len() implies fits_or_word(#[trigger] acc.push(cur)[i], width, all) by {
                if i < acc.len() {
                    assert(acc.push(cur)[i] == acc[i]);
                }
            }
            lemma_wrap_lines(ws.drop_first(), width, ws[0], acc.push(cur), all);
        }
    }
}

/// Every wrapped line fits in `width` bytes, unless it is a single word
/// that is wider by itself.
pub proof fn law_wrapped_lines_fit(text: Seq<char>, width: nat)
    ensures
        forall|i: int|
            0 <= i < wrapped(text, width).len() ==> fits_or_word(#[trigger] wrapped(text, width)[i], width, words(text)),
{
    let ws = words(text);
    assert forall|i: int| 0 <= i < ws.len() implies ws.contains(#[trigger] ws[i]) by {}
    lemma_wrap_lines(ws, width, seq![], seq![], ws);
}


} // verus!
