//! Guidance written by a language model for errors no pattern knows: the
//! prompt, how the reply's JSON is found, and the guidance made from the
//! reply. Calling the model and decoding the JSON are done by the
//! application.
use crate::mentor::guidance::{guidance_view, steps_view, GuidanceSource, MentorGuidance, NextStep};
use crate::mentor::types::{error_type_name, ErrorInfo};
use crate::text::{
    byte_boundary, byte_len, chars_of, dec_int, find_first, find_first_in, i64_to_dec, opt_view,
    owned, prefix_bytes, str_byte_len, str_trim, string_of_range, take_bytes, trim, views,
};
use vstd::prelude::*;

verus! {

/// Asks a language model for guidance.
pub struct LLMMentor;

/// A model's reply, decoded: key message, explanation, search keywords,
/// steps as (description, command) and related concepts.
#[derive(Debug, Clone)]
pub struct LlmReply {
    pub key_message: String,
    pub explanation: String,
    pub search_keywords: Vec<String>,
    pub next_steps: Vec<(String, Option<String>)>,
    pub related_concepts: Vec<String>,
}

/// The prompt up to the command.
pub const PROMPT_OPENING: &'static str = "You are a patient mentor teaching a beginner about command-line errors.\n\nThe user ran a command that failed:\n- Command: ";

/// The prompt between the command and the exit code.
pub const PROMPT_EXIT_CODE: &'static str = "\n- Exit code: ";

/// The prompt between the exit code and the error type.
pub const PROMPT_ERROR_TYPE: &'static str = "\n- Error type: ";

/// The prompt between the error type and the output.
pub const PROMPT_OUTPUT: &'static str = "\n- Error output:\n```\n";

/// The rest of the prompt, after the output.
pub const PROMPT_CLOSING: &'static str = "\n```\n\nProvide educational guidance in this exact JSON format (no markdown, just raw JSON):\n{\n  \"key_message\": \"The most important part of the error (1 sentence)\",\n  \"explanation\": \"What this error means in simple terms (2-3 sentences)\",\n  \"search_keywords\": [\"keyword1\", \"keyword2\"],\n  \"next_steps\": [\n    {\"description\": \"What to do first\", \"command\": \"actual command or null\"},\n    {\"description\": \"What to do next\", \"command\": null}\n  ],\n  \"related_concepts\": [\"concept to learn about\"]\n}\n\nImportant:\n- Focus on TEACHING, not just fixing\n- Explain WHY this error happens\n- Give practical, actionable steps\n- Keep explanations simple for beginners\n- Include 2-3 next steps\n- Include 1-2 search keywords\n- Return ONLY valid JSON, no other text";

/// Most bytes of the output put in the prompt.
pub const MAX_PROMPT_OUTPUT: usize = 1000;

/// Most bytes of an explanation taken from a reply that is not JSON.
pub const MAX_EXPLANATION: usize = 200;

/// The output as put in the prompt: cut to 1000 bytes, marked, when longer.
pub open spec fn prompt_output(out: Seq<char>) -> Seq<char> {
    if byte_len(out) > 1000 {
        take_bytes(out, 1000) + "...(truncated)"@
    } else {
        out
    }
}

/// The prompt for `e`.
pub open spec fn mentor_prompt(e: ErrorInfo) -> Seq<char> {
    PROMPT_OPENING@ + e.command@ + PROMPT_EXIT_CODE@ + dec_int(e.exit_code as int) + PROMPT_ERROR_TYPE@
        + error_type_name(e.error_type) + PROMPT_OUTPUT@ + prompt_output(e.full_output@)
        + PROMPT_CLOSING@
}

/// Scanning `s` from `i` with `d` braces open, the position just after the
/// brace that closes the first one.
pub open spec fn brace_end(s: Seq<char>, i: int, d: int) -> Option<int>
    decreases s.len() - i,
{
    if i < 0 || i >= s.len() {
        None
    } else if s[i] == '{' {
        brace_end(s, i + 1, d + 1)
    } else if s[i] == '}' {
        if d - 1 == 0 {
            Some(i + 1)
        } else {
            brace_end(s, i + 1, d - 1)
        }
    } else {
        brace_end(s, i + 1, d)
    }
}

/// The last position of `c` in `s`.
pub open spec fn last_index_of(s: Seq<char>, c: char) -> Option<int>
    decreases s.len(),
{
    if s.len() == 0 {
        None
    } else if s.last() == c {
        Some(s.len() - 1)
    } else {
        last_index_of(s.drop_last(), c)
    }
}

/// A reply that starts with a brace: the characters up to the brace that
/// closes it, counted as bytes.
pub open spec fn json_object_prefix(t: Seq<char>) -> Option<Seq<char>> {
    if t.len() > 0 && t[0] == '{' {
        match brace_end(t, 0, 0) {
            Some(e) => Some(take_bytes(t, e)),
            None => None,
        }
    } else {
        None
    }
}

/// The content of a ```json block.
pub open spec fn json_block(t: Seq<char>) -> Option<Seq<char>> {
    match find_first(t, "```json"@) {
        Some(s) => match find_first(t.skip(s + 7), "```"@) {
            Some(e) => Some(trim(t.subrange(s + 7, s + 7 + e))),
            None => None,
        },
        None => None,
    }
}

/// The content of a fenced block, after its first line.
pub open spec fn fenced_block(t: Seq<char>) -> Option<Seq<char>> {
    match find_first(t, "```"@) {
        Some(s) => {
            let b = s + 3;
            let cs = match find_first(t.skip(b), "\n"@) {
                Some(i) => b + i + 1,
                None => b,
            };
            match find_first(t.skip(cs), "```"@) {
                Some(e) => Some(trim(t.subrange(cs, cs + e))),
                None => None,
            }
        },
        None => None,
    }
}

/// From the first opening brace to the last closing one.
pub open spec fn braced_span(t: Seq<char>) -> Option<Seq<char>> {
    match find_first(t, "{"@) {
        Some(a) => match last_index_of(t, '}') {
            Some(z) => if z > a {
                Some(t.subrange(a, z + 1))
            } else {
                None
            },
            None => None,
        },
        None => None,
    }
}

/// The JSON in a reply: the trimmed reply up to the brace that closes its
/// opening one, else the content of a ```json block, else that of any
/// fenced block, else from the first `{` to the last `}`, else the trimmed
/// reply.
pub open spec fn json_in(response: Seq<char>) -> Seq<char> {
    let t = trim(response);
    match json_object_prefix(t) {
        Some(j) => j,
        None => match json_block(t) {
            Some(j) => j,
            None => match fenced_block(t) {
                Some(j) => j,
                None => match braced_span(t) {
                    Some(j) => j,
                    None => t,
                },
            },
        },
    }
}

/// Taking the object prefix cuts the reply on a character boundary.
pub open spec fn json_cut_fits(response: Seq<char>) -> bool {
    let t = trim(response);
    t.len() > 0 && t[0] == '{' ==> match brace_end(t, 0, 0) {
        Some(e) => byte_boundary(t, e),
        None => true,
    }
}

/// The first paragraph of the trimmed reply.
pub open spec fn first_paragraph(response: Seq<char>) -> Seq<char> {
    let t = trim(response);
    match find_first(t, "\n\n"@) {
        Some(k) => t.take(k),
        None => t,
    }
}

/// An explanation from a reply that is not JSON: its first paragraph, cut
/// to 200 bytes and marked when longer.
pub open spec fn explanation_from(response: Seq<char>) -> Seq<char> {
    let p = first_paragraph(response);
    if byte_len(p) > 200 {
        take_bytes(p, 200) + "..."@
    } else {
        p
    }
}

/// Cutting the first paragraph falls on a character boundary.
pub open spec fn explanation_cut_fits(response: Seq<char>) -> bool {
    let p = first_paragraph(response);
    byte_len(p) > 200 ==> byte_boundary(p, 200)
}

/// The steps of a reply as plain values.
pub open spec fn reply_steps(v: Seq<(String, Option<String>)>) -> Seq<(Seq<char>, Option<Seq<char>>)> {
    v.map_values(|p: (String, Option<String>)| (p.0@, opt_view(p.1)))
}

/// The guidance made from a reply, as plain values: the decoded reply's
/// content, or, when it could not be decoded, the error's key message and
/// an explanation taken from the reply's text; marked as written by a model.
pub open spec fn guidance_from_reply(parsed: Option<LlmReply>, response: Seq<char>, e: ErrorInfo) -> (
    Seq<char>,
    Seq<char>,
    Seq<Seq<char>>,
    Seq<(Seq<char>, Option<Seq<char>>)>,
    Seq<Seq<char>>,
    GuidanceSource,
) {
    match parsed {
        Some(p) => (
            p.key_message@,
            p.explanation@,
            views(p.search_keywords@),
            reply_steps(p.next_steps@),
            views(p.related_concepts@),
            GuidanceSource::LLM,
        ),
        None => (
            e.key_message@,
            explanation_from(response),
            seq![],
            seq![],
            seq![],
            GuidanceSource::LLM,
        ),
    }
}

/// Where the brace that closes the opening one ends, scanning `v`.
fn find_brace_end(v: &Vec<char>) -> (r: Option<usize>)
    requires
        v@.len() > 0,
        v@[0] == '{',
    ensures
        match r {
            Some(e) => brace_end(v@, 0, 0) == Some(e as int) && e <= v@.len(),
            None => brace_end(v@, 0, 0) is None,
        },
{
    let mut depth: usize = 0;
    let mut i: usize = 0;
    while i < v.len()
        invariant
            i <= v@.len(),
            v@.len() > 0,
            v@[0] == '{',
            i == 0 ==> depth == 0,
            i > 0 ==> depth >= 1,
            depth <= i,
            brace_end(v@, 0, 0) == brace_end(v@, i as int, depth as int),
        decreases v.len() - i,
    {
        let c = v[i];
        if c == '{' {
            depth = depth + 1;
        } else if c == '}' {
            if depth == 1 {
                return Some(i + 1);
            }
            depth = depth - 1;
        }
        i = i + 1;
    }
    None
}

/// The last position of `c` in `v`.
fn last_position(v: &Vec<char>, c: char) -> (r: Option<usize>)
    ensures
        match r {
            Some(z) => last_index_of(v@, c) == Some(z as int) && z < v@.len(),
            None => last_index_of(v@, c) is None,
        },
{
    let mut n: usize = v.len();
    assert(v@.take(n as int) =~= v@);
    while n > 0
        invariant
            n <= v@.len(),
            last_index_of(v@, c) == last_index_of(v@.take(n as int), c),
        decreases n,
    {
        assert(v@.take(n as int).last() == v@[n - 1]);
        if v[n - 1] == c {
            return Some(n - 1);
        }
        assert(v@.take(n as int).drop_last() =~= v@.take(n - 1));
        n = n - 1;
    }
    None
}

/// The content of a ```json block of `t`.
fn find_json_block(t: &str) -> (r: Option<String>)
    ensures
        opt_view(r) == json_block(t@),
{
    proof {
        reveal_strlit("```json");
        reveal_strlit("```");
    }
    let v = chars_of(t);
    let open = chars_of("```json");
    let fence = chars_of("```");
    assert(open@.len() == 7 && fence@.len() == 3);
    let found = find_first_in(&v, &open);
    if found.is_none() {
        return None;
    }
    let s = found.unwrap();
    assert(s + 7 <= v@.len());
    assert(v@.len() == v.len());
    let rest = string_of_range(&v, s + 7, v.len());
    assert(rest@ =~= t@.skip(s + 7));
    let rv = chars_of(rest.as_str());
    let found_end = find_first_in(&rv, &fence);
    if found_end.is_none() {
        return None;
    }
    let e = found_end.unwrap();
    assert(e + 3 <= rv@.len());
    let inner = string_of_range(&v, s + 7, s + 7 + e);
    Some(str_trim(inner.as_str()))
}

/// The content of a fenced block of `t`, after its first line.
fn find_fenced_block(t: &str) -> (r: Option<String>)
    ensures
        opt_view(r) == fenced_block(t@),
{
    proof {
        reveal_strlit("```");
        reveal_strlit("\n");
    }
    let v = chars_of(t);
    let fence = chars_of("```");
    let newline = chars_of("\n");
    assert(fence@.len() == 3 && newline@.len() == 1);
    let found = find_first_in(&v, &fence);
    if found.is_none() {
        return None;
    }
    let s = found.unwrap();
    assert(s + 3 <= v@.len());
    assert(v@.len() == v.len());
    let b = s + 3;
    let after = string_of_range(&v, b, v.len());
    assert(after@ =~= t@.skip(b as int));
    let av = chars_of(after.as_str());
    let nl = find_first_in(&av, &newline);
    let cs: usize = match nl {
        Some(i) => {
            assert(i + 1 <= av@.len());
            b + i + 1
        },
        None => b,
    };
    let rest = string_of_range(&v, cs, v.len());
    assert(rest@ =~= t@.skip(cs as int));
    let rv = chars_of(rest.as_str());
    let found_end = find_first_in(&rv, &fence);
    if found_end.is_none() {
        return None;
    }
    let e = found_end.unwrap();
    assert(e + 3 <= rv@.len());
    let inner = string_of_range(&v, cs, cs + e);
    Some(str_trim(inner.as_str()))
}

/// From the first `{` of `t` to its last `}`.
fn find_braced_span(t: &str) -> (r: Option<String>)
    ensures
        opt_view(r) == braced_span(t@),
{
    proof {
        reveal_strlit("{");
    }
    let v = chars_of(t);
    let brace = chars_of("{");
    let found = find_first_in(&v, &brace);
    if found.is_none() {
        return None;
    }
    let a = found.unwrap();
    match last_position(&v, '}') {
        Some(z) => {
            if z > a {
                Some(string_of_range(&v, a, z + 1))
            } else {
                None
            }
        },
        None => None,
    }
}

impl LLMMentor {
    /// The prompt asking for guidance about `error`: the command, exit code,
    /// error type and output (cut to 1000 bytes, which must end on a
    /// character boundary), and the JSON shape of the answer.
    pub fn build_prompt(error: &ErrorInfo) -> (r: String)
        requires
            byte_len(error.full_output@) > 1000 ==> byte_boundary(error.full_output@, 1000),
        ensures
            r@ == mentor_prompt(*error),
    {
        let out = error.full_output.as_str();
        let output = if str_byte_len(out) > MAX_PROMPT_OUTPUT {
            let mut o = prefix_bytes(out, MAX_PROMPT_OUTPUT);
            o.append("...(truncated)");
            o
        } else {
            owned(out)
        };
        let mut p = owned(PROMPT_OPENING);
        p.append(error.command.as_str());
        p.append(PROMPT_EXIT_CODE);
        p.append(i64_to_dec(error.exit_code as i64).as_str());
        p.append(PROMPT_ERROR_TYPE);
        p.append(error.error_type.name());
        p.append(PROMPT_OUTPUT);
        p.append(output.as_str());
        p.append(PROMPT_CLOSING);
        p
    }

    /// Whether `extract_json` can cut `response` where it needs to.
    pub fn json_cut_ok(response: &str) -> (r: bool)
        ensures
            r == json_cut_fits(response@),
    {
        let t = str_trim(response);
        let v = chars_of(t.as_str());
        if v.len() > 0 && v[0] == '{' {
            match find_brace_end(&v) {
                Some(e) => crate::text::is_byte_boundary(t.as_str(), e),
                None => true,
            }
        } else {
            true
        }
    }

    /// The JSON in a model's reply: the trimmed reply up to the brace that
    /// closes its opening one (counted as bytes, which must end on a
    /// character boundary), else the content of a ```json block, else that
    /// of any fenced block after its first line, else from the first `{` to
    /// the last `}`, else the trimmed reply.
    pub fn extract_json(response: &str) -> (r: String)
        requires
            json_cut_fits(response@),
        ensures
            r@ == json_in(response@),
    {
        let t = str_trim(response);
        let v = chars_of(t.as_str());
        if v.len() > 0 && v[0] == '{' {
            match find_brace_end(&v) {
                Some(e) => {
                    return prefix_bytes(t.as_str(), e);
                },
                None => {},
            }
        }
        match find_json_block(t.as_str()) {
            Some(j) => {
                return j;
            },
            None => {},
        }
        match find_fenced_block(t.as_str()) {
            Some(j) => {
                return j;
            },
            None => {},
        }
        match find_braced_span(t.as_str()) {
            Some(j) => {
                return j;
            },
            None => {},
        }
        t
    }

    /// Whether `extract_explanation` can cut `response` where it needs to.
    pub fn explanation_cut_ok(response: &str) -> (r: bool)
        ensures
            r == explanation_cut_fits(response@),
    {
        let p = Self::paragraph(response);
        if str_byte_len(p.as_str()) > MAX_EXPLANATION {
            crate::text::is_byte_boundary(p.as_str(), MAX_EXPLANATION)
        } else {
            true
        }
    }

    /// The first paragraph of the trimmed reply.
    fn paragraph(response: &str) -> (r: String)
        ensures
            r@ == first_paragraph(response@),
    {
        proof {
            reveal_strlit("\n\n");
        }
        let t = str_trim(response);
        let v = chars_of(t.as_str());
        let sep = chars_of("\n\n");
        match find_first_in(&v, &sep) {
            Some(k) => string_of_range(&v, 0, k),
            None => t,
        }
    }

    /// An explanation from a reply that is not JSON: its first paragraph,
    /// cut to 200 bytes (which must end on a character boundary) and marked
    /// when longer.
    pub fn extract_explanation(response: &str) -> (r: String)
        requires
            explanation_cut_fits(response@),
        ensures
            r@ == explanation_from(response@),
    {
        let p = Self::paragraph(response);
        if str_byte_len(p.as_str()) > MAX_EXPLANATION {
            let mut o = prefix_bytes(p.as_str(), MAX_EXPLANATION);
            o.append("...");
            o
        } else {
            p
        }
    }

    /// The guidance made from a model's reply to a question about `error`:
    /// the decoded reply's content when `parsed` holds it, otherwise the
    /// error's key message with an explanation taken from the reply's text.
    pub fn guidance_from(parsed: Option<LlmReply>, response: &str, error: &ErrorInfo) -> (r: MentorGuidance)
        requires
            parsed is None ==> explanation_cut_fits(response@),
        ensures
            guidance_view(r) == guidance_from_reply(parsed, response@, *error),
    {
        match parsed {
            Some(p) => {
                let ghost steps_in = reply_steps(p.next_steps@);
                let mut steps: Vec<NextStep> = Vec::new();
                let mut i: usize = 0;
                while i < p.next_steps.len()
                    invariant
                        i <= p.next_steps@.len(),
                        steps_in == reply_steps(p.next_steps@),
                        steps_view(steps@) == steps_in.take(i as int),
                    decreases p.next_steps.len() - i,
                {
                    let ghost before = steps_view(steps@);
                    let step = match &p.next_steps[i].1 {
                        Some(cmd) => NextStep::with_command(p.next_steps[i].0.as_str(), cmd.as_str()),
                        None => NextStep::new(p.next_steps[i].0.as_str()),
                    };
                    steps.push(step);
                    assert(steps_view(steps@) =~= before.push(steps_in[i as int]));
                    assert(steps_in.take(i + 1) =~= steps_in.take(i as int).push(steps_in[i as int]));
                    i = i + 1;
                }
                assert(steps_in.take(p.next_steps@.len() as int) =~= steps_in);
                MentorGuidance {
                    key_message: p.key_message,
                    explanation: p.explanation,
                    search_keywords: p.search_keywords,
                    next_steps: steps,
                    related_concepts: p.related_concepts,
                    source: GuidanceSource::LLM,
                }
            },
            None => {
                let g = MentorGuidance {
                    key_message: error.key_message.clone(),
                    explanation: Self::extract_explanation(response),
                    search_keywords: Vec::new(),
                    next_steps: Vec::new(),
                    related_concepts: Vec::new(),
                    source: GuidanceSource::LLM,
                };
                assert(views(g.search_keywords@) =~= Seq::<Seq<char>>::empty());
                assert(views(g.related_concepts@) =~= Seq::<Seq<char>>::empty());
                assert(steps_view(g.next_steps@) =~= Seq::<(Seq<char>, Option<Seq<char>>)>::empty());
                g
            },
        }
    }
}

} // verus!
