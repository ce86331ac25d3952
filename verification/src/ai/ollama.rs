//! What the local-model backend decides: which installed model to use, the
//! status it reports, and the command it reads out of a reply. The HTTP
//! calls themselves are made by the application.
use crate::text::{
    chars_of, find_first, occurs_at, opt_view, find_first_in, join, join_strings, lines, owned, split_lines,
    starts_with, str_eq, str_starts_with, str_trim, string_of_range, trim, views,
};
use vstd::prelude::*;

verus! {

/// Where the model server listens unless configured otherwise.
pub const DEFAULT_BASE_URL: &'static str = "http://localhost:11434";

/// The model used unless configured otherwise.
pub const DEFAULT_MODEL: &'static str = "llama3.2";

/// A local model server and the model it is asked to run.
pub struct OllamaBackend {
    pub base_url: String,
    pub model: String,
}

/// What a probe of the model server found.
#[derive(Debug, Clone)]
pub struct OllamaStatus {
    /// Whether the server answered.
    pub available: bool,
    /// The server's version, when known.
    pub version: Option<String>,
    /// The installed models.
    pub models: Vec<String>,
    /// The installed model to use.
    pub recommended_model: Option<String>,
}

/// Model name prefixes, best first.
pub open spec fn model_priority() -> Seq<Seq<char>> {
    seq![
        "codestral"@,
        "qwen2.5:14b"@,
        "qwen2.5:7b"@,
        "qwen2.5"@,
        "llama3.2:3b"@,
        "llama3.2"@,
        "mistral"@,
    ]
}

/// The first of `models` that starts with `p`.
pub open spec fn first_prefixed(models: Seq<Seq<char>>, p: Seq<char>) -> Option<Seq<char>>
    decreases models.len(),
{
    if models.len() == 0 {
        None
    } else if starts_with(models[0], p) {
        Some(models[0])
    } else {
        first_prefixed(models.drop_first(), p)
    }
}

/// The model chosen by the prefixes from position `k` of the priority list
/// on, and the first model when none of them matches.
pub open spec fn recommended_from(models: Seq<Seq<char>>, k: nat) -> Option<Seq<char>>
    decreases model_priority().len() - k,
{
    if k >= model_priority().len() {
        if models.len() > 0 {
            Some(models[0])
        } else {
            None
        }
    } else {
        match first_prefixed(models, model_priority()[k as int]) {
            Some(m) => Some(m),
            None => recommended_from(models, k + 1),
        }
    }
}

/// The model to recommend among `models`.
pub open spec fn recommended(models: Seq<Seq<char>>) -> Option<Seq<char>> {
    recommended_from(models, 0)
}

/// A line that only names the language of a code block, or is blank.
pub open spec fn is_lang_marker(line: Seq<char>, shell: bool) -> bool {
    let t = trim(line);
    t.len() == 0 || t == "bash"@ || t == "sh"@ || (shell && t == "shell"@)
}

/// `ls` without its leading language-marker lines.
pub open spec fn drop_markers(ls: Seq<Seq<char>>, shell: bool) -> Seq<Seq<char>>
    decreases ls.len(),
{
    if ls.len() == 0 {
        ls
    } else if is_lang_marker(ls[0], shell) {
        drop_markers(ls.drop_first(), shell)
    } else {
        ls
    }
}

/// The trimmed content of the first fenced code block of `text`, without
/// its language line; nothing when `text` holds no complete block. With
/// `shell`, a `shell` line counts as a language line too.
pub open spec fn code_block(text: Seq<char>, shell: bool) -> Option<Seq<char>> {
    match find_first(text, "```"@) {
        None => None,
        Some(s) => {
            let rest = text.skip(s + 3);
            match find_first(rest, "```"@) {
                None => None,
                Some(e) => Some(trim(join(drop_markers(lines(rest.take(e)), shell), "\n"@))),
            }
        },
    }
}

/// The priority prefix at position `k`.
fn priority_prefix(k: usize) -> (r: &'static str)
    requires
        k < 7,
    ensures
        r@ == model_priority()[k as int],
{
    if k == 0 {
        "codestral"
    } else if k == 1 {
        "qwen2.5:14b"
    } else if k == 2 {
        "qwen2.5:7b"
    } else if k == 3 {
        "qwen2.5"
    } else if k == 4 {
        "llama3.2:3b"
    } else if k == 5 {
        "llama3.2"
    } else {
        "mistral"
    }
}

/// The first of `models` that starts with `p`.
fn find_prefixed(models: &[String], p: &str) -> (r: Option<usize>)
    ensures
        match r {
            Some(i) => i < models@.len() && first_prefixed(views(models@), p@) == Some(
                models@[i as int]@,
            ),
            None => first_prefixed(views(models@), p@) is None,
        },
{
    let ghost all = views(models@);
    let mut i: usize = 0;
    assert(all.skip(0) =~= all);
    while i < models.len()
        invariant
            i <= models@.len(),
            all == views(models@),
            first_prefixed(all, p@) == first_prefixed(all.skip(i as int), p@),
        decreases models.len() - i,
    {
        assert(all.skip(i as int)[0] == models@[i as int]@);
        assert(all.skip(i as int).drop_first() =~= all.skip(i + 1));
        if str_starts_with(models[i].as_str(), p) {
            return Some(i);
        }
        i = i + 1;
    }
    assert(all.skip(i as int).len() == 0);
    None
}

/// Whether `line` only names the language of a code block, or is blank.
fn lang_marker(line: &str, shell: bool) -> (b: bool)
    ensures
        b == is_lang_marker(line@, shell),
{
    let t = str_trim(line);
    let s = t.as_str();
    s.unicode_len() == 0 || str_eq(s, "bash") || str_eq(s, "sh") || (shell && str_eq(s, "shell"))
}

/// The trimmed content of the first fenced code block of `text`.
pub fn extract_code_block(text: &str, shell: bool) -> (r: Option<String>)
    ensures
        opt_view(r) == code_block(text@, shell),
{
    proof {
        reveal_strlit("```");
    }
    let v = chars_of(text);
    let fence = chars_of("```");
    assert(fence@.len() == 3);
    let found = find_first_in(&v, &fence);
    if found.is_none() {
        return None;
    }
    let s = found.unwrap();
    assert(occurs_at(v@, fence@, s as int));
    assert(fence@.len() == 3);
    assert(s + 3 <= v@.len());
    assert(v@.len() == v.len());
    let rest = string_of_range(&v, s + 3, v.len());
    assert(rest@ =~= text@.skip(s + 3));
    let rv = chars_of(rest.as_str());
    let found_end = find_first_in(&rv, &fence);
    if found_end.is_none() {
        return None;
    }
    let e = found_end.unwrap();
    assert(occurs_at(rv@, fence@, e as int));
    let code = string_of_range(&rv, 0, e);
    assert(code@ =~= rest@.take(e as int));
    let ls = split_lines(code.as_str());
    let ghost all = views(ls@);
    let mut k: usize = 0;
    assert(all.skip(0) =~= all);
    while k < ls.len()
        invariant
            k <= ls@.len(),
            all == views(ls@),
            drop_markers(all, shell) == drop_markers(all.skip(k as int), shell),
        ensures
            k <= ls@.len(),
            drop_markers(all, shell) == drop_markers(all.skip(k as int), shell),
            k < ls@.len() ==> !is_lang_marker(all[k as int], shell),
        decreases ls.len() - k,
    {
        assert(all.skip(k as int)[0] == ls@[k as int]@);
        assert(all.skip(k as int).drop_first() =~= all.skip(k + 1));
        if !lang_marker(ls[k].as_str(), shell) {
            break;
        }
        k = k + 1;
    }
    let mut kept: Vec<String> = Vec::new();
    let mut j: usize = k;
    while j < ls.len()
        invariant
            k <= j <= ls@.len(),
            all == views(ls@),
            views(kept@) == all.subrange(k as int, j as int),
        decreases ls.len() - j,
    {
        let ghost before = kept@;
        kept.push(ls[j].clone());
        assert(views(kept@) =~= views(before).push(all[j as int]));
        assert(all.subrange(k as int, j + 1) =~= all.subrange(k as int, j as int).push(all[j as int]));
        j = j + 1;
    }
    assert(views(kept@) =~= all.skip(k as int));
    assert(drop_markers(all, shell) == all.skip(k as int)) by {
        if k < ls.len() {
            assert(all.skip(k as int)[0] == all[k as int]);
        } else {
            assert(all.skip(k as int).len() == 0);
        }
    }
    let joined = join_strings(&kept, "\n");
    Some(str_trim(joined.as_str()))
}

/// The command in a model's reply: the content of its first code block,
/// after any `bash`, `sh` or `shell` line.
pub fn extract_command(text: &str) -> (r: Option<String>)
    ensures
        opt_view(r) == code_block(text@, true),
{
    extract_code_block(text, true)
}

impl OllamaBackend {
    /// A backend for the default server address and model.
    pub fn new() -> (r: Self)
        ensures
            r.base_url@ == DEFAULT_BASE_URL@,
            r.model@ == DEFAULT_MODEL@,
    {
        OllamaBackend { base_url: owned(DEFAULT_BASE_URL), model: owned(DEFAULT_MODEL) }
    }

    /// The configured model.
    pub fn model_name(&self) -> (r: &str)
        ensures
            r@ == self.model@,
    {
        self.model.as_str()
    }

    /// The model to use among `available_models`: the first that starts
    /// with the best-ranked prefix that any of them has (codestral, then
    /// qwen2.5:14b, qwen2.5:7b, qwen2.5, llama3.2:3b, llama3.2, mistral),
    /// else the first one.
    pub fn recommend_model(available_models: &[String]) -> (r: Option<String>)
        ensures
            opt_view(r) == recommended(views(available_models@)),
    {
        let ghost all = views(available_models@);
        let mut k: usize = 0;
        while k < 7
            invariant
                k <= 7,
                all == views(available_models@),
                recommended(all) == recommended_from(all, k as nat),
            decreases 7 - k,
        {
            let p = priority_prefix(k);
            match find_prefixed(available_models, p) {
                Some(i) => {
                    return Some(available_models[i].clone());
                },
                None => {},
            }
            k = k + 1;
        }
        if available_models.len() > 0 {
            Some(available_models[0].clone())
        } else {
            None
        }
    }
}

impl OllamaStatus {
    /// The status reported after a probe: when the server did not answer,
    /// nothing is listed; otherwise the installed `models` and the model
    /// recommended among them.
    pub fn from_probe(available: bool, models: Vec<String>) -> (r: Self)
        ensures
            r.available == available,
            r.version is None,
            available ==> r.models@ == models@,
            !available ==> r.models@.len() == 0,
            available ==> opt_view(r.recommended_model) == recommended(views(models@)),
            !available ==> r.recommended_model is None,
    {
        if !available {
            return OllamaStatus {
                available: false,
                version: None,
                models: Vec::new(),
                recommended_model: None,
            };
        }
        let recommended_model = OllamaBackend::recommend_model(models.as_slice());
        OllamaStatus { available: true, version: None, models, recommended_model }
    }
}

} // verus!
