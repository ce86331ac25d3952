//! Regular-expression matching, done by the `regex` crate. What a match
//! finds is named, not described: the library's contracts say what is done
//! with whatever the expression finds.
use crate::text::opt_view;
use vstd::prelude::*;

verus! {

/// The groups that the regular expression `pattern` captures at its first
/// match in `text` (group 0 being the whole match, a group that took no
/// part being absent), or nothing when it does not match or is not a valid
/// expression.
pub uninterp spec fn regex_captures_of(pattern: Seq<char>, text: Seq<char>) -> Option<Seq<Option<Seq<char>>>>;

/// Whether the regular expression `pattern` matches somewhere in `text`
/// (false when it is not a valid expression).
pub uninterp spec fn regex_matches(pattern: Seq<char>, text: Seq<char>) -> bool;

/// Captured groups as plain values.
pub open spec fn captures_view(o: Option<Vec<Option<String>>>) -> Option<Seq<Option<Seq<char>>>> {
    match o {
        Some(v) => Some(v@.map_values(|g: Option<String>| opt_view(g))),
        None => None,
    }
}

/// Compiles `pattern` with `regex::Regex::new` and calls `captures` on
/// `text`, giving each group's text; the result is named
/// `regex_captures_of`. As the crate documents, a match always has group
/// 0, the whole match.
#[verifier::external_body]
pub(crate) fn regex_captures(pattern: &str, text: &str) -> (r: Option<Vec<Option<String>>>)
    ensures
        captures_view(r) == regex_captures_of(pattern@, text@),
        r matches Some(v) ==> v@.len() >= 1 && v@[0] is Some,
{
    match regex::Regex::new(pattern) {
        Ok(re) => match re.captures(text) {
            Some(caps) => Some(caps.iter().map(|m| m.map(|m| m.as_str().to_string())).collect()),
            None => None,
        },
        Err(_) => None,
    }
}

/// Compiles `pattern` with `regex::Regex::new` and calls `is_match` on
/// `text`; the result is named `regex_matches`.
#[verifier::external_body]
pub(crate) fn regex_is_match(pattern: &str, text: &str) -> (r: bool)
    ensures
        r == regex_matches(pattern@, text@),
{
    match regex::Regex::new(pattern) {
        Ok(re) => re.is_match(text),
        Err(_) => false,
    }
}

} // verus!
