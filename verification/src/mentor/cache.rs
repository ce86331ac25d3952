//! What the guidance cache stores under: the key of an error. The cache's
//! database is kept by the application.
use crate::mentor::types::{error_type_name, ErrorInfo};
use crate::text::{chars_of, is_whitespace, is_ws, lowercase, owned, push_char, to_lowercase};
use vstd::prelude::*;

verus! {

/// How many entries the cache holds and how often they were used.
#[derive(Debug, Clone)]
pub struct CacheStats {
    pub total_entries: usize,
    pub total_hits: usize,
}

/// Whether `c` is alphabetic or numeric in Unicode (`char::is_alphanumeric`).
pub uninterp spec fn alphanumeric(c: char) -> bool;

/// Calls `char::is_alphanumeric`; the result is named `alphanumeric`.
#[verifier::external_body]
fn is_alphanumeric(c: char) -> (r: bool)
    ensures
        r == alphanumeric(c),
{
    c.is_alphanumeric()
}

/// `s` keeping only letters, digits and whitespace.
pub open spec fn keep_words(s: Seq<char>) -> Seq<char>
    decreases s.len(),
{
    if s.len() == 0 {
        seq![]
    } else if alphanumeric(s.last()) || is_ws(s.last()) {
        keep_words(s.drop_last()).push(s.last())
    } else {
        keep_words(s.drop_last())
    }
}

/// The cache key of an error: its type's name, a colon, and its key
/// message in lower case keeping only letters, digits and whitespace.
pub open spec fn cache_key_of(e: ErrorInfo) -> Seq<char> {
    error_type_name(e.error_type) + ":"@ + keep_words(lowercase(e.key_message@))
}

/// The key under which guidance for `error` is cached; errors that differ
/// only in case or punctuation share it.
pub fn cache_key(error: &ErrorInfo) -> (r: String)
    ensures
        r@ == cache_key_of(*error),
{
    let lower = to_lowercase(error.key_message.as_str());
    let v = chars_of(lower.as_str());
    let mut kept = String::new();
    let mut i: usize = 0;
    while i < v.len()
        invariant
            i <= v@.len(),
            v@ == lowercase(error.key_message@),
            kept@ == keep_words(v@.take(i as int)),
        decreases v.len() - i,
    {
        assert(v@.take(i + 1).drop_last() =~= v@.take(i as int));
        assert(v@.take(i + 1).last() == v@[i as int]);
        let c = v[i];
        if is_alphanumeric(c) || is_whitespace(c) {
            push_char(&mut kept, c);
        }
        i = i + 1;
    }
    assert(v@.take(v@.len() as int) =~= v@);
    let mut key = owned(error.error_type.name());
    key.append(":");
    key.append(kept.as_str());
    key
}

/// Errors of one type whose key messages differ only in case share a
/// cache key.
pub proof fn law_cache_key_ignores_case(a: ErrorInfo, b: ErrorInfo)
    requires
        a.error_type == b.error_type,
        lowercase(a.key_message@) == lowercase(b.key_message@),
    ensures
        cache_key_of(a) == cache_key_of(b),
{
}

} // verus!
