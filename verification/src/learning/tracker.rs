//! Records of errors the learner met. They are stored by the application.
use crate::text::{first_word, split_words, str_eq, views};
use vstd::prelude::*;

verus! {

/// One error the learner met.
#[derive(Debug, Clone)]
pub struct ErrorEncounter {
    pub id: i64,
    /// Unix time in milliseconds.
    pub timestamp: u64,
    pub error_type: String,
    pub key_message: String,
    pub command: String,
    pub exit_code: Option<i32>,
    pub resolved: bool,
    pub resolution_time_ms: Option<u64>,
    pub mentor_shown: bool,
}

/// How often errors of one type occurred and were resolved.
#[derive(Debug, Clone)]
pub struct ErrorSummary {
    pub error_type: String,
    pub count: u32,
    pub resolved_count: u32,
    /// Unix time in milliseconds.
    pub last_seen: u64,
}

/// The first word of `cmd`, or nothing.
pub open spec fn base_command(cmd: Seq<char>) -> Seq<char> {
    match first_word(cmd) {
        Some(w) => w,
        None => seq![],
    }
}

/// Whether two commands run the same program (have the same first word);
/// a retry of a failed command counts as an attempt to resolve it.
pub fn is_similar_command(cmd1: &str, cmd2: &str) -> (r: bool)
    ensures
        r == (base_command(cmd1@) == base_command(cmd2@)),
{
    let w1 = split_words(cmd1);
    let w2 = split_words(cmd2);
    let b1: &str = if w1.len() > 0 {
        w1[0].as_str()
    } else {
        ""
    };
    let b2: &str = if w2.len() > 0 {
        w2[0].as_str()
    } else {
        ""
    };
    proof {
        reveal_strlit("");
        if w1@.len() > 0 {
            assert(views(w1@)[0] == w1@[0]@);
        }
        if w2@.len() > 0 {
            assert(views(w2@)[0] == w2@[0]@);
        }
        assert(b1@ == base_command(cmd1@));
        assert(b2@ == base_command(cmd2@));
    }
    str_eq(b1, b2)
}

} // verus!
