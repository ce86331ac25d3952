//! What a box rendered without colors holds: no escape character.
use crate::mentor::colors::colored;
use crate::mentor::guidance::MentorGuidance;
use crate::mentor::display::{
    error_explanation, error_step_lines, guidance_step_lines, learning_concepts, next_steps_for, search_suggestion,
    step_text, verbose_error_text, verbose_guidance_text, verbose_key_lines, c_command, c_concept,
    bottom_border, guidance_box, guidance_cuts_ok, normal_guidance_text, prefixed_lines, wrap_from, wrapped, box_line, c_border, c_error, c_key, c_location, c_reset, c_search, c_dim, c_title, compact_box,
    empty_line, error_box, error_cuts_ok, named_command, normal_error_text, quick_suggestion, top_border,
    truncate_ok, truncated, Verbosity,
};
use crate::mentor::types::{error_type_name, location_text, ErrorInfo, ErrorType, SourceLocation};
use crate::text::{byte_len, dec, digit, first_word, join, last_word, repeat, take_bytes, views, words, words_from};
use vstd::prelude::*;

verus! {

/// `s` holds no escape character.
pub open spec fn no_escape(s: Seq<char>) -> bool {
    forall|i: int| 0 <= i < s.len() ==> s[i] != '\x1b'
}

/// Joining texts without escapes gives none.
pub broadcast proof fn lemma_no_escape_concat(a: Seq<char>, b: Seq<char>)
    requires
        no_escape(a),
        no_escape(b),
    ensures
        #[trigger] no_escape(a + b),
{
    assert forall|i: int| 0 <= i < (a + b).len() implies (a + b)[i] != '\x1b' by {
        if i >= a.len() {
            assert((a + b)[i] == b[i - a.len()]);
        }
    }
}

/// Repeating a text without escapes gives none.
proof fn lemma_no_escape_repeat(s: Seq<char>, n: nat)
    requires
        no_escape(s),
    ensures
        no_escape(repeat(s, n)),
    decreases n,
{
    reveal_strlit("");
    if n > 0 {
        lemma_no_escape_repeat(s, (n - 1) as nat);
        lemma_no_escape_concat(repeat(s, (n - 1) as nat), s);
    }
}

/// A text cut to a number of bytes on a character boundary keeps no escape.
proof fn lemma_no_escape_truncated(s: Seq<char>, max: nat)
    requires
        no_escape(s),
        truncate_ok(s, max),
    ensures
        no_escape(truncated(s, max)),
{
    reveal_strlit("...");
    assert("..."@ =~= seq!['.', '.', '.']);
    if byte_len(s) > max {
        let m: int = if max > 3 { max - 3 } else { max as int };
        let k = choose|k: int| 0 <= k <= s.len() && byte_len(s.take(k)) == m;
        assert(take_bytes(s, m) == s.take(k));
        assert(no_escape(s.take(k)));
        if max > 3 {
            lemma_no_escape_concat(s.take(k), "..."@);
        }
    }
}

/// Colors disabled add nothing.
proof fn lemma_colorless(code: Seq<char>)
    ensures
        colored(false, code) == Seq::<char>::empty(),
{
    reveal_strlit("");
}

/// The borders of a compact box hold no escape character.
proof fn lemma_compact_literals()
    ensures
        no_escape("┌─ MENTOR "@),
        no_escape("─"@),
        no_escape("┐"@),
        no_escape("\n"@),
        no_escape("│"@),
        no_escape(" "@),
        no_escape("└"@),
        no_escape("┘"@),
{
    reveal_strlit("┌─ MENTOR ");
    reveal_strlit("─");
    reveal_strlit("┐");
    reveal_strlit("\n");
    reveal_strlit("│");
    reveal_strlit(" ");
    reveal_strlit("└");
    reveal_strlit("┘");
    let t = "┌─ MENTOR "@;
    assert forall|i: int| 0 <= i < t.len() implies t[i] != '\x1b' by {
        assert(i == 0 || i == 1 || i == 2 || i == 3 || i == 4 || i == 5 || i == 6 || i == 7 || i == 8 || i == 9);
    }
}

/// With colors disabled, a compact box holds no escape character when its
/// key message holds none (and can be cut where the box cuts it).
proof fn lemma_colorless_compact_box(box_width: nat, key: Seq<char>)
    requires
        40 <= box_width,
        no_escape(key),
        truncate_ok(key, ((if box_width < 60 { box_width } else { 60 }) - 8) as nat),
    ensures
        no_escape(compact_box(false, box_width, key)),
{
    let width: nat = if box_width < 60 { box_width } else { 60 };
    let inner: nat = (width - 4) as nat;
    let k = truncated(key, (inner - 4) as nat);
    let pad: nat = if inner > byte_len(k) { (inner - byte_len(k)) as nat } else { 0 };
    lemma_compact_literals();
    lemma_colorless("\x1b[36m"@);
    lemma_colorless("\x1b[0m"@);
    lemma_colorless("\x1b[1;33m"@);
    lemma_no_escape_truncated(key, (inner - 4) as nat);
    lemma_no_escape_repeat("─"@, (width - 12) as nat);
    lemma_no_escape_repeat(" "@, pad);
    lemma_no_escape_repeat("─"@, (width - 2) as nat);
    let e = Seq::<char>::empty();
    let top = e + "┌─ MENTOR "@ + repeat("─"@, (width - 12) as nat) + "┐"@ + e + "\n"@;
    let mid = e + "│"@ + e + " "@ + k + e + " "@ + repeat(" "@, pad) + "│"@ + e + "\n"@;
    let bot = e + "└"@ + repeat("─"@, (width - 2) as nat) + "┘"@ + e;
    assert(no_escape(top)) by {
        lemma_no_escape_concat(e, "┌─ MENTOR "@);
        lemma_no_escape_concat(e + "┌─ MENTOR "@, repeat("─"@, (width - 12) as nat));
        lemma_no_escape_concat(e + "┌─ MENTOR "@ + repeat("─"@, (width - 12) as nat), "┐"@);
        lemma_no_escape_concat(e + "┌─ MENTOR "@ + repeat("─"@, (width - 12) as nat) + "┐"@, e);
        lemma_no_escape_concat(e + "┌─ MENTOR "@ + repeat("─"@, (width - 12) as nat) + "┐"@ + e, "\n"@);
    }
    assert(no_escape(mid)) by {
        let p1 = e + "│"@;
        lemma_no_escape_concat(e, "│"@);
        lemma_no_escape_concat(p1, e);
        lemma_no_escape_concat(p1 + e, " "@);
        lemma_no_escape_concat(p1 + e + " "@, k);
        lemma_no_escape_concat(p1 + e + " "@ + k, e);
        lemma_no_escape_concat(p1 + e + " "@ + k + e, " "@);
        lemma_no_escape_concat(p1 + e + " "@ + k + e + " "@, repeat(" "@, pad));
        lemma_no_escape_concat(p1 + e + " "@ + k + e + " "@ + repeat(" "@, pad), "│"@);
        lemma_no_escape_concat(p1 + e + " "@ + k + e + " "@ + repeat(" "@, pad) + "│"@, e);
        lemma_no_escape_concat(p1 + e + " "@ + k + e + " "@ + repeat(" "@, pad) + "│"@ + e, "\n"@);
    }
    assert(no_escape(bot)) by {
        lemma_no_escape_concat(e, "└"@);
        lemma_no_escape_concat(e + "└"@, repeat("─"@, (width - 2) as nat));
        lemma_no_escape_concat(e + "└"@ + repeat("─"@, (width - 2) as nat), "┘"@);
        lemma_no_escape_concat(e + "└"@ + repeat("─"@, (width - 2) as nat) + "┘"@, e);
    }
    lemma_no_escape_concat(top, mid);
    lemma_no_escape_concat(top + mid, bot);
    assert(compact_box(false, box_width, key) == top + mid + bot);
}



/// `s` holds no escape character, checked character by character.
pub open spec fn esc_free(s: Seq<char>) -> bool
    decreases s.len(),
{
    s.len() == 0 || (s[0] != '\x1b' && esc_free(s.drop_first()))
}

/// The character-by-character check agrees with `no_escape`.
proof fn lemma_esc_free(s: Seq<char>)
    requires
        esc_free(s),
    ensures
        no_escape(s),
    decreases s.len(),
{
    if s.len() > 0 {
        lemma_esc_free(s.drop_first());
        assert forall|i: int| 0 <= i < s.len() implies s[i] != '\x1b' by {
            if i > 0 {
                assert(s[i] == s.drop_first()[i - 1]);
            }
        }
    }
}

/// The names of the error types hold no escape character.
proof fn lemma_type_names(t: ErrorType)
    ensures
        no_escape(error_type_name(t)),
{
    reveal_with_fuel(esc_free, 30);
    match t {
        ErrorType::CommandNotFound => {
            reveal_strlit("Command Not Found");
            lemma_esc_free("Command Not Found"@);
        },
        ErrorType::PermissionDenied => {
            reveal_strlit("Permission Denied");
            lemma_esc_free("Permission Denied"@);
        },
        ErrorType::FileNotFound => {
            reveal_strlit("File Not Found");
            lemma_esc_free("File Not Found"@);
        },
        ErrorType::SyntaxError => {
            reveal_strlit("Syntax Error");
            lemma_esc_free("Syntax Error"@);
        },
        ErrorType::ConnectionRefused => {
            reveal_strlit("Connection Refused");
            lemma_esc_free("Connection Refused"@);
        },
        ErrorType::ConnectionTimeout => {
            reveal_strlit("Connection Timeout");
            lemma_esc_free("Connection Timeout"@);
        },
        ErrorType::ConfigurationError => {
            reveal_strlit("Configuration Error");
            lemma_esc_free("Configuration Error"@);
        },
        ErrorType::ResourceNotFound => {
            reveal_strlit("Resource Not Found");
            lemma_esc_free("Resource Not Found"@);
        },
        ErrorType::AuthenticationFailed => {
            reveal_strlit("Authentication Failed");
            lemma_esc_free("Authentication Failed"@);
        },
        ErrorType::DiskFull => {
            reveal_strlit("Disk Full");
            lemma_esc_free("Disk Full"@);
        },
        ErrorType::Timeout => {
            reveal_strlit("Timeout");
            lemma_esc_free("Timeout"@);
        },
        ErrorType::OutOfMemory => {
            reveal_strlit("Out of Memory");
            lemma_esc_free("Out of Memory"@);
        },
        ErrorType::PortInUse => {
            reveal_strlit("Port Already in Use");
            lemma_esc_free("Port Already in Use"@);
        },
        ErrorType::InvalidArgument => {
            reveal_strlit("Invalid Argument");
            lemma_esc_free("Invalid Argument"@);
        },
        ErrorType::DependencyError => {
            reveal_strlit("Dependency Error");
            lemma_esc_free("Dependency Error"@);
        },
        ErrorType::GitError => {
            reveal_strlit("Git Error");
            lemma_esc_free("Git Error"@);
        },
        ErrorType::DockerError => {
            reveal_strlit("Docker Error");
            lemma_esc_free("Docker Error"@);
        },
        ErrorType::KubernetesError => {
            reveal_strlit("Kubernetes Error");
            lemma_esc_free("Kubernetes Error"@);
        },
        ErrorType::DatabaseError => {
            reveal_strlit("Database Error");
            lemma_esc_free("Database Error"@);
        },
        ErrorType::Unknown => {
            reveal_strlit("Unknown Error");
            lemma_esc_free("Unknown Error"@);
        },
    }
}

/// The fixed texts of a normal error box hold no escape character.
proof fn lemma_normal_literals()
    ensures
        no_escape("\n"@),
        no_escape("┌─ "@),
        no_escape("MENTOR"@),
        no_escape(" "@),
        no_escape("─"@),
        no_escape("┐"@),
        no_escape("│"@),
        no_escape("└"@),
        no_escape("┘"@),
        no_escape("  "@),
        no_escape("Type:"@),
        no_escape("Key:"@),
        no_escape("Location:"@),
        no_escape("Try:"@),
        no_escape(":"@),
        no_escape("which "@),
        no_escape(" or brew install "@),
        no_escape("sudo !!"@),
        no_escape("ls -la to check path"@),
        no_escape("Check if service is running"@),
        no_escape("lsof -i :<port> to find process"@),
        no_escape("command"@),
{
    reveal_with_fuel(esc_free, 35);
    reveal_strlit("\n");
    lemma_esc_free("\n"@);
    reveal_strlit("┌─ ");
    lemma_esc_free("┌─ "@);
    reveal_strlit("MENTOR");
    lemma_esc_free("MENTOR"@);
    reveal_strlit(" ");
    lemma_esc_free(" "@);
    reveal_strlit("─");
    lemma_esc_free("─"@);
    reveal_strlit("┐");
    lemma_esc_free("┐"@);
    reveal_strlit("│");
    lemma_esc_free("│"@);
    reveal_strlit("└");
    lemma_esc_free("└"@);
    reveal_strlit("┘");
    lemma_esc_free("┘"@);
    reveal_strlit("  ");
    lemma_esc_free("  "@);
    reveal_strlit("Type:");
    lemma_esc_free("Type:"@);
    reveal_strlit("Key:");
    lemma_esc_free("Key:"@);
    reveal_strlit("Location:");
    lemma_esc_free("Location:"@);
    reveal_strlit("Try:");
    lemma_esc_free("Try:"@);
    reveal_strlit(":");
    lemma_esc_free(":"@);
    reveal_strlit("which ");
    lemma_esc_free("which "@);
    reveal_strlit(" or brew install ");
    lemma_esc_free(" or brew install "@);
    reveal_strlit("sudo !!");
    lemma_esc_free("sudo !!"@);
    reveal_strlit("ls -la to check path");
    lemma_esc_free("ls -la to check path"@);
    reveal_strlit("Check if service is running");
    lemma_esc_free("Check if service is running"@);
    reveal_strlit("lsof -i :<port> to find process");
    lemma_esc_free("lsof -i :<port> to find process"@);
    reveal_strlit("command");
    lemma_esc_free("command"@);
}

/// Decimal numbers hold no escape character.
proof fn lemma_dec_no_escape(n: nat)
    ensures
        no_escape(dec(n)),
    decreases n,
{
    if n >= 10 {
        lemma_dec_no_escape(n / 10);
        assert forall|i: int| 0 <= i < dec(n).len() implies dec(n)[i] != '\x1b' by {
            if i < dec(n / 10).len() {
                assert(dec(n)[i] == dec(n / 10)[i]);
            }
        }
    }
}

/// A location holds no escape character when its file name holds none.
proof fn lemma_location_no_escape(loc: SourceLocation)
    requires
        no_escape(loc.file@),
    ensures
        no_escape(location_text(loc)),
{
    broadcast use lemma_no_escape_concat;
    lemma_normal_literals();
    match loc.line {
        Some(l) => {
            lemma_dec_no_escape(l as nat);
            match loc.column {
                Some(c) => {
                    lemma_dec_no_escape(c as nat);
                },
                None => {
                    assert(no_escape(Seq::<char>::empty()));
                },
            }
        },
        None => {},
    }
}

/// The words of a text without escapes hold none.
proof fn lemma_words_no_escape(s: Seq<char>, cur: Seq<char>, acc: Seq<Seq<char>>)
    requires
        no_escape(s),
        no_escape(cur),
        forall|i: int| 0 <= i < acc.len() ==> no_escape(#[trigger] acc[i]),
    ensures
        forall|i: int| 0 <= i < words_from(s, cur, acc).len() ==> no_escape(#[trigger] words_from(s, cur, acc)[i]),
    decreases s.len(),
{
    if s.len() > 0 {
        assert(s[0] != '\x1b');
        assert(no_escape(s.drop_first())) by {
            assert forall|i: int| 0 <= i < s.drop_first().len() implies s.drop_first()[i] != '\x1b' by {
                assert(s.drop_first()[i] == s[i + 1]);
            }
        }
        if crate::text::is_ws(s[0]) {
            let acc2 = if cur.len() > 0 { acc.push(cur) } else { acc };
            assert forall|i: int| 0 <= i < acc2.len() implies no_escape(#[trigger] acc2[i]) by {
                if i < acc.len() {
                    assert(acc2[i] == acc[i]);
                }
            }
            lemma_words_no_escape(s.drop_first(), seq![], acc2);
            assert(words_from(s, cur, acc) == words_from(s.drop_first(), seq![], acc2));
        } else {
            assert(no_escape(cur.push(s[0]))) by {
                assert forall|i: int| 0 <= i < cur.push(s[0]).len() implies cur.push(s[0])[i] != '\x1b' by {
                    if i < cur.len() {
                        assert(cur.push(s[0])[i] == cur[i]);
                    }
                }
            }
            lemma_words_no_escape(s.drop_first(), cur.push(s[0]), acc);
            assert(words_from(s, cur, acc) == words_from(s.drop_first(), cur.push(s[0]), acc));
        }
    } else {
        let r = if cur.len() > 0 { acc.push(cur) } else { acc };
        assert(words_from(s, cur, acc) == r);
        assert forall|i: int| 0 <= i < r.len() implies no_escape(#[trigger] r[i]) by {
            if i < acc.len() {
                assert(r[i] == acc[i]);
            }
        }
    }
}

/// The one-line suggestion holds no escape character when the key message
/// holds none.
proof fn lemma_quick_no_escape(err: ErrorInfo)
    requires
        no_escape(err.key_message@),
    ensures
        quick_suggestion(err) matches Some(x) ==> no_escape(x),
{
    broadcast use lemma_no_escape_concat;
    lemma_normal_literals();
    lemma_words_no_escape(err.key_message@, seq![], seq![]);
    let ws = words(err.key_message@);
    if ws.len() > 0 {
        assert(no_escape(ws[ws.len() - 1]));
    }
    assert(no_escape(named_command(err.key_message@)));
}

/// A content line holds no escape character when its content holds none.
proof fn lemma_box_line_no_escape(width: nat, content: Seq<char>)
    requires
        no_escape(content),
    ensures
        no_escape(box_line(false, width, content)),
{
    broadcast use lemma_no_escape_concat;
    lemma_normal_literals();
    lemma_colorless("\x1b[36m"@);
    lemma_colorless("\x1b[0m"@);
    let pad: nat = if width - 2 > crate::mentor::display::visible_len(content) {
        (width - 2 - crate::mentor::display::visible_len(content)) as nat
    } else {
        0
    };
    lemma_no_escape_repeat(" "@, pad);
    assert(no_escape(Seq::<char>::empty()));
}

/// The empty lines and borders hold no escape character.
proof fn lemma_frame_no_escape(width: nat)
    ensures
        no_escape(empty_line(false, width)),
        no_escape(top_border(false, width)),
        no_escape(bottom_border(false, width)),
{
    broadcast use lemma_no_escape_concat;
    lemma_normal_literals();
    lemma_colorless("\x1b[36m"@);
    lemma_colorless("\x1b[0m"@);
    lemma_colorless("\x1b[1;36m"@);
    lemma_no_escape_repeat(" "@, (width - 2) as nat);
    lemma_no_escape_repeat("─"@, (width - 12) as nat);
    lemma_no_escape_repeat("─"@, (width - 2) as nat);
    assert(no_escape(Seq::<char>::empty()));
}

/// With colors disabled, a normal error box holds no escape character when
/// the key message and the location's file name hold none (and can be cut
/// where the box cuts them).
proof fn lemma_colorless_normal_error_box(width: nat, err: ErrorInfo)
    requires
        40 <= width,
        no_escape(err.key_message@),
        err.source_location matches Some(l) ==> no_escape(l.file@),
        error_cuts_ok(Verbosity::Normal, width, err),
    ensures
        no_escape(error_box(Verbosity::Normal, false, width, err)),
{
    broadcast use lemma_no_escape_concat;
    let inner = (width - 4) as nat;
    let e = Seq::<char>::empty();
    assert(no_escape(e));
    lemma_normal_literals();
    lemma_frame_no_escape(width);
    lemma_colorless("\x1b[2m"@);
    lemma_colorless("\x1b[0m"@);
    lemma_colorless("\x1b[1;31m"@);
    lemma_colorless("\x1b[1;33m"@);
    lemma_colorless("\x1b[34m"@);
    lemma_colorless("\x1b[32m"@);
    lemma_type_names(err.error_type);
    lemma_no_escape_truncated(err.key_message@, (inner - 10) as nat);
    lemma_box_line_no_escape(width, "  "@ + e + "Type:"@ + e + " "@ + error_type_name(err.error_type));
    lemma_box_line_no_escape(width, "  "@ + e + "Key:"@ + e + " "@ + e + truncated(err.key_message@, (inner - 10) as nat) + e);
    match err.source_location {
        Some(loc) => {
            lemma_location_no_escape(loc);
            lemma_no_escape_truncated(location_text(loc), (inner - 14) as nat);
            lemma_box_line_no_escape(width, "  "@ + e + "Location:"@ + e + " "@ + e + truncated(location_text(loc), (inner - 14) as nat) + e);
        },
        None => {},
    }
    lemma_quick_no_escape(err);
    match quick_suggestion(err) {
        Some(sg) => {
            lemma_box_line_no_escape(width, "  "@ + e + "Try:"@ + e + " "@ + sg);
        },
        None => {},
    }
    assert(c_border(false) == e && c_title(false) == e && c_reset(false) == e && c_dim(false) == e && c_error(false) == e
        && c_key(false) == e && c_location(false) == e && c_search(false) == e);
    assert(no_escape(normal_error_text(false, width, err)));
}

/// Every text of `v` is free of escape characters.
pub open spec fn all_no_escape(v: Seq<Seq<char>>) -> bool {
    forall|i: int| 0 <= i < v.len() ==> no_escape(#[trigger] v[i])
}

/// The texts of guidance hold no escape character: key message,
/// explanation, search keywords, each step's description and command, and
/// related concepts.
pub open spec fn guidance_plain(g: MentorGuidance) -> bool {
    &&& no_escape(g.key_message@)
    &&& no_escape(g.explanation@)
    &&& forall|i: int| 0 <= i < g.search_keywords@.len() ==> no_escape(#[trigger] g.search_keywords@[i]@)
    &&& forall|i: int| 0 <= i < g.next_steps@.len() ==> no_escape(#[trigger] g.next_steps@[i].description@)
    &&& forall|i: int| 0 <= i < g.next_steps@.len() ==> (#[trigger] g.next_steps@[i].command matches Some(c) ==> no_escape(c@))
    &&& forall|i: int| 0 <= i < g.related_concepts@.len() ==> no_escape(#[trigger] g.related_concepts@[i]@)
}

/// Wrapping words without escapes gives lines without escapes.
proof fn lemma_wrap_no_escape(ws: Seq<Seq<char>>, width: nat, cur: Seq<char>, acc: Seq<Seq<char>>)
    requires
        all_no_escape(ws),
        no_escape(cur),
        all_no_escape(acc),
    ensures
        all_no_escape(wrap_from(ws, width, cur, acc)),
    decreases ws.len(),
{
    broadcast use lemma_no_escape_concat;
    if ws.len() == 0 {
        let r = if cur.len() > 0 { acc.push(cur) } else { acc };
        assert(wrap_from(ws, width, cur, acc) == r);
        assert forall|i: int| 0 <= i < r.len() implies no_escape(#[trigger] r[i]) by {
            if i < acc.len() {
                assert(r[i] == acc[i]);
            }
        }
    } else {
        let rest = ws.drop_first();
        assert(all_no_escape(rest)) by {
            assert forall|i: int| 0 <= i < rest.len() implies no_escape(#[trigger] rest[i]) by {
                assert(rest[i] == ws[i + 1]);
            }
        }
        assert(no_escape(ws[0]));
        if cur.len() == 0 {
            lemma_wrap_no_escape(rest, width, ws[0], acc);
        } else if byte_len(cur) + 1 + byte_len(ws[0]) <= width {
            lemma_normal_literals();
            lemma_wrap_no_escape(rest, width, cur + " "@ + ws[0], acc);
        } else {
            let acc2 = acc.push(cur);
            assert forall|i: int| 0 <= i < acc2.len() implies no_escape(#[trigger] acc2[i]) by {
                if i < acc.len() {
                    assert(acc2[i] == acc[i]);
                }
            }
            lemma_wrap_no_escape(rest, width, ws[0], acc2);
        }
    }
}

/// The wrapped lines of a text without escapes hold none.
proof fn lemma_wrapped_no_escape(text: Seq<char>, width: nat)
    requires
        no_escape(text),
    ensures
        all_no_escape(wrapped(text, width)),
{
    lemma_words_no_escape(text, seq![], seq![]);
    assert(no_escape(Seq::<char>::empty()));
    lemma_wrap_no_escape(words(text), width, seq![], seq![]);
}

/// Prefixed lines without escapes hold none.
proof fn lemma_prefixed_no_escape(width: nat, prefix: Seq<char>, ls: Seq<Seq<char>>)
    requires
        no_escape(prefix),
        all_no_escape(ls),
    ensures
        no_escape(prefixed_lines(false, width, prefix, ls)),
    decreases ls.len(),
{
    broadcast use lemma_no_escape_concat;
    if ls.len() == 0 {
        assert(no_escape(Seq::<char>::empty()));
    } else {
        assert(all_no_escape(ls.drop_last())) by {
            assert forall|i: int| 0 <= i < ls.drop_last().len() implies no_escape(#[trigger] ls.drop_last()[i]) by {
                assert(ls.drop_last()[i] == ls[i]);
            }
        }
        assert(no_escape(ls.last()));
        lemma_prefixed_no_escape(width, prefix, ls.drop_last());
        lemma_box_line_no_escape(width, prefix + ls.last());
    }
}

/// With colors disabled, a normal guidance box holds no escape character
/// when the guidance's texts hold none (and its key message can be cut
/// where the box cuts it).
proof fn lemma_colorless_normal_guidance_box(width: nat, g: MentorGuidance)
    requires
        40 <= width,
        guidance_plain(g),
        guidance_cuts_ok(Verbosity::Normal, width, g),
    ensures
        no_escape(guidance_box(Verbosity::Normal, false, width, g)),
{
    broadcast use lemma_no_escape_concat;
    let inner = (width - 4) as nat;
    let e = Seq::<char>::empty();
    assert(no_escape(e));
    reveal_strlit("Try: ");
    reveal_with_fuel(esc_free, 10);
    lemma_esc_free("Try: "@);
    lemma_normal_literals();
    lemma_frame_no_escape(width);
    lemma_colorless("\x1b[1;31m"@);
    lemma_colorless("\x1b[0m"@);
    lemma_colorless("\x1b[1;33m"@);
    lemma_colorless("\x1b[32m"@);
    lemma_colorless("\x1b[1;37m"@);
    lemma_no_escape_truncated(g.key_message@, (inner - 10) as nat);
    lemma_box_line_no_escape(width, "  "@ + e + "Key:"@ + e + " "@ + e + truncated(g.key_message@, (inner - 10) as nat) + e);
    lemma_wrapped_no_escape(g.explanation@, (inner - 4) as nat);
    lemma_prefixed_no_escape(width, "  "@, wrapped(g.explanation@, (inner - 4) as nat));
    if g.next_steps@.len() > 0 {
        let step = g.next_steps@[0];
        assert(no_escape(step.description@));
        let t = match step.command {
            Some(c) => "Try: "@ + e + c@ + e,
            None => "Try: "@ + step.description@,
        };
        assert(no_escape(t));
        lemma_box_line_no_escape(width, "  "@ + e + t + e);
    }
    assert(crate::mentor::display::c_command(false) == e && c_reset(false) == e && c_search(false) == e
        && c_error(false) == e && c_key(false) == e);
    assert(no_escape(normal_guidance_text(false, width, g)));
}



/// `s` checked for escape characters 20 characters at a time.
pub open spec fn esc_free_chunked(s: Seq<char>) -> bool
    decreases s.len(),
{
    if s.len() <= 20 {
        esc_free(s)
    } else {
        esc_free(s.take(20)) && esc_free_chunked(s.skip(20))
    }
}

/// The chunked check agrees with `no_escape`.
proof fn lemma_esc_free_chunked(s: Seq<char>)
    requires
        esc_free_chunked(s),
    ensures
        no_escape(s),
    decreases s.len(),
{
    if s.len() <= 20 {
        lemma_esc_free(s);
    } else {
        lemma_esc_free(s.take(20));
        lemma_esc_free_chunked(s.skip(20));
        assert(s =~= s.take(20) + s.skip(20));
        lemma_no_escape_concat(s.take(20), s.skip(20));
    }
}


/// One explanation holds no escape character.
#[verifier::spinoff_prover]
proof fn lemma_explanation_0()
    ensures
        no_escape("The shell cannot find this command. It's either not installed, or not in your PATH environment variable."@),
{
    reveal_with_fuel(esc_free, 22);
    reveal_with_fuel(esc_free_chunked, 9);
    reveal_strlit("The shell cannot find this command. It's either not installed, or not in your PATH environment variable.");
    lemma_esc_free_chunked("The shell cannot find this command. It's either not installed, or not in your PATH environment variable."@);
}

/// One explanation holds no escape character.
#[verifier::spinoff_prover]
proof fn lemma_explanation_1()
    ensures
        no_escape("You don't have permission to perform this action. This usually means you need elevated privileges (sudo) or the file/directory permissions need to be changed."@),
{
    reveal_with_fuel(esc_free, 22);
    reveal_with_fuel(esc_free_chunked, 9);
    reveal_strlit("You don't have permission to perform this action. This usually means you need elevated privileges (sudo) or the file/directory permissions need to be changed.");
    lemma_esc_free_chunked("You don't have permission to perform this action. This usually means you need elevated privileges (sudo) or the file/directory permissions need to be changed."@);
}

/// One explanation holds no escape character.
#[verifier::spinoff_prover]
proof fn lemma_explanation_2()
    ensures
        no_escape("The specified file or directory doesn't exist. Check the path for typos or verify the file was created."@),
{
    reveal_with_fuel(esc_free, 22);
    reveal_with_fuel(esc_free_chunked, 9);
    reveal_strlit("The specified file or directory doesn't exist. Check the path for typos or verify the file was created.");
    lemma_esc_free_chunked("The specified file or directory doesn't exist. Check the path for typos or verify the file was created."@);
}

/// One explanation holds no escape character.
#[verifier::spinoff_prover]
proof fn lemma_explanation_3()
    ensures
        no_escape("There's a syntax error in the command or configuration file. Check for typos, missing quotes, or incorrect formatting."@),
{
    reveal_with_fuel(esc_free, 22);
    reveal_with_fuel(esc_free_chunked, 9);
    reveal_strlit("There's a syntax error in the command or configuration file. Check for typos, missing quotes, or incorrect formatting.");
    lemma_esc_free_chunked("There's a syntax error in the command or configuration file. Check for typos, missing quotes, or incorrect formatting."@);
}

/// One explanation holds no escape character.
#[verifier::spinoff_prover]
proof fn lemma_explanation_4()
    ensures
        no_escape("The connection was refused by the target. The service might not be running, or a firewall is blocking it."@),
{
    reveal_with_fuel(esc_free, 22);
    reveal_with_fuel(esc_free_chunked, 9);
    reveal_strlit("The connection was refused by the target. The service might not be running, or a firewall is blocking it.");
    lemma_esc_free_chunked("The connection was refused by the target. The service might not be running, or a firewall is blocking it."@);
}

/// One explanation holds no escape character.
#[verifier::spinoff_prover]
proof fn lemma_explanation_5()
    ensures
        no_escape("There's an error in a configuration file. Check the file for typos or invalid directives."@),
{
    reveal_with_fuel(esc_free, 22);
    reveal_with_fuel(esc_free_chunked, 9);
    reveal_strlit("There's an error in a configuration file. Check the file for typos or invalid directives.");
    lemma_esc_free_chunked("There's an error in a configuration file. Check the file for typos or invalid directives."@);
}

/// One explanation holds no escape character.
#[verifier::spinoff_prover]
proof fn lemma_explanation_6()
    ensures
        no_escape("Another process is already using this port. You'll need to stop that process or use a different port."@),
{
    reveal_with_fuel(esc_free, 22);
    reveal_with_fuel(esc_free_chunked, 9);
    reveal_strlit("Another process is already using this port. You'll need to stop that process or use a different port.");
    lemma_esc_free_chunked("Another process is already using this port. You'll need to stop that process or use a different port."@);
}

/// One explanation holds no escape character.
#[verifier::spinoff_prover]
proof fn lemma_explanation_7()
    ensures
        no_escape("A required module or dependency is missing. You may need to install it or check your import paths."@),
{
    reveal_with_fuel(esc_free, 22);
    reveal_with_fuel(esc_free_chunked, 9);
    reveal_strlit("A required module or dependency is missing. You may need to install it or check your import paths.");
    lemma_esc_free_chunked("A required module or dependency is missing. You may need to install it or check your import paths."@);
}

/// The explanations of error types hold no escape character.
proof fn lemma_explanations_no_escape(t: ErrorType)
    ensures
        crate::mentor::display::error_explanation(t) matches Some(x) ==> no_escape(x),
{
    match t {
        ErrorType::CommandNotFound => lemma_explanation_0(),
        ErrorType::PermissionDenied => lemma_explanation_1(),
        ErrorType::FileNotFound => lemma_explanation_2(),
        ErrorType::SyntaxError => lemma_explanation_3(),
        ErrorType::ConnectionRefused => lemma_explanation_4(),
        ErrorType::ConfigurationError => lemma_explanation_5(),
        ErrorType::PortInUse => lemma_explanation_6(),
        ErrorType::DependencyError => lemma_explanation_7(),
        _ => {},
    }
}

/// Fixed texts of the verbose boxes hold no escape character.
#[verifier::spinoff_prover]
proof fn lemma_verbose_literals_0()
    ensures
        no_escape("\""@),
        no_escape(" \""@),
        no_escape("       "@),
        no_escape("~"@),
        no_escape("This means:"@),
        no_escape("    "@),
        no_escape("Search:"@),
        no_escape("Next steps:"@),
{
    reveal_with_fuel(esc_free, 22);
    reveal_with_fuel(esc_free_chunked, 4);
    reveal_strlit("\"");
    lemma_esc_free_chunked("\""@);
    reveal_strlit(" \"");
    lemma_esc_free_chunked(" \""@);
    reveal_strlit("       ");
    lemma_esc_free_chunked("       "@);
    reveal_strlit("~");
    lemma_esc_free_chunked("~"@);
    reveal_strlit("This means:");
    lemma_esc_free_chunked("This means:"@);
    reveal_strlit("    ");
    lemma_esc_free_chunked("    "@);
    reveal_strlit("Search:");
    lemma_esc_free_chunked("Search:"@);
    reveal_strlit("Next steps:");
    lemma_esc_free_chunked("Next steps:"@);
}

/// Fixed texts of the verbose boxes hold no escape character.
#[verifier::spinoff_prover]
proof fn lemma_verbose_literals_1()
    ensures
        no_escape(". "@),
        no_escape("Learn more:"@),
        no_escape("install "@),
        no_escape(" macos/linux"@),
        no_escape("config"@),
        no_escape(" configuration syntax"@),
        no_escape("docker troubleshooting"@),
        no_escape("kubernetes debugging"@),
{
    reveal_with_fuel(esc_free, 22);
    reveal_with_fuel(esc_free_chunked, 4);
    reveal_strlit(". ");
    lemma_esc_free_chunked(". "@);
    reveal_strlit("Learn more:");
    lemma_esc_free_chunked("Learn more:"@);
    reveal_strlit("install ");
    lemma_esc_free_chunked("install "@);
    reveal_strlit(" macos/linux");
    lemma_esc_free_chunked(" macos/linux"@);
    reveal_strlit("config");
    lemma_esc_free_chunked("config"@);
    reveal_strlit(" configuration syntax");
    lemma_esc_free_chunked(" configuration syntax"@);
    reveal_strlit("docker troubleshooting");
    lemma_esc_free_chunked("docker troubleshooting"@);
    reveal_strlit("kubernetes debugging");
    lemma_esc_free_chunked("kubernetes debugging"@);
}

/// Fixed texts of the verbose boxes hold no escape character.
#[verifier::spinoff_prover]
proof fn lemma_verbose_literals_2()
    ensures
        no_escape("git common errors"@),
        no_escape("which "@),
        no_escape("brew install "@),
        no_escape(" (macOS)"@),
        no_escape("apt install "@),
        no_escape(" (Ubuntu)"@),
        no_escape("sudo !! (run last command as root)"@),
        no_escape("ls -la <file> (check permissions)"@),
{
    reveal_with_fuel(esc_free, 22);
    reveal_with_fuel(esc_free_chunked, 4);
    reveal_strlit("git common errors");
    lemma_esc_free_chunked("git common errors"@);
    reveal_strlit("which ");
    lemma_esc_free_chunked("which "@);
    reveal_strlit("brew install ");
    lemma_esc_free_chunked("brew install "@);
    reveal_strlit(" (macOS)");
    lemma_esc_free_chunked(" (macOS)"@);
    reveal_strlit("apt install ");
    lemma_esc_free_chunked("apt install "@);
    reveal_strlit(" (Ubuntu)");
    lemma_esc_free_chunked(" (Ubuntu)"@);
    reveal_strlit("sudo !! (run last command as root)");
    lemma_esc_free_chunked("sudo !! (run last command as root)"@);
    reveal_strlit("ls -la <file> (check permissions)");
    lemma_esc_free_chunked("ls -la <file> (check permissions)"@);
}

/// Fixed texts of the verbose boxes hold no escape character.
#[verifier::spinoff_prover]
proof fn lemma_verbose_literals_3()
    ensures
        no_escape("chmod +x <file> (if executable)"@),
        no_escape("ls -la (list current directory)"@),
        no_escape("pwd (print working directory)"@),
        no_escape("find . -name '<filename>'"@),
        no_escape("lsof -i :<port> (find process)"@),
        no_escape("kill <pid> (stop process)"@),
        no_escape("Use a different port"@),
        no_escape("Check if service is running"@),
{
    reveal_with_fuel(esc_free, 22);
    reveal_with_fuel(esc_free_chunked, 4);
    reveal_strlit("chmod +x <file> (if executable)");
    lemma_esc_free_chunked("chmod +x <file> (if executable)"@);
    reveal_strlit("ls -la (list current directory)");
    lemma_esc_free_chunked("ls -la (list current directory)"@);
    reveal_strlit("pwd (print working directory)");
    lemma_esc_free_chunked("pwd (print working directory)"@);
    reveal_strlit("find . -name '<filename>'");
    lemma_esc_free_chunked("find . -name '<filename>'"@);
    reveal_strlit("lsof -i :<port> (find process)");
    lemma_esc_free_chunked("lsof -i :<port> (find process)"@);
    reveal_strlit("kill <pid> (stop process)");
    lemma_esc_free_chunked("kill <pid> (stop process)"@);
    reveal_strlit("Use a different port");
    lemma_esc_free_chunked("Use a different port"@);
    reveal_strlit("Check if service is running");
    lemma_esc_free_chunked("Check if service is running"@);
}

/// Fixed texts of the verbose boxes hold no escape character.
#[verifier::spinoff_prover]
proof fn lemma_verbose_literals_4()
    ensures
        no_escape("Verify the host and port"@),
        no_escape("Check firewall settings"@),
        no_escape("vim "@),
        no_escape(" +"@),
        no_escape(", "@),
        no_escape("PATH environment, package managers"@),
        no_escape("Unix permissions, sudo, file ownership"@),
        no_escape("file paths, working directory, ls command"@),
{
    reveal_with_fuel(esc_free, 22);
    reveal_with_fuel(esc_free_chunked, 4);
    reveal_strlit("Verify the host and port");
    lemma_esc_free_chunked("Verify the host and port"@);
    reveal_strlit("Check firewall settings");
    lemma_esc_free_chunked("Check firewall settings"@);
    reveal_strlit("vim ");
    lemma_esc_free_chunked("vim "@);
    reveal_strlit(" +");
    lemma_esc_free_chunked(" +"@);
    reveal_strlit(", ");
    lemma_esc_free_chunked(", "@);
    reveal_strlit("PATH environment, package managers");
    lemma_esc_free_chunked("PATH environment, package managers"@);
    reveal_strlit("Unix permissions, sudo, file ownership");
    lemma_esc_free_chunked("Unix permissions, sudo, file ownership"@);
    reveal_strlit("file paths, working directory, ls command");
    lemma_esc_free_chunked("file paths, working directory, ls command"@);
}

/// Fixed texts of the verbose boxes hold no escape character.
#[verifier::spinoff_prover]
proof fn lemma_verbose_literals_5()
    ensures
        no_escape("networking, ports, services"@),
        no_escape("configuration files, syntax checking"@),
        no_escape("Docker containers, images, volumes"@),
        no_escape("Kubernetes pods, deployments, services"@),
        no_escape("Git workflow, branches, commits"@),
{
    reveal_with_fuel(esc_free, 22);
    reveal_with_fuel(esc_free_chunked, 4);
    reveal_strlit("networking, ports, services");
    lemma_esc_free_chunked("networking, ports, services"@);
    reveal_strlit("configuration files, syntax checking");
    lemma_esc_free_chunked("configuration files, syntax checking"@);
    reveal_strlit("Docker containers, images, volumes");
    lemma_esc_free_chunked("Docker containers, images, volumes"@);
    reveal_strlit("Kubernetes pods, deployments, services");
    lemma_esc_free_chunked("Kubernetes pods, deployments, services"@);
    reveal_strlit("Git workflow, branches, commits");
    lemma_esc_free_chunked("Git workflow, branches, commits"@);
}

/// All the fixed texts of the verbose boxes hold no escape character.
proof fn lemma_verbose_literals()
    ensures
        no_escape("\""@),
        no_escape(" \""@),
        no_escape("       "@),
        no_escape("~"@),
        no_escape("This means:"@),
        no_escape("    "@),
        no_escape("Search:"@),
        no_escape("Next steps:"@),
        no_escape(". "@),
        no_escape("Learn more:"@),
        no_escape("install "@),
        no_escape(" macos/linux"@),
        no_escape("config"@),
        no_escape(" configuration syntax"@),
        no_escape("docker troubleshooting"@),
        no_escape("kubernetes debugging"@),
        no_escape("git common errors"@),
        no_escape("which "@),
        no_escape("brew install "@),
        no_escape(" (macOS)"@),
        no_escape("apt install "@),
        no_escape(" (Ubuntu)"@),
        no_escape("sudo !! (run last command as root)"@),
        no_escape("ls -la <file> (check permissions)"@),
        no_escape("chmod +x <file> (if executable)"@),
        no_escape("ls -la (list current directory)"@),
        no_escape("pwd (print working directory)"@),
        no_escape("find . -name '<filename>'"@),
        no_escape("lsof -i :<port> (find process)"@),
        no_escape("kill <pid> (stop process)"@),
        no_escape("Use a different port"@),
        no_escape("Check if service is running"@),
        no_escape("Verify the host and port"@),
        no_escape("Check firewall settings"@),
        no_escape("vim "@),
        no_escape(" +"@),
        no_escape(", "@),
        no_escape("PATH environment, package managers"@),
        no_escape("Unix permissions, sudo, file ownership"@),
        no_escape("file paths, working directory, ls command"@),
        no_escape("networking, ports, services"@),
        no_escape("configuration files, syntax checking"@),
        no_escape("Docker containers, images, volumes"@),
        no_escape("Kubernetes pods, deployments, services"@),
        no_escape("Git workflow, branches, commits"@),
{
    lemma_verbose_literals_0();
    lemma_verbose_literals_1();
    lemma_verbose_literals_2();
    lemma_verbose_literals_3();
    lemma_verbose_literals_4();
    lemma_verbose_literals_5();
}

/// A text without escapes stays so after dropping its first characters.
proof fn lemma_no_escape_words_first(s: Seq<char>)
    requires
        no_escape(s),
    ensures
        first_word(s) matches Some(w) ==> no_escape(w),
        last_word(s) matches Some(w) ==> no_escape(w),
{
    lemma_words_no_escape(s, seq![], seq![]);
    assert(no_escape(Seq::<char>::empty()));
    let ws = words(s);
    if ws.len() > 0 {
        assert(no_escape(ws[0]));
        assert(no_escape(ws[ws.len() - 1]));
    }
}

/// The search suggestion holds no escape character when the key message
/// and the command hold none.
proof fn lemma_search_no_escape(err: ErrorInfo)
    requires
        no_escape(err.key_message@),
        no_escape(err.command@),
    ensures
        search_suggestion(err) matches Some(x) ==> no_escape(x),
{
    broadcast use lemma_no_escape_concat;
    lemma_verbose_literals();
    lemma_no_escape_words_first(err.key_message@);
    lemma_no_escape_words_first(err.command@);
    lemma_normal_literals();
    assert(no_escape(named_command(err.key_message@)));
}

/// The suggested next steps hold no escape character when the key message
/// and the location's file name hold none.
proof fn lemma_next_steps_no_escape(err: ErrorInfo)
    requires
        no_escape(err.key_message@),
        err.source_location matches Some(l) ==> no_escape(l.file@),
    ensures
        all_no_escape(next_steps_for(err)),
{
    broadcast use lemma_no_escape_concat;
    lemma_verbose_literals();
    lemma_normal_literals();
    lemma_no_escape_words_first(err.key_message@);
    assert(no_escape(named_command(err.key_message@)));
    match err.source_location {
        Some(loc) => match loc.line {
            Some(l) => {
                lemma_dec_no_escape(l as nat);
            },
            None => {},
        },
        None => {},
    }
    let st = next_steps_for(err);
    assert forall|i: int| 0 <= i < st.len() implies no_escape(#[trigger] st[i]) by {
        assert(i == 0 || i == 1 || i == 2);
    }
}

/// The concepts to learn hold no escape character.
proof fn lemma_concepts_no_escape(t: ErrorType)
    ensures
        learning_concepts(t) matches Some(x) ==> no_escape(x),
{
    lemma_verbose_literals();
}

/// Numbered step lines of the verbose error box hold no escape character.
proof fn lemma_error_steps_no_escape(width: nat, steps: Seq<Seq<char>>)
    requires
        all_no_escape(steps),
        forall|i: int| 0 <= i < steps.len() ==> truncate_ok(#[trigger] steps[i], (width - 12) as nat),
    ensures
        no_escape(error_step_lines(false, width, steps)),
    decreases steps.len(),
{
    broadcast use lemma_no_escape_concat;
    if steps.len() == 0 {
        assert(no_escape(Seq::<char>::empty()));
    } else {
        let init = steps.drop_last();
        assert(all_no_escape(init)) by {
            assert forall|i: int| 0 <= i < init.len() implies no_escape(#[trigger] init[i]) by {
                assert(init[i] == steps[i]);
            }
        }
        assert forall|i: int| 0 <= i < init.len() implies truncate_ok(#[trigger] init[i], (width - 12) as nat) by {
            assert(init[i] == steps[i]);
        }
        lemma_error_steps_no_escape(width, init);
        assert(no_escape(steps.last()));
        assert(truncate_ok(steps[steps.len() - 1], (width - 12) as nat));
        lemma_no_escape_truncated(steps.last(), (width - 12) as nat);
        lemma_dec_no_escape(steps.len());
        lemma_verbose_literals();
        lemma_colorless("\x1b[2m"@);
        lemma_colorless("\x1b[1;37m"@);
        lemma_colorless("\x1b[0m"@);
        let e = Seq::<char>::empty();
        assert(no_escape(e));
        lemma_box_line_no_escape(
            width,
            "    "@ + e + dec(steps.len()) + ". "@ + e + truncated(steps.last(), (width - 12) as nat) + e,
        );
        assert(c_dim(false) == e && c_command(false) == e && c_reset(false) == e);
    }
}

/// The key lines of the verbose boxes hold no escape character.
proof fn lemma_verbose_key_no_escape(width: nat, key: Seq<char>)
    requires
        40 <= width,
        no_escape(key),
        truncate_ok(key, ((width - 4) as nat - 10) as nat),
    ensures
        no_escape(verbose_key_lines(false, width, key)),
{
    broadcast use lemma_no_escape_concat;
    let inner = (width - 4) as nat;
    let kd = truncated(key, (inner - 10) as nat);
    let ul: nat = if byte_len(kd) < inner - 12 { byte_len(kd) } else { (inner - 12) as nat };
    let e = Seq::<char>::empty();
    assert(no_escape(e));
    lemma_verbose_literals();
    lemma_normal_literals();
    lemma_no_escape_truncated(key, (inner - 10) as nat);
    lemma_no_escape_repeat("~"@, ul);
    lemma_colorless("\x1b[1;31m"@);
    lemma_colorless("\x1b[0m"@);
    lemma_colorless("\x1b[1;33m"@);
    lemma_colorless("\x1b[2m"@);
    lemma_box_line_no_escape(width, "  "@ + e + "Key:"@ + e + " \""@ + e + kd + e + "\""@);
    lemma_box_line_no_escape(width, "       "@ + e + repeat("~"@, ul) + e);
    assert(c_dim(false) == e && c_error(false) == e && c_key(false) == e && c_reset(false) == e);
}

/// With colors disabled, a verbose error box holds no escape character
/// when the key message, the command and the location's file name hold
/// none (and the box's cuts fall between characters).
#[verifier::spinoff_prover]
proof fn lemma_colorless_verbose_error_box(width: nat, err: ErrorInfo)
    requires
        40 <= width,
        no_escape(err.key_message@),
        no_escape(err.command@),
        err.source_location matches Some(l) ==> no_escape(l.file@),
        error_cuts_ok(Verbosity::Verbose, width, err),
    ensures
        no_escape(error_box(Verbosity::Verbose, false, width, err)),
{
    broadcast use lemma_no_escape_concat;
    let inner = (width - 4) as nat;
    let e = Seq::<char>::empty();
    assert(no_escape(e));
    lemma_normal_literals();
    lemma_verbose_literals();
    lemma_frame_no_escape(width);
    lemma_verbose_key_no_escape(width, err.key_message@);
    lemma_colorless("\x1b[2m"@);
    lemma_colorless("\x1b[0m"@);
    lemma_colorless("\x1b[34m"@);
    lemma_colorless("\x1b[32m"@);
    lemma_colorless("\x1b[35m"@);
    assert(c_dim(false) == e && c_reset(false) == e && c_location(false) == e && c_search(false) == e
        && c_concept(false) == e);
    lemma_box_line_no_escape(width, "  "@ + e + "This means:"@ + e);
    lemma_explanations_no_escape(err.error_type);
    match error_explanation(err.error_type) {
        Some(x) => {
            lemma_wrapped_no_escape(x, (inner - 6) as nat);
            lemma_prefixed_no_escape(width, "    "@, wrapped(x, (inner - 6) as nat));
        },
        None => {},
    }
    match err.source_location {
        Some(loc) => {
            lemma_location_no_escape(loc);
            lemma_box_line_no_escape(width, "  "@ + e + "Location:"@ + e + " "@ + e + location_text(loc) + e);
        },
        None => {},
    }
    lemma_search_no_escape(err);
    match search_suggestion(err) {
        Some(x) => {
            lemma_box_line_no_escape(width, "  "@ + e + "Search:"@ + e + " "@ + x);
        },
        None => {},
    }
    lemma_next_steps_no_escape(err);
    let steps = next_steps_for(err);
    assert forall|i: int| 0 <= i < steps.len() implies truncate_ok(#[trigger] steps[i], (width - 12) as nat) by {
        assert(truncate_ok(next_steps_for(err)[i], (inner - 8) as nat));
    }
    lemma_error_steps_no_escape(width, steps);
    lemma_box_line_no_escape(width, "  "@ + e + "Next steps:"@ + e);
    lemma_concepts_no_escape(err.error_type);
    match learning_concepts(err.error_type) {
        Some(x) => {
            lemma_box_line_no_escape(width, "  "@ + e + "Learn more:"@ + e + " "@ + e + x + e);
        },
        None => {},
    }
    assert(no_escape(verbose_error_text(false, width, err)));
}

/// Joining texts without escapes with a separator without escapes gives
/// none.
proof fn lemma_join_no_escape(parts: Seq<Seq<char>>, sep: Seq<char>)
    requires
        all_no_escape(parts),
        no_escape(sep),
    ensures
        no_escape(join(parts, sep)),
    decreases parts.len(),
{
    broadcast use lemma_no_escape_concat;
    if parts.len() == 0 {
        assert(no_escape(Seq::<char>::empty()));
    } else if parts.len() == 1 {
        assert(no_escape(parts[0]));
    } else {
        let init = parts.drop_last();
        assert(all_no_escape(init)) by {
            assert forall|i: int| 0 <= i < init.len() implies no_escape(#[trigger] init[i]) by {
                assert(init[i] == parts[i]);
            }
        }
        lemma_join_no_escape(init, sep);
        assert(no_escape(parts.last()));
    }
}

/// Numbered step lines of the verbose guidance box hold no escape
/// character.
proof fn lemma_guidance_steps_no_escape(width: nat, steps: Seq<crate::mentor::guidance::NextStep>)
    requires
        forall|i: int| 0 <= i < steps.len() ==> no_escape(#[trigger] steps[i].description@),
        forall|i: int| 0 <= i < steps.len() ==> (#[trigger] steps[i].command matches Some(c) ==> no_escape(c@)),
        forall|i: int| 0 <= i < steps.len() ==> truncate_ok(step_text(false, #[trigger] steps[i]), (width - 12) as nat),
    ensures
        no_escape(guidance_step_lines(false, width, steps)),
    decreases steps.len(),
{
    broadcast use lemma_no_escape_concat;
    if steps.len() == 0 {
        assert(no_escape(Seq::<char>::empty()));
    } else {
        let init = steps.drop_last();
        assert forall|i: int| 0 <= i < init.len() implies no_escape(#[trigger] init[i].description@) by {
            assert(init[i] == steps[i]);
        }
        assert forall|i: int| 0 <= i < init.len() implies (#[trigger] init[i].command matches Some(c) ==> no_escape(c@)) by {
            assert(init[i] == steps[i]);
        }
        assert forall|i: int| 0 <= i < init.len() implies truncate_ok(step_text(false, #[trigger] init[i]), (width - 12) as nat) by {
            assert(init[i] == steps[i]);
        }
        lemma_guidance_steps_no_escape(width, init);
        let last = steps[steps.len() - 1];
        assert(no_escape(last.description@));
        let e = Seq::<char>::empty();
        assert(no_escape(e));
        lemma_colorless("\x1b[1;37m"@);
        lemma_colorless("\x1b[0m"@);
        lemma_colorless("\x1b[2m"@);
        assert(c_command(false) == e && c_reset(false) == e && c_dim(false) == e);
        assert(no_escape(step_text(false, last)));
        lemma_no_escape_truncated(step_text(false, last), (width - 12) as nat);
        lemma_dec_no_escape(steps.len());
        lemma_verbose_literals();
        lemma_box_line_no_escape(
            width,
            "    "@ + e + dec(steps.len()) + ". "@ + e + truncated(step_text(false, last), (width - 12) as nat),
        );
    }
}

/// With colors disabled, a verbose guidance box holds no escape character
/// when the guidance's texts hold none (and the box's cuts fall between
/// characters).
#[verifier::spinoff_prover]
proof fn lemma_colorless_verbose_guidance_box(width: nat, g: MentorGuidance)
    requires
        40 <= width,
        guidance_plain(g),
        guidance_cuts_ok(Verbosity::Verbose, width, g),
    ensures
        no_escape(guidance_box(Verbosity::Verbose, false, width, g)),
{
    broadcast use lemma_no_escape_concat;
    let inner = (width - 4) as nat;
    let e = Seq::<char>::empty();
    assert(no_escape(e));
    lemma_normal_literals();
    lemma_verbose_literals();
    lemma_frame_no_escape(width);
    lemma_verbose_key_no_escape(width, g.key_message@);
    lemma_colorless("\x1b[2m"@);
    lemma_colorless("\x1b[0m"@);
    lemma_colorless("\x1b[32m"@);
    lemma_colorless("\x1b[35m"@);
    assert(c_dim(false) == e && c_reset(false) == e && c_search(false) == e && c_concept(false) == e);
    lemma_box_line_no_escape(width, "  "@ + e + "This means:"@ + e);
    lemma_wrapped_no_escape(g.explanation@, (inner - 6) as nat);
    lemma_prefixed_no_escape(width, "    "@, wrapped(g.explanation@, (inner - 6) as nat));
    let kw = views(g.search_keywords@);
    assert(all_no_escape(kw)) by {
        assert forall|i: int| 0 <= i < kw.len() implies no_escape(#[trigger] kw[i]) by {
            assert(kw[i] == g.search_keywords@[i]@);
        }
    }
    lemma_join_no_escape(kw, ", "@);
    lemma_box_line_no_escape(width, "  "@ + e + "Search:"@ + e + " "@ + join(kw, ", "@));
    let cs = views(g.related_concepts@);
    assert(all_no_escape(cs)) by {
        assert forall|i: int| 0 <= i < cs.len() implies no_escape(#[trigger] cs[i]) by {
            assert(cs[i] == g.related_concepts@[i]@);
        }
    }
    lemma_join_no_escape(cs, ", "@);
    lemma_box_line_no_escape(width, "  "@ + e + "Learn more:"@ + e + " "@ + e + join(cs, ", "@) + e);
    let all = g.next_steps@;
    let shown = if all.len() > 4 { all.take(4) } else { all };
    assert forall|i: int| 0 <= i < shown.len() implies no_escape(#[trigger] shown[i].description@) by {
        assert(shown[i] == all[i]);
    }
    assert forall|i: int| 0 <= i < shown.len() implies (#[trigger] shown[i].command matches Some(c) ==> no_escape(c@)) by {
        assert(shown[i] == all[i]);
    }
    assert forall|i: int| 0 <= i < shown.len() implies truncate_ok(step_text(false, #[trigger] shown[i]), (width - 12) as nat) by {
        assert(shown[i] == all[i]);
        assert(i < 4);
    }
    lemma_guidance_steps_no_escape(width, shown);
    lemma_box_line_no_escape(width, "  "@ + e + "Next steps:"@ + e);
    assert(no_escape(verbose_guidance_text(false, width, g)));
}

/// With colors disabled, an error box holds no escape character at any
/// verbosity and width, when the error's key message, command and
/// location file name hold none (and the box's cuts fall between
/// characters, as rendering requires).
pub proof fn law_colorless_error_box(v: Verbosity, width: nat, err: ErrorInfo)
    requires
        40 <= width,
        no_escape(err.key_message@),
        no_escape(err.command@),
        err.source_location matches Some(l) ==> no_escape(l.file@),
        error_cuts_ok(v, width, err),
    ensures
        no_escape(error_box(v, false, width, err)),
{
    match v {
        Verbosity::Compact => lemma_colorless_compact_box(width, err.key_message@),
        Verbosity::Normal => lemma_colorless_normal_error_box(width, err),
        Verbosity::Verbose => lemma_colorless_verbose_error_box(width, err),
    }
}

/// With colors disabled, a guidance box holds no escape character at any
/// verbosity and width, when the guidance's texts hold none (and the box's
/// cuts fall between characters, as rendering requires).
pub proof fn law_colorless_guidance_box(v: Verbosity, width: nat, g: MentorGuidance)
    requires
        40 <= width,
        guidance_plain(g),
        guidance_cuts_ok(v, width, g),
    ensures
        no_escape(guidance_box(v, false, width, g)),
{
    match v {
        Verbosity::Compact => lemma_colorless_compact_box(width, g.key_message@),
        Verbosity::Normal => lemma_colorless_normal_guidance_box(width, g),
        Verbosity::Verbose => lemma_colorless_verbose_guidance_box(width, g),
    }
}

} // verus!
