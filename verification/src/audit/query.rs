//! Rows read back from the audit log, and the table that shows them.
use crate::kubectl::RiskLevel;
use crate::text::{
    byte_boundary, byte_len, dec, dec_int, i64_to_dec, is_byte_boundary, owned, pad_right, pad_str, prefix_bytes,
    repeat, repeat_str, str_byte_len, str_eq, take_bytes, u64_to_dec,
};
use vstd::prelude::*;

verus! {

/// One command read back from the log.
#[derive(Debug, Clone)]
pub struct QueryResult {
    pub id: i64,
    pub executed_at: String,
    pub user_id: String,
    pub natural_language_input: String,
    pub kubectl_command: String,
    pub risk_level: String,
    pub environment: String,
    pub user_action: String,
    pub exit_code: Option<i32>,
}

/// The risk level a stored name stands for; an unknown name counts as high.
pub open spec fn risk_of_name(name: Seq<char>) -> RiskLevel {
    if name == "LOW"@ {
        RiskLevel::Low
    } else if name == "MEDIUM"@ {
        RiskLevel::Medium
    } else {
        RiskLevel::High
    }
}

/// `s` cut to `keep` bytes with `...` when it is longer than `max` bytes.
pub open spec fn shortened(s: Seq<char>, max: nat, keep: nat) -> Seq<char> {
    if byte_len(s) > max {
        take_bytes(s, keep as int) + "..."@
    } else {
        s
    }
}

/// The cuts a row needs fall on character boundaries.
pub open spec fn row_cuts_ok(r: QueryResult) -> bool {
    &&& byte_len(r.executed_at@) > 19 ==> byte_boundary(r.executed_at@, 19)
    &&& byte_len(r.kubectl_command@) > 40 ==> byte_boundary(r.kubectl_command@, 37)
    &&& byte_len(r.environment@) > 15 ==> byte_boundary(r.environment@, 12)
}

/// The six columns of the table, padded and separated by spaces.
pub open spec fn table_line(
    a: Seq<char>,
    b: Seq<char>,
    c: Seq<char>,
    d: Seq<char>,
    e: Seq<char>,
    f: Seq<char>,
) -> Seq<char> {
    pad_right(a, 6) + " "@ + pad_right(b, 20) + " "@ + pad_right(c, 40) + " "@ + pad_right(d, 15)
        + " "@ + pad_right(e, 10) + " "@ + pad_right(f, 8) + "\n"@
}

/// The exit code column.
pub open spec fn exit_column(o: Option<i32>) -> Seq<char> {
    match o {
        Some(c) => dec_int(c as int),
        None => "-"@,
    }
}

/// The table row of `r`: the time cut to 19 bytes, the command to 40 and the
/// environment to 15 (with `...` where cut).
pub open spec fn table_row(r: QueryResult) -> Seq<char> {
    let time = if byte_len(r.executed_at@) > 19 {
        take_bytes(r.executed_at@, 19)
    } else {
        r.executed_at@
    };
    table_line(
        dec_int(r.id as int),
        time,
        shortened(r.kubectl_command@, 40, 37),
        shortened(r.environment@, 15, 12),
        r.user_action@,
        exit_column(r.exit_code),
    )
}

/// The rows of `rs`, one line each.
pub open spec fn table_rows(rs: Seq<QueryResult>) -> Seq<char>
    decreases rs.len(),
{
    if rs.len() == 0 {
        seq![]
    } else {
        table_rows(rs.drop_last()) + table_row(rs.last())
    }
}

/// The header line and the rule under it.
pub open spec fn table_header() -> Seq<char> {
    table_line("ID"@, "Time"@, "Command"@, "Environment"@, "Action"@, "Exit"@) + repeat("-"@, 100)
        + "\n"@
}

/// The line under the table.
pub open spec fn table_footer(total: nat, max_rows: nat) -> Seq<char> {
    if total > max_rows {
        "\nShowing "@ + dec(max_rows) + " of "@ + dec(total) + " results. Use pagination for more.\n"@
    } else {
        "\nTotal: "@ + dec(total) + " results\n"@
    }
}

/// The table of `results` showing at most `max_rows` of them.
pub open spec fn history_table(results: Seq<QueryResult>, max_rows: nat) -> Seq<char> {
    if results.len() == 0 {
        "No commands found."@
    } else {
        let shown = if results.len() > max_rows {
            results.take(max_rows as int)
        } else {
            results
        };
        table_header() + table_rows(shown) + table_footer(results.len(), max_rows)
    }
}

impl QueryResult {
    /// Whether the command ran and exited with a non-zero code.
    pub fn is_failed(&self) -> (r: bool)
        ensures
            r == (self.exit_code is Some && self.exit_code->0 != 0),
    {
        match self.exit_code {
            Some(code) => code != 0,
            None => false,
        }
    }

    /// The stored risk level: `LOW`, `MEDIUM`, anything else counting as
    /// high.
    pub fn risk_level_enum(&self) -> (r: RiskLevel)
        ensures
            r == risk_of_name(self.risk_level@),
    {
        if str_eq(self.risk_level.as_str(), "LOW") {
            RiskLevel::Low
        } else if str_eq(self.risk_level.as_str(), "MEDIUM") {
            RiskLevel::Medium
        } else {
            RiskLevel::High
        }
    }

    /// Time, user, command and risk level, separated by ` | `.
    pub fn display_summary(&self) -> (r: String)
        ensures
            r@ == self.executed_at@ + " | "@ + self.user_id@ + " | "@ + self.kubectl_command@
                + " | "@ + self.risk_level@,
    {
        let mut out = owned(self.executed_at.as_str());
        out.append(" | ");
        out.append(self.user_id.as_str());
        out.append(" | ");
        out.append(self.kubectl_command.as_str());
        out.append(" | ");
        out.append(self.risk_level.as_str());
        out
    }
}

/// `s` cut to `keep` bytes with `...` when longer than `max` bytes.
fn shorten(s: &str, max: usize, keep: usize) -> (r: String)
    requires
        byte_len(s@) > max ==> byte_boundary(s@, keep as int),
    ensures
        r@ == shortened(s@, max as nat, keep as nat),
{
    if str_byte_len(s) > max {
        let mut out = prefix_bytes(s, keep);
        out.append("...");
        out
    } else {
        owned(s)
    }
}

/// Appends the six padded columns and a line break to `out`.
fn push_table_line(
    out: &mut String,
    a: &str,
    b: &str,
    c: &str,
    d: &str,
    e: &str,
    f: &str,
)
    ensures
        final(out)@ == old(out)@ + table_line(a@, b@, c@, d@, e@, f@),
{
    let ghost start = out@;
    out.append(pad_str(a, 6).as_str());
    out.append(" ");
    out.append(pad_str(b, 20).as_str());
    out.append(" ");
    out.append(pad_str(c, 40).as_str());
    out.append(" ");
    out.append(pad_str(d, 15).as_str());
    out.append(" ");
    out.append(pad_str(e, 10).as_str());
    out.append(" ");
    out.append(pad_str(f, 8).as_str());
    out.append("\n");
    assert(out@ =~= start + table_line(a@, b@, c@, d@, e@, f@));
}

/// Appends the table row of `r` to `out`.
fn push_row(out: &mut String, r: &QueryResult)
    requires
        row_cuts_ok(*r),
    ensures
        final(out)@ == old(out)@ + table_row(*r),
{
    let id = i64_to_dec(r.id);
    let time = shorten_time(r.executed_at.as_str());
    let command = shorten(r.kubectl_command.as_str(), 40, 37);
    let environment = shorten(r.environment.as_str(), 15, 12);
    let exit = match r.exit_code {
        Some(c) => i64_to_dec(c as i64),
        None => owned("-"),
    };
    push_table_line(
        out,
        id.as_str(),
        time.as_str(),
        command.as_str(),
        environment.as_str(),
        r.user_action.as_str(),
        exit.as_str(),
    );
}

/// The time column: `s` cut to its first 19 bytes.
fn shorten_time(s: &str) -> (r: String)
    requires
        byte_len(s@) > 19 ==> byte_boundary(s@, 19),
    ensures
        r@ == (if byte_len(s@) > 19 {
            take_bytes(s@, 19)
        } else {
            s@
        }),
{
    if str_byte_len(s) > 19 {
        prefix_bytes(s, 19)
    } else {
        owned(s)
    }
}

/// Appends the rows of the first `shown` results to `out`.
fn push_rows(out: &mut String, results: &[QueryResult], shown: usize, max_rows: usize)
    requires
        shown <= results@.len(),
        shown <= max_rows,
        forall|i: int|
            0 <= i < results@.len() && i < max_rows ==> #[trigger] row_cuts_ok(results@[i]),
    ensures
        final(out)@ == old(out)@ + table_rows(results@.take(shown as int)),
{
    let ghost rows = results@.take(shown as int);
    let ghost head = out@;
    let mut i: usize = 0;
    assert(rows.take(0) =~= Seq::<QueryResult>::empty());
    assert(head + Seq::<char>::empty() =~= head);
    while i < shown
        invariant
            shown <= results@.len(),
            shown <= max_rows,
            rows == results@.take(shown as int),
            i <= shown,
            out@ == head + table_rows(rows.take(i as int)),
            forall|j: int|
                0 <= j < results@.len() && j < max_rows ==> #[trigger] row_cuts_ok(results@[j]),
        decreases shown - i,
    {
        assert(rows.take(i + 1).drop_last() =~= rows.take(i as int));
        assert(row_cuts_ok(results@[i as int]));
        push_row(out, &results[i]);
        i = i + 1;
    }
    assert(rows.take(shown as int) =~= rows);
}

/// Whether the cuts that the row of `r` needs fall on character
/// boundaries.
pub fn row_cuts_ok_at(r: &QueryResult) -> (b: bool)
    ensures
        b == row_cuts_ok(*r),
{
    (str_byte_len(r.executed_at.as_str()) <= 19 || is_byte_boundary(r.executed_at.as_str(), 19))
        && (str_byte_len(r.kubectl_command.as_str()) <= 40 || is_byte_boundary(r.kubectl_command.as_str(), 37))
        && (str_byte_len(r.environment.as_str()) <= 15 || is_byte_boundary(r.environment.as_str(), 12))
}

/// The history table: a header, one row for each of the first `max_rows`
/// results, and a line giving the total, or that only some are shown.
/// Where a column is cut, the cut must fall on a character boundary.
pub fn format_table(results: &[QueryResult], max_rows: usize) -> (r: String)
    requires
        forall|i: int|
            0 <= i < results@.len() && i < max_rows ==> #[trigger] row_cuts_ok(results@[i]),
    ensures
        r@ == history_table(results@, max_rows as nat),
{
    if results.len() == 0 {
        return owned("No commands found.");
    }
    let shown: usize = if results.len() > max_rows {
        max_rows
    } else {
        results.len()
    };
    let ghost rows = results@.take(shown as int);
    let mut out = String::new();
    push_table_line(&mut out, "ID", "Time", "Command", "Environment", "Action", "Exit");
    out.append(repeat_str("-", 100).as_str());
    out.append("\n");
    let ghost head = out@;
    assert(head =~= table_header());
    push_rows(&mut out, results, shown, max_rows);
    assert(rows.take(shown as int) =~= rows);
    let ghost body = out@;
    if results.len() > max_rows {
        out.append("\nShowing ");
        out.append(u64_to_dec(max_rows as u64).as_str());
        out.append(" of ");
        out.append(u64_to_dec(results.len() as u64).as_str());
        out.append(" results. Use pagination for more.\n");
    } else {
        out.append("\nTotal: ");
        out.append(u64_to_dec(results.len() as u64).as_str());
        out.append(" results\n");
    }
    assert(out@ =~= body + table_footer(results@.len(), max_rows as nat));
    assert(results@.len() <= max_rows ==> results@.take(shown as int) =~= results@);
    out
}

} // verus!
