//! The single log line a finished query produces: the summary, the row count
//! and the elapsed time, followed — only when the summary lost characters —
//! by an ellipsis marker and a verbose block holding the pretty-printed full
//! query text between blank lines.

use vstd::prelude::*;
use vstd::string::StringExecFns;
use crate::render::dec_of;
use crate::render::elapsed_fmt;
use crate::render::push_decimal;
use crate::render::push_elapsed;
use crate::summary::SUMMARY_TOKEN_LIMIT;
use crate::summary::join_tokens;
use crate::summary::lemma_long_query_summary;
use crate::summary::lemma_short_query_summary;
use crate::summary::parse_query_summary;
use crate::summary::summary_spec;
use crate::summary::tokens_of;

verus! {

/// What `sqlformat::format` returns for the given query text, with default
/// options and no parameter substitution. The rendering is involved, but a
/// function of the text alone, so it is only named here, never spelled out.
pub uninterp spec fn formatted_of(s: Seq<char>) -> Seq<char>;

/// Relies on `sqlformat::format`: re-indents and whitespace-normalizes SQL
/// text; with `QueryParams::None` no parameters are interpolated, and with
/// default options the result depends on the text alone.
#[verifier::external_body]
fn format_sql(sql: &str) -> (r: String)
    ensures
        r@ == formatted_of(sql@),
{
    sqlformat::format(sql, &sqlformat::QueryParams::None, sqlformat::FormatOptions::default())
}

/// The row-count clause of the message: `rows: ` and the count in decimal.
pub open spec fn rows_clause(rows: nat) -> Seq<char> {
    "rows: "@ + dec_of(rows)
}

/// The compact line: what is shown of the query, then the row count, then
/// the elapsed time.
pub open spec fn core_line(shown: Seq<char>, rows: nat, ns: nat) -> Seq<char> {
    shown + "; "@ + rows_clause(rows) + ", elapsed: "@ + elapsed_fmt(ns)
}

/// The whole message for a query `sql` that returned `rows` rows in `ns`
/// nanoseconds. When the summary equals the full text it stands alone; when
/// it lost characters it is marked with an ellipsis and the pretty-printed
/// full text follows, wrapped in blank lines.
pub open spec fn message_spec(sql: Seq<char>, rows: nat, ns: nat) -> Seq<char> {
    let sum = summary_spec(sql);
    if sum == sql {
        core_line(sum, rows, ns)
    } else {
        core_line(sum + " \u{2026}"@, rows, ns) + "\n\n"@ + formatted_of(sql) + "\n"@
    }
}

/// Whether `needle` occurs contiguously inside `hay`.
pub open spec fn has_substring(hay: Seq<char>, needle: Seq<char>) -> bool {
    exists|k: int|
        0 <= k && k + needle.len() <= hay.len() && #[trigger] hay.subrange(k, k + needle.len())
            == needle
}

/// The middle part of a concatenation is a substring of the whole.
proof fn lemma_concat_has_substring(a: Seq<char>, n: Seq<char>, b: Seq<char>)
    ensures
        has_substring(a + n + b, n),
{
    let h = a + n + b;
    let k = a.len() as int;
    assert(h.subrange(k, k + n.len()) =~= n);
    assert(has_substring(h, n));
}

/// Builds the message for a finished query, exactly as [`message_spec`]
/// describes it. The pretty-printer runs only when the summary lost
/// characters; a summary equal to the full text is emitted as is.
pub fn build_message(sql: &str, rows: usize, elapsed_ns: u64) -> (r: String)
    ensures
        r@ == message_spec(sql@, rows as nat, elapsed_ns as nat),
{
    let mut out = parse_query_summary(sql);
    let full = sql.to_owned();
    let lossy = !(out == full);
    if lossy {
        out.append(" \u{2026}");
    }
    out.append("; ");
    out.append("rows: ");
    push_decimal(rows as u64, &mut out);
    out.append(", elapsed: ");
    push_elapsed(elapsed_ns, &mut out);
    if lossy {
        out.append("\n\n");
        let pretty = format_sql(sql);
        out.append(pretty.as_str());
        out.append("\n");
    }
    proof {
        assert(out@ =~= message_spec(sql@, rows as nat, elapsed_ns as nat));
    }
    out
}

/// Whatever the query text, row count and elapsed time, the message carries
/// the row count: `rows: ` followed by the count's decimal digits occurs in
/// it as a contiguous substring.
pub proof fn lemma_message_has_row_count(sql: Seq<char>, rows: nat, ns: nat)
    ensures
        has_substring(message_spec(sql, rows, ns), "rows: "@ + dec_of(rows)),
{
    let sum = summary_spec(sql);
    let needle = "rows: "@ + dec_of(rows);
    if sum == sql {
        let a = sum + "; "@;
        let b = ", elapsed: "@ + elapsed_fmt(ns);
        assert(message_spec(sql, rows, ns) =~= a + needle + b);
        lemma_concat_has_substring(a, needle, b);
    } else {
        let a = sum + " \u{2026}"@ + "; "@;
        let b = ", elapsed: "@ + elapsed_fmt(ns) + "\n\n"@ + formatted_of(sql) + "\n"@;
        assert(message_spec(sql, rows, ns) =~= a + needle + b);
        lemma_concat_has_substring(a, needle, b);
    }
}

/// A query of at most four tokens, written as its tokens joined by single
/// spaces, is shown in full: the message is exactly the compact line, with
/// no ellipsis and no verbose block.
pub proof fn lemma_message_short_query(sql: Seq<char>, rows: nat, ns: nat)
    requires
        tokens_of(sql).len() <= SUMMARY_TOKEN_LIMIT,
        sql == join_tokens(tokens_of(sql)),
    ensures
        message_spec(sql, rows, ns) == core_line(sql, rows, ns),
{
    lemma_short_query_summary(sql);
}

/// A query of more than four tokens is shown truncated: the message opens
/// with the four-token summary marked by an ellipsis, and carries the
/// pretty-printed full text as its verbose block.
pub proof fn lemma_message_long_query(sql: Seq<char>, rows: nat, ns: nat)
    ensures
        tokens_of(sql).len() > SUMMARY_TOKEN_LIMIT ==> message_spec(sql, rows, ns) == core_line(
            join_tokens(tokens_of(sql).take(SUMMARY_TOKEN_LIMIT as int)) + " \u{2026}"@,
            rows,
            ns,
        ) + "\n\n"@ + formatted_of(sql) + "\n"@,
        tokens_of(sql).len() > SUMMARY_TOKEN_LIMIT ==> has_substring(
            message_spec(sql, rows, ns),
            formatted_of(sql),
        ),
{
    if tokens_of(sql).len() > SUMMARY_TOKEN_LIMIT {
        lemma_long_query_summary(sql);
        let sum = summary_spec(sql);
        let a = core_line(sum + " \u{2026}"@, rows, ns) + "\n\n"@;
        let b = "\n"@;
        assert(message_spec(sql, rows, ns) =~= a + formatted_of(sql) + b);
        lemma_concat_has_substring(a, formatted_of(sql), b);
    }
}

} // verus!
