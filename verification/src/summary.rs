//! The query summary: the first few whitespace-delimited tokens of the query
//! text, joined by single spaces. This is a heuristic preview, not a SQL
//! parser; whether the summary equals the full text is the sole signal that
//! the preview lost information.

use vstd::prelude::*;
use vstd::string::StrSliceExecFns;
use vstd::string::StringExecFns;

verus! {

/// How many leading tokens the summary keeps.
pub const SUMMARY_TOKEN_LIMIT: usize = 4;

/// Whether `c` separates tokens: the Unicode white-space characters, the set
/// that `str::split_whitespace` splits on.
pub open spec fn is_query_ws(c: char) -> bool {
    ||| c == '\u{0009}'
    ||| c == '\u{000A}'
    ||| c == '\u{000B}'
    ||| c == '\u{000C}'
    ||| c == '\u{000D}'
    ||| c == ' '
    ||| c == '\u{0085}'
    ||| c == '\u{00A0}'
    ||| c == '\u{1680}'
    ||| c == '\u{2000}'
    ||| c == '\u{2001}'
    ||| c == '\u{2002}'
    ||| c == '\u{2003}'
    ||| c == '\u{2004}'
    ||| c == '\u{2005}'
    ||| c == '\u{2006}'
    ||| c == '\u{2007}'
    ||| c == '\u{2008}'
    ||| c == '\u{2009}'
    ||| c == '\u{200A}'
    ||| c == '\u{2028}'
    ||| c == '\u{2029}'
    ||| c == '\u{202F}'
    ||| c == '\u{205F}'
    ||| c == '\u{3000}'
}

/// Decides [`is_query_ws`].
pub fn is_ws_char(c: char) -> (r: bool)
    ensures
        r == is_query_ws(c),
{
    c == '\u{0009}' || c == '\u{000A}' || c == '\u{000B}' || c == '\u{000C}' || c == '\u{000D}'
        || c == ' ' || c == '\u{0085}' || c == '\u{00A0}' || c == '\u{1680}'
        || (c >= '\u{2000}' && c <= '\u{200A}') || c == '\u{2028}' || c == '\u{2029}'
        || c == '\u{202F}' || c == '\u{205F}' || c == '\u{3000}'
}

/// Length of the token at the head of `s`: the longest prefix free of
/// white space. Zero when `s` is empty or starts with white space.
pub open spec fn token_len(s: Seq<char>) -> nat
    decreases s.len(),
{
    if s.len() == 0 || is_query_ws(s[0]) {
        0
    } else {
        1 + token_len(s.skip(1))
    }
}

/// The head token is nonempty, free of white space, and ends at the end of
/// `s` or just before a white-space character.
proof fn lemma_token_len_shape(s: Seq<char>)
    requires
        s.len() > 0,
        !is_query_ws(s[0]),
    ensures
        1 <= token_len(s) <= s.len(),
        forall|j: int| 0 <= j < token_len(s) ==> !is_query_ws(s[j]),
        token_len(s) == s.len() || is_query_ws(s[token_len(s) as int]),
    decreases s.len(),
{
    let k = token_len(s) as int;
    if s.len() > 1 && !is_query_ws(s[1]) {
        assert(s.skip(1)[0] == s[1]);
        lemma_token_len_shape(s.skip(1));
        let k1 = token_len(s.skip(1)) as int;
        assert(k == 1 + k1);
        assert forall|j: int| 0 <= j < k implies !is_query_ws(s[j]) by {
            if j >= 1 {
                assert(s.skip(1)[j - 1] == s[j]);
            }
        }
        if k < s.len() {
            assert(s.skip(1)[k1] == s[k]);
        }
    } else {
        reveal_with_fuel(token_len, 2);
        if s.len() > 1 {
            assert(is_query_ws(s[1]));
            assert(s.skip(1)[0] == s[1]);
            assert(token_len(s.skip(1)) == 0);
        } else {
            assert(s.skip(1).len() == 0);
            assert(token_len(s.skip(1)) == 0);
        }
        assert(k == 1);
    }
}

/// The whitespace-delimited tokens of `s`, in order.
pub open spec fn tokens_of(s: Seq<char>) -> Seq<Seq<char>>
    decreases s.len(),
    via tokens_of_dec
{
    if s.len() == 0 {
        Seq::empty()
    } else if is_query_ws(s[0]) {
        tokens_of(s.skip(1))
    } else {
        seq![s.take(token_len(s) as int)] + tokens_of(s.skip(token_len(s) as int))
    }
}

#[via_fn]
proof fn tokens_of_dec(s: Seq<char>) {
    if s.len() > 0 && !is_query_ws(s[0]) {
        lemma_token_len_shape(s);
    }
}

/// The given token texts joined by single spaces.
pub open spec fn join_tokens(ts: Seq<Seq<char>>) -> Seq<char>
    decreases ts.len(),
{
    if ts.len() == 0 {
        Seq::empty()
    } else if ts.len() == 1 {
        ts[0]
    } else {
        ts[0] + seq![' '] + join_tokens(ts.skip(1))
    }
}

/// The summary of query text `s`: its first [`SUMMARY_TOKEN_LIMIT`] tokens,
/// joined by single spaces.
pub open spec fn summary_spec(s: Seq<char>) -> Seq<char> {
    let ts = tokens_of(s);
    if ts.len() <= SUMMARY_TOKEN_LIMIT {
        join_tokens(ts)
    } else {
        join_tokens(ts.take(SUMMARY_TOKEN_LIMIT as int))
    }
}

/// Appending one token to a joined list appends a separating space first,
/// unless the list was empty.
proof fn lemma_join_push(ts: Seq<Seq<char>>, t: Seq<char>)
    ensures
        join_tokens(ts.push(t)) == if ts.len() == 0 {
            t
        } else {
            (join_tokens(ts) + seq![' '] + t)
        },
    decreases ts.len(),
{
    let p = ts.push(t);
    if ts.len() == 0 {
        assert(p[0] == t);
        assert(join_tokens(p) == t);
    } else if ts.len() == 1 {
        assert(p.skip(1) =~= seq![t]);
        assert(join_tokens(seq![t]) == t);
        assert(p[0] == ts[0]);
        assert(join_tokens(p) =~= join_tokens(ts) + seq![' '] + t);
    } else {
        lemma_join_push(ts.skip(1), t);
        assert(p.skip(1) =~= ts.skip(1).push(t));
        assert(p[0] == ts[0]);
        assert(join_tokens(p) =~= join_tokens(ts) + seq![' '] + t);
    }
}

/// A scan that saw no white space over `s[0..k]` and stopped at the end or at
/// white space has found the head token: its length is exactly `k`.
proof fn lemma_token_len_is(s: Seq<char>, k: int)
    requires
        0 < k <= s.len(),
        forall|j: int| 0 <= j < k ==> !is_query_ws(s[j]),
        k == s.len() || is_query_ws(s[k]),
    ensures
        token_len(s) == k,
    decreases k,
{
    if k == 1 {
        reveal_with_fuel(token_len, 2);
        assert(!is_query_ws(s[0]));
        if s.len() > 1 {
            assert(is_query_ws(s[1]));
            assert(s.skip(1)[0] == s[1]);
            assert(token_len(s.skip(1)) == 0);
        } else {
            assert(s.skip(1).len() == 0);
            assert(token_len(s.skip(1)) == 0);
        }
    } else {
        assert forall|j: int| 0 <= j < k - 1 implies !is_query_ws(s.skip(1)[j]) by {
            assert(s.skip(1)[j] == s[j + 1]);
        }
        if k < s.len() {
            assert(s.skip(1)[k - 1] == s[k]);
        }
        lemma_token_len_is(s.skip(1), k - 1);
    }
}

/// Splitting off a head token found by such a scan: the token list of `s` is
/// that token followed by the tokens of the remainder.
proof fn lemma_tokens_head(s: Seq<char>, k: int)
    requires
        0 < k <= s.len(),
        forall|j: int| 0 <= j < k ==> !is_query_ws(s[j]),
        k == s.len() || is_query_ws(s[k]),
    ensures
        tokens_of(s) == seq![s.take(k)] + tokens_of(s.skip(k)),
{
    lemma_token_len_is(s, k);
    assert(!is_query_ws(s[0]));
}

/// Keeping only the first `m` of more than `m` tokens loses characters: the
/// joined prefix is strictly shorter than the original text.
proof fn lemma_join_take_lt(s: Seq<char>, m: int)
    requires
        0 <= m < tokens_of(s).len(),
    ensures
        join_tokens(tokens_of(s).take(m)).len() < s.len(),
    decreases s.len(),
{
    let ts = tokens_of(s);
    assert(s.len() > 0);
    if is_query_ws(s[0]) {
        lemma_join_take_lt(s.skip(1), m);
    } else {
        lemma_token_len_shape(s);
        let k = token_len(s) as int;
        let rest = tokens_of(s.skip(k));
        if m == 0 {
            assert(ts.take(0) =~= Seq::<Seq<char>>::empty());
        } else {
            assert(rest.len() > m - 1);
            if k == s.len() {
                assert(s.skip(k).len() == 0);
                assert(false);
            }
            assert(is_query_ws(s[k]));
            assert(s.skip(k)[0] == s[k]);
            assert(s.skip(k).skip(1) =~= s.skip(k + 1));
            assert(rest == tokens_of(s.skip(k + 1)));
            if m == 1 {
                assert(ts.take(1) =~= seq![s.take(k)]);
                assert(join_tokens(ts.take(1)) == s.take(k));
            } else {
                lemma_join_take_lt(s.skip(k + 1), m - 1);
                assert(ts.take(m) =~= seq![s.take(k)] + rest.take(m - 1));
                assert(ts.take(m)[0] == s.take(k));
                assert(ts.take(m).skip(1) =~= rest.take(m - 1));
                assert(join_tokens(ts.take(m)) == s.take(k) + seq![' '] + join_tokens(
                    rest.take(m - 1),
                ));
            }
        }
    }
}

/// A query of at most four tokens whose text is exactly those tokens joined
/// by single spaces is its own summary: nothing was lost.
pub proof fn lemma_short_query_summary(s: Seq<char>)
    requires
        tokens_of(s).len() <= SUMMARY_TOKEN_LIMIT,
        s == join_tokens(tokens_of(s)),
    ensures
        summary_spec(s) == s,
{
}

/// A query of more than four tokens summarizes to its first four tokens
/// joined by single spaces, and that summary never equals the full text.
pub proof fn lemma_long_query_summary(s: Seq<char>)
    requires
        tokens_of(s).len() > SUMMARY_TOKEN_LIMIT,
    ensures
        summary_spec(s) == join_tokens(tokens_of(s).take(SUMMARY_TOKEN_LIMIT as int)),
        summary_spec(s).len() < s.len(),
        summary_spec(s) != s,
{
    lemma_join_take_lt(s, SUMMARY_TOKEN_LIMIT as int);
}

/// Produces the summary of `sql`: its first four whitespace-delimited tokens
/// joined by single spaces.
pub fn parse_query_summary(sql: &str) -> (r: String)
    ensures
        r@ == summary_spec(sql@),
{
    let ghost s: Seq<char> = sql@;
    let n = sql.unicode_len();
    let mut out = String::new();
    let mut i: usize = 0;
    let mut count: usize = 0;
    proof {
        assert(s.skip(0) =~= s);
        assert(tokens_of(s).skip(0) =~= tokens_of(s));
        assert(tokens_of(s).take(0) =~= Seq::<Seq<char>>::empty());
    }
    while count < SUMMARY_TOKEN_LIMIT && i < n
        invariant
            n == s.len(),
            s == sql@,
            i <= n,
            count <= SUMMARY_TOKEN_LIMIT,
            count <= tokens_of(s).len(),
            tokens_of(s).skip(count as int) == tokens_of(s.skip(i as int)),
            out@ == join_tokens(tokens_of(s).take(count as int)),
        decreases n - i,
    {
        let c = sql.get_char(i);
        if is_ws_char(c) {
            proof {
                assert(s.skip(i as int)[0] == s[i as int]);
                assert(s.skip(i as int).skip(1) =~= s.skip(i + 1));
            }
            i = i + 1;
        } else {
            let start = i;
            proof {
                assert(!is_query_ws(s[start as int]));
            }
            i = i + 1;
            while i < n && !is_ws_char(sql.get_char(i))
                invariant
                    n == s.len(),
                    s == sql@,
                    start < i <= n,
                    forall|j: int| start <= j < i ==> !is_query_ws(s[j]),
                decreases n - i,
            {
                i = i + 1;
            }
            let tok = sql.substring_char(start, i);
            let ghost u = s.skip(start as int);
            let ghost k = i - start;
            proof {
                assert forall|j: int| 0 <= j < k implies !is_query_ws(u[j]) by {
                    assert(u[j] == s[j + start]);
                }
                if i < n {
                    assert(u[k as int] == s[i as int]);
                }
                lemma_tokens_head(u, k as int);
                assert(u.take(k as int) =~= s.subrange(start as int, i as int));
                assert(u.skip(k as int) =~= s.skip(i as int));
                // The head token of the unread remainder is this token, and
                // the remainder after it starts at `i`.
                assert(tokens_of(s).skip(count as int) == seq![tok@] + tokens_of(
                    s.skip(i as int),
                ));
                assert(tokens_of(s).skip(count as int).len() == (seq![tok@] + tokens_of(
                    s.skip(i as int),
                )).len());
                assert(tokens_of(s).skip(count as int).len() == tokens_of(s).len() - count);
                assert(tokens_of(s).len() > count);
                assert(tokens_of(s).skip(count as int)[0] == tok@);
                assert(tokens_of(s).skip(count as int)[0] == tokens_of(s)[count as int]);
                assert(tokens_of(s)[count as int] == tok@);
                assert(tokens_of(s).skip(count as int).skip(1) =~= tokens_of(s).skip(
                    count + 1,
                ));
                assert(tokens_of(s).skip(count as int).skip(1) =~= tokens_of(s.skip(i as int)));
                assert(tokens_of(s).take(count as int).push(tok@) =~= tokens_of(s).take(
                    count + 1,
                ));
                lemma_join_push(tokens_of(s).take(count as int), tok@);
            }
            if count > 0 {
                out.append(" ");
                proof {
                    reveal_strlit(" ");
                    assert(" "@ =~= seq![' ']);
                }
            }
            out.append(tok);
            proof {
                if count > 0 {
                    assert(out@ =~= join_tokens(tokens_of(s).take(count + 1)));
                } else {
                    assert(tokens_of(s).take(0) =~= Seq::<Seq<char>>::empty());
                    assert(out@ =~= join_tokens(tokens_of(s).take(count + 1)));
                }
            }
            count = count + 1;
        }
    }
    proof {
        let ts = tokens_of(s);
        if i == n && count < SUMMARY_TOKEN_LIMIT {
            assert(s.skip(n as int) =~= Seq::<char>::empty());
            assert(tokens_of(s.skip(n as int)) == Seq::<Seq<char>>::empty());
            assert(ts.skip(count as int).len() == 0);
            assert(ts.len() == count);
        }
        assert(ts.take(ts.len() as int) =~= ts);
        if count == SUMMARY_TOKEN_LIMIT && ts.len() == SUMMARY_TOKEN_LIMIT {
            assert(ts.take(count as int) =~= ts);
        }
        assert(out@ == summary_spec(s));
    }
    out
}

} // verus!
