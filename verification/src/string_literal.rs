//! How C reads the text written for a string literal.
//!
//! The generator quotes a string without escaping anything in it. This module
//! holds a small lexical model of C string literals (an escape is a backslash
//! and the one character after it; a literal does not span lines) and states
//! against it when the written text is one literal and when it is not.

use crate::ast::ExprModel;
use crate::target_text::expr_text;
use vstd::prelude::*;

verus! {

/// The index of the quote that closes a string literal whose body is being
/// read at index `i` of `t`, if the body is closed at all.
pub open spec fn closing_quote(t: Seq<char>, i: int) -> Option<int>
    decreases t.len() - i,
{
    if i < 0 || i >= t.len() {
        None
    } else if t[i] == '"' {
        Some(i)
    } else if t[i] == '\n' {
        None
    } else if t[i] == '\\' {
        if i + 1 < t.len() {
            closing_quote(t, i + 2)
        } else {
            None
        }
    } else {
        closing_quote(t, i + 1)
    }
}

/// Whether `t` is exactly one string literal: an opening quote, a body, and
/// the closing quote as the last character.
pub open spec fn is_string_literal(t: Seq<char>) -> bool {
    &&& t.len() >= 2
    &&& t[0] == '"'
    &&& closing_quote(t, 1) == Some(t.len() - 1)
}

/// Whether `s` holds nothing that C treats specially inside a literal: no
/// quote, no backslash, no line end.
pub open spec fn is_plain(s: Seq<char>) -> bool {
    forall|i: int| 0 <= i < s.len() ==> s[i] != '"' && s[i] != '\\' && s[i] != '\n'
}

/// How many backslashes stand in an unbroken run directly before index `i`.
pub open spec fn backslashes_before(s: Seq<char>, i: int) -> nat
    decreases i,
{
    if 0 < i <= s.len() && s[i - 1] == '\\' {
        1 + backslashes_before(s, i - 1)
    } else {
        0
    }
}

/// Whether index `i` of `s` holds a quote that nothing escapes: the run of
/// backslashes before it, if any, pairs up.
pub open spec fn is_bare_quote(s: Seq<char>, i: int) -> bool {
    &&& 0 <= i < s.len()
    &&& s[i] == '"'
    &&& backslashes_before(s, i) % 2 == 0
}

/// The text written for a string literal: the string between two quotes,
/// character for character.
pub proof fn lemma_string_text_is_verbatim(s: Seq<char>)
    ensures
        ({
            let t = expr_text(ExprModel::String(s));
            &&& t.len() == s.len() + 2
            &&& t.first() == '"'
            &&& t.last() == '"'
            &&& t.subrange(1, t.len() - 1) == s
            &&& forall|i: int| 0 <= i < s.len() ==> #[trigger] t[i + 1] == s[i]
        }),
{
    reveal_strlit("\"");
}

/// The run before `i` is made of backslashes, and no backslash stands
/// directly before it.
proof fn lemma_backslash_run(s: Seq<char>, i: int)
    requires
        0 <= i <= s.len(),
    ensures
        backslashes_before(s, i) <= i,
        forall|k: int| i - backslashes_before(s, i) <= k < i ==> s[k] == '\\',
        i - backslashes_before(s, i) > 0 ==> s[i - backslashes_before(s, i) - 1] != '\\',
    decreases i,
{
    if 0 < i && s[i - 1] == '\\' {
        lemma_backslash_run(s, i - 1);
    }
}

/// Reading the body from the position of `s[p]` stops at or before the bare
/// quote `s[j]`, when `p` is not inside an escape.
proof fn lemma_reading_stops_at_bare_quote(t: Seq<char>, s: Seq<char>, j: int, p: int)
    requires
        t.len() == s.len() + 2,
        forall|i: int| 0 <= i < s.len() ==> #[trigger] t[i + 1] == s[i],
        is_bare_quote(s, j),
        0 <= p <= j,
        p <= j - backslashes_before(s, j) || (j - p) % 2 == 0,
    ensures
        closing_quote(t, p + 1) != Some(t.len() - 1),
    decreases j - p,
{
    lemma_backslash_run(s, j);
    if p < j && s[p] != '"' && s[p] != '\n' {
        if s[p] == '\\' {
            // inside the run the distance to the quote is even, so the escape
            // ends at or before it; before the run it ends before the run
            lemma_reading_stops_at_bare_quote(t, s, j, p + 2);
        } else {
            lemma_reading_stops_at_bare_quote(t, s, j, p + 1);
        }
    }
}

/// Reading the body of a plain string runs to the closing quote.
proof fn lemma_reading_plain_reaches_end(t: Seq<char>, s: Seq<char>, p: int)
    requires
        t.len() == s.len() + 2,
        forall|i: int| 0 <= i < s.len() ==> #[trigger] t[i + 1] == s[i],
        t.last() == '"',
        is_plain(s),
        0 <= p <= s.len(),
    ensures
        closing_quote(t, p + 1) == Some(t.len() - 1),
    decreases s.len() - p,
{
    if p < s.len() {
        lemma_reading_plain_reaches_end(t, s, p + 1);
    }
}

/// A plain string is written as one string literal, and what stands between
/// its quotes is the string itself: C reads back the value that was written.
pub proof fn lemma_plain_string_round_trips(s: Seq<char>)
    requires
        is_plain(s),
    ensures
        is_string_literal(expr_text(ExprModel::String(s))),
        expr_text(ExprModel::String(s)).subrange(1, s.len() as int + 1) == s,
{
    let t = expr_text(ExprModel::String(s));
    lemma_string_text_is_verbatim(s);
    lemma_reading_plain_reaches_end(t, s, 0);
}

/// A string with a quote that nothing escapes is not written as one string
/// literal: C closes the literal at or before that quote, and text is left
/// over.
pub proof fn lemma_bare_quote_breaks_literal(s: Seq<char>, i: int)
    requires
        is_bare_quote(s, i),
    ensures
        !is_string_literal(expr_text(ExprModel::String(s))),
{
    let t = expr_text(ExprModel::String(s));
    lemma_string_text_is_verbatim(s);
    lemma_backslash_run(s, i);
    lemma_reading_stops_at_bare_quote(t, s, i, 0);
}

} // verus!
