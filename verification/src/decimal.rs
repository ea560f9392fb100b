//! Decimal rendering of integers, and the reading that inverts it.

use vstd::prelude::*;

verus! {

/// The character of the decimal digit `d`.
pub open spec fn digit_char(d: int) -> char
    recommends
        0 <= d <= 9,
{
    ((48 + d) as u8) as char
}

/// The digit that the character `c` stands for.
pub open spec fn digit_value(c: char) -> int
    recommends
        is_digit(c),
{
    (c as u8) as int - 48
}

/// Whether `c` is one of `'0'` to `'9'`.
pub open spec fn is_digit(c: char) -> bool {
    '0' <= c <= '9'
}

/// The decimal numeral of `n`: most significant digit first, no leading
/// zero except for `0` itself.
pub open spec fn nat_text(n: nat) -> Seq<char>
    decreases n,
{
    if n < 10 {
        seq![digit_char(n as int)]
    } else {
        nat_text(n / 10).push(digit_char((n % 10) as int))
    }
}

/// The decimal numeral of `v`, with a leading `-` when `v` is negative.
pub open spec fn int_text(v: int) -> Seq<char> {
    if v < 0 {
        seq!['-'] + nat_text((-v) as nat)
    } else {
        nat_text(v as nat)
    }
}

/// The number that a string of digits denotes.
pub open spec fn nat_value(t: Seq<char>) -> nat
    decreases t.len(),
{
    if t.len() == 0 {
        0
    } else {
        (10 * nat_value(t.drop_last()) + digit_value(t.last())) as nat
    }
}

/// The number that an optionally signed string of digits denotes.
pub open spec fn int_value(t: Seq<char>) -> int {
    if t.len() > 0 && t[0] == '-' {
        -(nat_value(t.drop_first()) as int)
    } else {
        nat_value(t) as int
    }
}

/// A numeral is never empty and holds digits only.
pub proof fn lemma_nat_text_is_digits(n: nat)
    ensures
        nat_text(n).len() >= 1,
        forall|i: int| 0 <= i < nat_text(n).len() ==> is_digit(#[trigger] nat_text(n)[i]),
    decreases n,
{
    if n >= 10 {
        lemma_nat_text_is_digits(n / 10);
    }
}

/// Reading a numeral gives back the number it was written from.
pub proof fn lemma_nat_text_round_trips(n: nat)
    ensures
        nat_value(nat_text(n)) == n,
    decreases n,
{
    let t = nat_text(n);
    if n < 10 {
        assert(nat_value(t.drop_last()) == 0);
    } else {
        lemma_nat_text_round_trips(n / 10);
        assert(t.drop_last() =~= nat_text(n / 10));
    }
}

/// Reading a signed numeral gives back the integer it was written from.
pub proof fn lemma_int_text_round_trips(v: int)
    ensures
        int_value(int_text(v)) == v,
{
    let t = int_text(v);
    if v < 0 {
        let m = (-v) as nat;
        assert(t.drop_first() =~= nat_text(m));
        lemma_nat_text_round_trips(m);
    } else {
        lemma_nat_text_is_digits(v as nat);
        lemma_nat_text_round_trips(v as nat);
    }
}

/// The one-character string of the digit `d`.
fn digit_str(d: u64) -> (s: &'static str)
    requires
        d <= 9,
    ensures
        s@ == seq![digit_char(d as int)],
{
    proof {
        reveal_strlit("0");
        reveal_strlit("1");
        reveal_strlit("2");
        reveal_strlit("3");
        reveal_strlit("4");
        reveal_strlit("5");
        reveal_strlit("6");
        reveal_strlit("7");
        reveal_strlit("8");
        reveal_strlit("9");
    }
    match d {
        0 => "0",
        1 => "1",
        2 => "2",
        3 => "3",
        4 => "4",
        5 => "5",
        6 => "6",
        7 => "7",
        8 => "8",
        _ => "9",
    }
}

/// Appends the decimal numeral of `n` to `out`.
pub fn emit_nat(out: &mut String, n: u64)
    ensures
        final(out)@ == old(out)@ + nat_text(n as nat),
    decreases n,
{
    if n >= 10 {
        emit_nat(out, n / 10);
    }
    out.append(digit_str(n % 10));
}

/// Appends the decimal numeral of `v` to `out`.
pub fn emit_int(out: &mut String, v: i64)
    ensures
        final(out)@ == old(out)@ + int_text(v as int),
{
    if v < 0 {
        proof {
            reveal_strlit("-");
        }
        out.append("-");
        let magnitude: u64 = (-(v as i128)) as u64;
        emit_nat(out, magnitude);
    } else {
        emit_nat(out, v as u64);
    }
}

} // verus!
