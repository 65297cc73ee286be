//! Decimal digits: how a natural number is written, and how it is read back.

use vstd::prelude::*;
use vstd::std_specs::iter::IteratorSpec;
use vstd::string::group_string_axioms;

verus! {

broadcast use group_string_axioms;

/// Whether `c` is one of the ten ASCII digits.
pub open spec fn is_digit(c: char) -> bool {
    '0' <= c && c <= '9'
}

/// The value of the digit `c`.
pub open spec fn digit_value(c: char) -> nat
    recommends
        is_digit(c),
{
    (c as int - '0' as int) as nat
}

/// The digit that stands for `d`.
pub open spec fn digit_char(d: nat) -> char
    recommends
        d < 10,
{
    if d == 0 {
        '0'
    } else if d == 1 {
        '1'
    } else if d == 2 {
        '2'
    } else if d == 3 {
        '3'
    } else if d == 4 {
        '4'
    } else if d == 5 {
        '5'
    } else if d == 6 {
        '6'
    } else if d == 7 {
        '7'
    } else if d == 8 {
        '8'
    } else {
        '9'
    }
}

/// The decimal numeral of `n`, without leading zeros.
pub open spec fn decimal(n: nat) -> Seq<char>
    decreases n,
{
    if n < 10 {
        seq![digit_char(n)]
    } else {
        decimal(n / 10).push(digit_char(n % 10))
    }
}

/// The number that the digits `s` denote; leading zeros count for nothing.
pub open spec fn number(s: Seq<char>) -> nat
    decreases s.len(),
{
    if s.len() == 0 {
        0
    } else {
        number(s.drop_last()) * 10 + digit_value(s.last())
    }
}

/// Whether every character of `s` is a digit.
pub open spec fn all_digits(s: Seq<char>) -> bool {
    forall|i: int| 0 <= i < s.len() ==> is_digit(#[trigger] s[i])
}

/// How many digits `s` begins with.
pub open spec fn digit_count(s: Seq<char>) -> nat
    decreases s.len(),
{
    if s.len() > 0 && is_digit(s[0]) {
        1 + digit_count(s.drop_first())
    } else {
        0
    }
}

/// The numeral of `n`, behind a minus sign where `n` is negative.
pub open spec fn signed_decimal(n: int) -> Seq<char> {
    if n < 0 {
        seq!['-'] + decimal((-n) as nat)
    } else {
        decimal(n as nat)
    }
}

/// The words of `words` in their order, one space between neighbours.
pub open spec fn joined(words: Seq<String>) -> Seq<char>
    decreases words.len(),
{
    if words.len() == 0 {
        Seq::empty()
    } else if words.len() == 1 {
        words[0]@
    } else {
        joined(words.drop_last()) + seq![' '] + words.last()@
    }
}

/// A digit and its value determine each other.
pub proof fn lemma_digit_char_value(d: nat)
    requires
        d < 10,
    ensures
        is_digit(digit_char(d)),
        digit_value(digit_char(d)) == d,
{
}

/// A numeral holds digits only, at least one, and no leading zero unless it
/// is the numeral of zero.
pub proof fn lemma_decimal_shape(n: nat)
    ensures
        decimal(n).len() >= 1,
        all_digits(decimal(n)),
        decimal(n)[0] == '0' <==> n == 0,
    decreases n,
{
    if n >= 10 {
        lemma_decimal_shape(n / 10);
        lemma_digit_char_value(n % 10);
    } else {
        lemma_digit_char_value(n);
    }
}

/// Reading a numeral gives back the number it was written for.
pub proof fn lemma_number_decimal(n: nat)
    ensures
        number(decimal(n)) == n,
    decreases n,
{
    if n >= 10 {
        lemma_number_decimal(n / 10);
        lemma_digit_char_value(n % 10);
        let s = decimal(n / 10).push(digit_char(n % 10));
        assert(s.drop_last() =~= decimal(n / 10));
        assert(s.last() == digit_char(n % 10));
    } else {
        lemma_digit_char_value(n);
        let s = seq![digit_char(n)];
        assert(s.drop_last() =~= Seq::<char>::empty());
        assert(number(s.drop_last()) == 0);
    }
}

/// The digits that `s` begins with are among its characters, and are digits.
pub proof fn lemma_digit_count_bound(s: Seq<char>)
    ensures
        digit_count(s) <= s.len(),
        forall|i: int| 0 <= i < digit_count(s) ==> is_digit(#[trigger] s[i]),
    decreases s.len(),
{
    if s.len() > 0 && is_digit(s[0]) {
        lemma_digit_count_bound(s.drop_first());
        assert forall|i: int| 0 <= i < digit_count(s) implies is_digit(#[trigger] s[i]) by {
            if i > 0 {
                assert(s[i] == s.drop_first()[i - 1]);
            }
        }
    }
}

/// Digits followed by something else begin with just those digits.
pub proof fn lemma_digit_count_prefix(digits: Seq<char>, rest: Seq<char>)
    requires
        all_digits(digits),
        rest.len() == 0 || !is_digit(rest[0]),
    ensures
        digit_count(digits + rest) == digits.len(),
    decreases digits.len(),
{
    let s = digits + rest;
    if digits.len() == 0 {
        assert(s =~= rest);
    } else {
        assert(s[0] == digits[0]);
        assert(s.drop_first() =~= digits.drop_first() + rest);
        assert forall|i: int| 0 <= i < digits.drop_first().len() implies is_digit(
            #[trigger] digits.drop_first()[i],
        ) by {
            assert(digits.drop_first()[i] == digits[i + 1]);
        }
        lemma_digit_count_prefix(digits.drop_first(), rest);
    }
}

/// One more character at the front of what is left to scan: a digit counts,
/// anything else ends the digits.
pub proof fn lemma_digit_count_step(s: Seq<char>, d: int)
    requires
        0 <= d <= s.len(),
        digit_count(s) == d + digit_count(s.skip(d)),
    ensures
        d < s.len() && is_digit(s[d]) ==> digit_count(s) == (d + 1) + digit_count(s.skip(d + 1)),
        d == s.len() || !is_digit(s[d]) ==> digit_count(s) == d,
{
    if d < s.len() {
        assert(s.skip(d)[0] == s[d]);
        assert(s.skip(d).drop_first() =~= s.skip(d + 1));
    }
}

/// One more digit at the end of a number: ten times the number so far, and
/// the digit.
pub proof fn lemma_number_step(s: Seq<char>, d: int)
    requires
        0 <= d < s.len(),
    ensures
        number(s.take(d + 1)) == number(s.take(d)) * 10 + digit_value(s[d]),
{
    assert(s.take(d + 1).drop_last() =~= s.take(d));
    assert(s.take(d + 1).last() == s[d]);
}

/// The characters of `input`, one by one.
pub fn chars_of(input: &str) -> (out: Vec<char>)
    ensures
        out@ == input@,
{
    let mut out: Vec<char> = Vec::new();
    for c in rest: input.chars()
        invariant
            out@ == rest.seq().take(rest.index()),
            rest.seq() == input@,
    {
        out.push(c);
    }
    out
}

/// The words of `words` in their order, one space between neighbours.
pub fn join_words(words: &Vec<String>) -> (out: String)
    ensures
        out@ == joined(words@),
{
    let mut out = String::new();
    let mut i: usize = 0;
    while i < words.len()
        invariant
            i <= words.len(),
            out@ == joined(words@.take(i as int)),
        decreases words.len() - i,
    {
        let ghost before = out@;
        if i > 0 {
            out.append(" ");
        }
        out.append(words[i].as_str());
        proof {
            reveal_strlit(" ");
            let upto = words@.take(i + 1);
            assert(upto.drop_last() =~= words@.take(i as int));
            assert(upto.last() == words@[i as int]);
            if i > 0 {
                assert(out@ =~= before + seq![' '] + words@[i as int]@);
            } else {
                assert(out@ =~= words@[0]@);
            }
        }
        i = i + 1;
    }
    assert(words@.take(i as int) =~= words@);
    out
}

/// Appends the digit `d` to `out`.
fn push_digit(out: &mut String, d: u64)
    requires
        d < 10,
    ensures
        final(out)@ == old(out)@.push(digit_char(d as nat)),
{
    proof {
        reveal_strlit("0");
        reveal_strlit("1");
        reveal_strlit("2");
        reveal_strlit("3");
        reveal_strlit("4");
        reveal_strlit("5");
        reveal_strlit("6");
        reveal_strlit("7");
        reveal_strlit("8");
        reveal_strlit("9");
    }
    let ghost before = out@;
    if d == 0 {
        out.append("0");
    } else if d == 1 {
        out.append("1");
    } else if d == 2 {
        out.append("2");
    } else if d == 3 {
        out.append("3");
    } else if d == 4 {
        out.append("4");
    } else if d == 5 {
        out.append("5");
    } else if d == 6 {
        out.append("6");
    } else if d == 7 {
        out.append("7");
    } else if d == 8 {
        out.append("8");
    } else {
        out.append("9");
    }
    assert(out@ =~= before.push(digit_char(d as nat)));
}

/// Appends the numeral of `n` to `out`.
pub fn push_decimal(out: &mut String, n: u64)
    ensures
        final(out)@ == old(out)@ + decimal(n as nat),
    decreases n,
{
    let ghost before = out@;
    if n >= 10 {
        push_decimal(out, n / 10);
        push_digit(out, n % 10);
        assert(out@ =~= before + decimal(n as nat));
    } else {
        push_digit(out, n);
        assert(out@ =~= before + decimal(n as nat));
    }
}

/// Appends the numeral of `n`, with its sign, to `out`.
pub fn push_signed(out: &mut String, n: i64)
    ensures
        final(out)@ == old(out)@ + signed_decimal(n as int),
{
    proof {
        reveal_strlit("-");
    }
    let ghost before = out@;
    if n < 0 {
        let below: i64 = -(n + 1);
        out.append("-");
        push_decimal(out, below as u64 + 1);
        assert(out@ =~= before + signed_decimal(n as int));
    } else {
        push_decimal(out, n as u64);
    }
}

} // verus!
