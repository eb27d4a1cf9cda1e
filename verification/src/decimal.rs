//! Decimal numerals of integers, as `{}` prints them.
use vstd::prelude::*;

verus! {

/// The character of a decimal digit.
pub open spec fn digit_char(d: nat) -> char
    recommends
        d < 10,
{
    if d == 0 {
        '0'
    } else if d == 1 {
        '1'
    } else if d == 2 {
        '2'
    } else if d == 3 {
        '3'
    } else if d == 4 {
        '4'
    } else if d == 5 {
        '5'
    } else if d == 6 {
        '6'
    } else if d == 7 {
        '7'
    } else if d == 8 {
        '8'
    } else {
        '9'
    }
}

/// The decimal numeral of a natural number: no sign, no leading zero.
pub open spec fn nat_numeral(n: nat) -> Seq<char>
    decreases n,
{
    if n < 10 {
        seq![digit_char(n)]
    } else {
        nat_numeral(n / 10).push(digit_char(n % 10))
    }
}

/// The decimal numeral of an integer: a minus sign before negative values.
pub open spec fn int_numeral(i: int) -> Seq<char> {
    if i < 0 {
        seq!['-'] + nat_numeral((-i) as nat)
    } else {
        nat_numeral(i as nat)
    }
}

fn append_digit(s: &mut String, d: u64)
    requires
        d < 10,
    ensures
        final(s)@ == old(s)@.push(digit_char(d as nat)),
{
    let t = if d == 0 {
        proof { reveal_strlit("0"); }
        "0"
    } else if d == 1 {
        proof { reveal_strlit("1"); }
        "1"
    } else if d == 2 {
        proof { reveal_strlit("2"); }
        "2"
    } else if d == 3 {
        proof { reveal_strlit("3"); }
        "3"
    } else if d == 4 {
        proof { reveal_strlit("4"); }
        "4"
    } else if d == 5 {
        proof { reveal_strlit("5"); }
        "5"
    } else if d == 6 {
        proof { reveal_strlit("6"); }
        "6"
    } else if d == 7 {
        proof { reveal_strlit("7"); }
        "7"
    } else if d == 8 {
        proof { reveal_strlit("8"); }
        "8"
    } else {
        proof { reveal_strlit("9"); }
        "9"
    };
    assert(t@ =~= seq![digit_char(d as nat)]);
    s.append(t);
}

/// Appends the decimal numeral of `n` to `s`.
pub fn push_u64(s: &mut String, n: u64)
    ensures
        final(s)@ == old(s)@ + nat_numeral(n as nat),
    decreases n,
{
    if n < 10 {
        append_digit(s, n);
        assert(old(s)@.push(digit_char(n as nat)) =~= old(s)@ + nat_numeral(n as nat));
    } else {
        push_u64(s, n / 10);
        append_digit(s, n % 10);
        assert(old(s)@ + nat_numeral((n / 10) as nat) + seq![digit_char((n % 10) as nat)]
            =~= old(s)@ + nat_numeral(n as nat));
    }
}

/// Appends the decimal numeral of `i`, with a minus sign when negative, to `s`.
pub fn push_i64(s: &mut String, i: i64)
    ensures
        final(s)@ == old(s)@ + int_numeral(i as int),
{
    if i < 0 {
        proof { reveal_strlit("-"); }
        s.append("-");
        let magnitude: u64 = (-(i as i128)) as u64;
        push_u64(s, magnitude);
        assert(old(s)@ + seq!['-'] + nat_numeral(magnitude as nat) =~= old(s)@ + int_numeral(i as int));
    } else {
        push_u64(s, i as u64);
    }
}

/// The value of a decimal digit character.
pub open spec fn digit_value(c: char) -> nat {
    if c == '1' {
        1
    } else if c == '2' {
        2
    } else if c == '3' {
        3
    } else if c == '4' {
        4
    } else if c == '5' {
        5
    } else if c == '6' {
        6
    } else if c == '7' {
        7
    } else if c == '8' {
        8
    } else if c == '9' {
        9
    } else {
        0
    }
}

/// The number that a string of decimal digits stands for.
pub open spec fn numeral_value(s: Seq<char>) -> nat
    decreases s.len(),
{
    if s.len() == 0 {
        0
    } else {
        numeral_value(s.drop_last()) * 10 + digit_value(s.last())
    }
}

/// The numeral of a natural number is made of decimal digits, starts with a
/// digit other than zero unless the number is zero, and stands for the number.
pub proof fn lemma_numeral_reads_back(n: nat)
    ensures
        nat_numeral(n).len() >= 1,
        forall|i: int|
            0 <= i < nat_numeral(n).len() ==> '0' <= #[trigger] nat_numeral(n)[i] <= '9',
        n > 0 ==> nat_numeral(n)[0] != '0',
        numeral_value(nat_numeral(n)) == n,
    decreases n,
{
    if n >= 10 {
        lemma_numeral_reads_back(n / 10);
        let s = nat_numeral(n);
        assert(s.drop_last() =~= nat_numeral(n / 10));
        assert(digit_value(s.last()) == n % 10);
        assert(numeral_value(s) == numeral_value(s.drop_last()) * 10 + digit_value(s.last()));
        assert(n == (n / 10) * 10 + n % 10);
    } else {
        let s = nat_numeral(n);
        assert(s.drop_last() =~= Seq::<char>::empty());
        assert(numeral_value(s) == numeral_value(s.drop_last()) * 10 + digit_value(s.last()));
        assert(digit_value(s.last()) == n);
    }
}

} // verus!
