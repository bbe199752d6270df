//! Decimal digits and the few string operations the rest of the crate builds on.

use vstd::prelude::*;

verus! {

/// `String::push` of the standard library: the string grows by exactly the
/// pushed character, at its end. Believed from std's documentation.
pub assume_specification[ String::push ](s: &mut String, c: char)
    ensures
        final(s)@ == old(s)@.push(c),
;

/// The character that writes the decimal digit `d`: the digits follow each
/// other from `'0'` on.
pub open spec fn digit_char(d: int) -> char {
    ('0' as int + d) as char
}

/// The decimal numeral of `n`, without leading zeros (`0` is written "0").
pub open spec fn decimal(n: nat) -> Seq<char>
    decreases n,
{
    if n < 10 {
        seq![digit_char(n as int)]
    } else {
        decimal(n / 10).push(digit_char((n % 10) as int))
    }
}

/// The decimal numeral of `n`, padded with a zero to at least two digits.
pub open spec fn two_digits(n: nat) -> Seq<char> {
    if n < 10 {
        seq!['0'] + decimal(n)
    } else {
        decimal(n)
    }
}

/// Returns the character of one decimal digit.
pub fn digit_to_char(d: u8) -> (c: char)
    requires
        d < 10,
    ensures
        c == digit_char(d as int),
{
    if d == 0 {
        '0'
    } else if d == 1 {
        '1'
    } else if d == 2 {
        '2'
    } else if d == 3 {
        '3'
    } else if d == 4 {
        '4'
    } else if d == 5 {
        '5'
    } else if d == 6 {
        '6'
    } else if d == 7 {
        '7'
    } else if d == 8 {
        '8'
    } else {
        '9'
    }
}

/// Appends the decimal numeral of `n` to `out`.
pub fn push_decimal(out: &mut String, n: u64)
    ensures
        final(out)@ == old(out)@ + decimal(n as nat),
    decreases n,
{
    if n >= 10 {
        push_decimal(out, n / 10);
    }
    let d: u8 = (n % 10) as u8;
    out.push(digit_to_char(d));
}

/// Appends the numeral of `n`, zero-padded to two digits, to `out`.
pub fn push_two_digits(out: &mut String, n: u64)
    ensures
        final(out)@ == old(out)@ + two_digits(n as nat),
{
    if n < 10 {
        out.push('0');
    }
    push_decimal(out, n);
}

/// Every numeral has at least one character, and `two_digits` at least two.
pub proof fn lemma_numeral_len(n: nat)
    ensures
        decimal(n).len() >= 1,
        n >= 10 ==> decimal(n).len() >= 2,
        two_digits(n).len() >= 2,
        n < 100 ==> two_digits(n).len() == 2,
    decreases n,
{
    if n >= 10 {
        lemma_numeral_len(n / 10);
    }
}

} // verus!
