//! Calendar dates and the text they put in front of a file name.

use vstd::prelude::*;
use vstd::string::StringExecFns;

verus! {

pub type Year = u16;

pub type Month = u8;

pub type Day = u8;

/// Whether the triple is a calendar date: a month from 1 to 12 and a day
/// from 1 to 31. The year is free.
pub open spec fn is_calendar_date(date: (Year, Month, Day)) -> bool {
    1 <= date.1 <= 12 && 1 <= date.2 <= 31
}

/// The character that writes the digit `d`.
pub open spec fn digit(d: nat) -> char {
    if d == 0 {
        '0'
    } else if d == 1 {
        '1'
    } else if d == 2 {
        '2'
    } else if d == 3 {
        '3'
    } else if d == 4 {
        '4'
    } else if d == 5 {
        '5'
    } else if d == 6 {
        '6'
    } else if d == 7 {
        '7'
    } else if d == 8 {
        '8'
    } else {
        '9'
    }
}

/// `n` in decimal, without leading zeros.
pub open spec fn decimal(n: nat) -> Seq<char>
    decreases n,
{
    if n < 10 {
        seq![digit(n)]
    } else {
        decimal(n / 10).push(digit(n % 10))
    }
}

/// `n` in decimal, with a leading zero where it has one digit only.
pub open spec fn two_digits(n: nat) -> Seq<char> {
    if n < 10 {
        seq!['0', digit(n)]
    } else {
        decimal(n)
    }
}

/// What a date puts in front of a file name: the year, the month and the
/// day, each followed by `_`, the month and the day with two digits at
/// least.
pub open spec fn stamp(date: (Year, Month, Day)) -> Seq<char> {
    decimal(date.0 as nat) + seq!['_'] + two_digits(date.1 as nat) + seq!['_'] + two_digits(
        date.2 as nat,
    ) + seq!['_']
}

/// Whether the character is a decimal digit.
pub open spec fn is_digit_char(c: char) -> bool {
    c == '0' || c == '1' || c == '2' || c == '3' || c == '4' || c == '5' || c == '6' || c == '7'
        || c == '8' || c == '9'
}

/// Whether the character is one that a date is written with: a digit or
/// `_`.
pub open spec fn is_stamp_char(c: char) -> bool {
    c == '_' || is_digit_char(c)
}

/// A number is written with one digit at least, and with digits only.
pub proof fn lemma_decimal_is_digits(n: nat)
    ensures
        decimal(n).len() >= 1,
        forall|i: int| 0 <= i < decimal(n).len() ==> is_digit_char(#[trigger] decimal(n)[i]),
    decreases n,
{
    if n >= 10 {
        lemma_decimal_is_digits(n / 10);
    }
}

/// A date is written with digits and `_` only, and starts with a digit.
pub proof fn lemma_stamp_is_digits_and_underscores(date: (Year, Month, Day))
    ensures
        stamp(date).len() >= 6,
        is_digit_char(stamp(date)[0]),
        forall|i: int| 0 <= i < stamp(date).len() ==> is_stamp_char(#[trigger] stamp(date)[i]),
{
    lemma_decimal_is_digits(date.0 as nat);
    lemma_decimal_is_digits(date.1 as nat);
    lemma_decimal_is_digits(date.2 as nat);
}

/// The digit `d` as text.
fn digit_text(d: u16) -> (text: &'static str)
    requires
        d < 10,
    ensures
        text@ == seq![digit(d as nat)],
{
    proof {
        reveal_strlit("0");
        reveal_strlit("1");
        reveal_strlit("2");
        reveal_strlit("3");
        reveal_strlit("4");
        reveal_strlit("5");
        reveal_strlit("6");
        reveal_strlit("7");
        reveal_strlit("8");
        reveal_strlit("9");
    }
    if d == 0 {
        "0"
    } else if d == 1 {
        "1"
    } else if d == 2 {
        "2"
    } else if d == 3 {
        "3"
    } else if d == 4 {
        "4"
    } else if d == 5 {
        "5"
    } else if d == 6 {
        "6"
    } else if d == 7 {
        "7"
    } else if d == 8 {
        "8"
    } else {
        "9"
    }
}

/// Writes `n` in decimal at the end of `out`.
fn push_decimal(out: &mut String, n: u16)
    ensures
        final(out)@ == old(out)@ + decimal(n as nat),
    decreases n,
{
    if n >= 10 {
        push_decimal(out, n / 10);
    }
    out.append(digit_text(n % 10));
}

/// Writes `n` at the end of `out`, with two digits at least.
fn push_two_digits(out: &mut String, n: u8)
    ensures
        final(out)@ == old(out)@ + two_digits(n as nat),
{
    if n < 10 {
        proof {
            reveal_strlit("0");
        }
        out.append("0");
    }
    push_decimal(out, n as u16);
}

/// The text that `date` puts in front of a file name, such as `2012_06_13_`.
/// Any triple is written as it is: a month of 0 comes out as `00`, a year of
/// 12 as `12`.
pub fn prefix(date: (Year, Month, Day)) -> (text: String)
    ensures
        text@ == stamp(date),
{
    proof {
        reveal_strlit("_");
    }
    let mut text = String::new();
    push_decimal(&mut text, date.0);
    text.append("_");
    push_two_digits(&mut text, date.1);
    text.append("_");
    push_two_digits(&mut text, date.2);
    text.append("_");
    text
}

} // verus!
