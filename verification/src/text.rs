//! Decimal text: the digits of a number, padded with zeros or not, and the
//! fixed patterns in which dates and times are stored.

use vstd::prelude::*;
use vstd::string::*;
use crate::calendar::Civil;

verus! {

/// The character of one decimal digit; `'0'` where `d` is no digit.
pub open spec fn digit_char(d: int) -> char {
    if d == 1 {
        '1'
    } else if d == 2 {
        '2'
    } else if d == 3 {
        '3'
    } else if d == 4 {
        '4'
    } else if d == 5 {
        '5'
    } else if d == 6 {
        '6'
    } else if d == 7 {
        '7'
    } else if d == 8 {
        '8'
    } else if d == 9 {
        '9'
    } else {
        '0'
    }
}

/// The decimal digits of `n`, with zeros in front until there are `width` of
/// them; more than `width` digits where `n` needs more.
pub open spec fn padded_digits(n: nat, width: int) -> Seq<char>
    decreases n, width,
{
    if n < 10 && width <= 1 {
        seq![digit_char(n as int)]
    } else {
        padded_digits(n / 10, width - 1).push(digit_char((n % 10) as int))
    }
}

/// The decimal text of an integer: a minus sign where it is negative, then its
/// digits without padding.
pub open spec fn decimal_text(n: int) -> Seq<char> {
    if n < 0 {
        seq!['-'] + padded_digits((-n) as nat, 1)
    } else {
        padded_digits(n as nat, 1)
    }
}

/// Two decimal digits, the first a zero where `n` is below ten.
pub open spec fn two_digits(n: int) -> Seq<char> {
    seq![digit_char(n / 10), digit_char(n % 10)]
}

/// A year as it is stored: four digits, padded with zeros, for the years 0 to
/// 9999; outside them a sign, then at least four digits.
pub open spec fn year_text(year: int) -> Seq<char> {
    if 0 <= year <= 9999 {
        padded_digits(year as nat, 4)
    } else if year < 0 {
        seq!['-'] + padded_digits((-year) as nat, 4)
    } else {
        seq!['+'] + padded_digits(year as nat, 4)
    }
}

/// A date as it is stored: year, month and day with `-` between them.
pub open spec fn date_text(year: int, month: int, day: int) -> Seq<char> {
    year_text(year) + seq!['-'] + two_digits(month) + seq!['-'] + two_digits(day)
}

/// A time of day as it is stored: hour, minute and second with `:` between
/// them.
pub open spec fn time_text(hour: int, minute: int, second: int) -> Seq<char> {
    two_digits(hour) + seq![':'] + two_digits(minute) + seq![':'] + two_digits(second)
}

/// A date and time as it is stored: the date, a space, the time of day.
pub open spec fn datetime_text(c: Civil) -> Seq<char> {
    date_text(c.year, c.month, c.day) + seq![' '] + time_text(c.hour, c.minute, c.second)
}

/// The text of one decimal digit.
pub(crate) fn digit_str(d: u8) -> (s: &'static str)
    requires
        d < 10,
    ensures
        s@ == seq![digit_char(d as int)],
{
    proof {
        reveal_strlit("0");
        reveal_strlit("1");
        reveal_strlit("2");
        reveal_strlit("3");
        reveal_strlit("4");
        reveal_strlit("5");
        reveal_strlit("6");
        reveal_strlit("7");
        reveal_strlit("8");
        reveal_strlit("9");
    }
    let s = match d {
        0 => "0",
        1 => "1",
        2 => "2",
        3 => "3",
        4 => "4",
        5 => "5",
        6 => "6",
        7 => "7",
        8 => "8",
        _ => "9",
    };
    assert(s@ =~= seq![digit_char(d as int)]);
    s
}

/// Appends the decimal digits of `n` to `out`.
pub(crate) fn push_digits(out: &mut String, n: u64)
    ensures
        final(out)@ == old(out)@ + padded_digits(n as nat, 1),
    decreases n,
{
    if n >= 10 {
        push_digits(out, n / 10);
    }
    let d: u8 = (n % 10) as u8;
    out.append(digit_str(d));
    proof {
        if n >= 10 {
            assert(padded_digits(n as nat, 1) == padded_digits((n / 10) as nat, 0).push(
                digit_char((n % 10) as int),
            ));
            lemma_width_below_one((n / 10) as nat, 0);
            assert(final(out)@ =~= old(out)@ + padded_digits(n as nat, 1));
        } else {
            assert(final(out)@ =~= old(out)@ + padded_digits(n as nat, 1));
        }
    }
}

/// A width of one or less pads nothing.
pub proof fn lemma_width_below_one(n: nat, width: int)
    requires
        width <= 1,
    ensures
        padded_digits(n, width) == padded_digits(n, 1),
    decreases n,
{
    if n >= 10 {
        lemma_width_below_one(n / 10, width - 1);
        lemma_width_below_one(n / 10, 0);
    }
}

/// The decimal text of `n`.
pub fn decimal_string(n: i32) -> (text: String)
    ensures
        text@ == decimal_text(n as int),
{
    let wide: i64 = n as i64;
    if wide < 0 {
        proof {
            reveal_strlit("-");
        }
        let mut text = String::from_str("-");
        push_digits(&mut text, (-wide) as u64);
        assert(text@ =~= decimal_text(n as int));
        text
    } else {
        let mut text = String::new();
        push_digits(&mut text, wide as u64);
        assert(text@ =~= decimal_text(n as int));
        text
    }
}

} // verus!
