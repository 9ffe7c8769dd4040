//! Reading back a date and time that was stored as text: the instant that
//! the text stands for, where the text is what storing an instant writes.

use vstd::prelude::*;
use vstd::string::*;
use crate::calendar::{epoch_seconds_of, Civil, CivilDateTime, MAX_YEAR, MIN_YEAR};
use crate::chrono_api::{format_datetime, DATETIME_FORMAT};
use crate::text::{datetime_text, digit_char, padded_digits, two_digits, year_text};

verus! {

/// The digit that a character shows; none where it shows none.
pub open spec fn digit_of(c: char) -> Option<int> {
    if '0' <= c <= '9' {
        Some(c as int - 48)
    } else {
        None
    }
}

/// The number that a text of decimal digits shows; none where the text is
/// empty or holds anything but digits.
pub open spec fn read_digits(s: Seq<char>) -> Option<int>
    decreases s.len(),
{
    if s.len() == 0 {
        None
    } else if s.len() == 1 {
        digit_of(s[0])
    } else {
        match (read_digits(s.drop_last()), digit_of(s.last())) {
            (Some(front), Some(d)) => Some(front * 10 + d),
            _ => None,
        }
    }
}

/// The year that a text shows: digits, after a sign or without one.
pub open spec fn read_year(s: Seq<char>) -> Option<int> {
    if s.len() == 0 {
        None
    } else if s[0] == '-' {
        match read_digits(s.skip(1)) {
            Some(v) => Some(-v),
            None => None,
        }
    } else if s[0] == '+' {
        read_digits(s.skip(1))
    } else {
        read_digits(s)
    }
}

/// The fields that a stored date and time shows, each read at its place
/// counted from the end: the last fifteen characters hold month, day, hour,
/// minute and second in two digits each, and what stands before them is the
/// year. None where the text is too short or too long, or a field is no
/// number.
pub open spec fn read_stored(text: Seq<char>) -> Option<Civil> {
    let n = text.len() as int;
    if 19 <= n <= 22 {
        match (
            read_year(text.subrange(0, n - 15)),
            read_digits(text.subrange(n - 14, n - 12)),
            read_digits(text.subrange(n - 11, n - 9)),
            read_digits(text.subrange(n - 8, n - 6)),
            read_digits(text.subrange(n - 5, n - 3)),
            read_digits(text.subrange(n - 2, n)),
        ) {
            (Some(year), Some(month), Some(day), Some(hour), Some(minute), Some(second)) => Some(
                Civil { year, month, day, hour, minute, second },
            ),
            _ => None,
        }
    } else {
        None
    }
}

/// The instant that a stored text stands for, in seconds from the epoch: that
/// of the fields it shows, where they exist, can be stored, and are stored as
/// exactly this text. None for any other text.
pub open spec fn stored_instant(text: Seq<char>) -> Option<int> {
    match read_stored(text) {
        Some(c) => if c.is_representable() && datetime_text(c) == text {
            Some(c.epoch_seconds())
        } else {
            None
        },
        None => None,
    }
}

/// The number that the bytes from `from` up to `to` show as decimal digits.
fn read_number(text: &str, bytes: &[u8], from: usize, to: usize) -> (value: Option<u32>)
    requires
        is_ascii(text),
        bytes@ == text.spec_bytes(),
        from <= to <= bytes@.len(),
        to - from <= 7,
    ensures
        value is Some <==> read_digits(text@.subrange(from as int, to as int)) is Some,
        value matches Some(v) ==> read_digits(text@.subrange(from as int, to as int)) == Some(
            v as int,
        ),
        value matches Some(v) ==> v < 10000000,
{
    proof {
        is_ascii_spec_bytes(text);
        lemma_pow10(7);
        reveal_with_fuel(pow10, 9);
    }
    if from == to {
        return None;
    }
    let mut value: u32 = 0;
    let mut i: usize = from;
    while i < to
        invariant
            from <= i <= to <= bytes@.len(),
            to - from <= 7,
            from < to,
            is_ascii(text),
            bytes@ == text.spec_bytes(),
            bytes@.len() == text@.len(),
            forall|k: int| 0 <= k < bytes@.len() ==> bytes@[k] == text@[k] as u8,
            i > from ==> read_digits(text@.subrange(from as int, i as int)) == Some(value as int),
            i == from ==> value == 0,
            value < pow10((i - from) as nat),
        decreases to - i,
    {
        let b: u8 = bytes[i];
        let ghost upto = text@.subrange(from as int, i as int);
        let ghost next = text@.subrange(from as int, i + 1);
        proof {
            assert(next.drop_last() =~= upto);
            assert(next.last() == text@[i as int]);
            lemma_pow10((i - from) as nat);
        }
        if b < 48 || b > 57 {
            proof {
                assert(digit_of(text@[i as int]) is None);
                assert(read_digits(next) is None);
                lemma_read_digits_prefix(text@.subrange(from as int, to as int), i + 1 - from);
                assert(text@.subrange(from as int, to as int).take(i + 1 - from) =~= next);
            }
            return None;
        }
        proof {
            assert(digit_of(text@[i as int]) == Some(b as int - 48));
        }
        value = value * 10 + (b - 48) as u32;
        i = i + 1;
    }
    proof {
        lemma_pow10_grows((to - from) as nat, 7);
        reveal_with_fuel(pow10, 9);
    }
    Some(value)
}

/// A greater power of ten is no smaller.
proof fn lemma_pow10_grows(n: nat, m: nat)
    requires
        n <= m,
    ensures
        pow10(n) <= pow10(m),
    decreases m - n,
{
    if n < m {
        lemma_pow10_grows(n + 1, m);
    }
}

/// Ten to the power of `n`.
pub open spec fn pow10(n: nat) -> nat
    decreases n,
{
    if n == 0 {
        1
    } else {
        10 * pow10((n - 1) as nat)
    }
}

/// The powers of ten up to the seventh.
proof fn lemma_pow10(n: nat)
    ensures
        pow10(n + 1) == 10 * pow10(n),
        n <= 7 ==> pow10(n) <= 10000000,
        pow10(n) >= 1,
    decreases n,
{
    reveal_with_fuel(pow10, 9);
    if n > 7 {
        lemma_pow10((n - 1) as nat);
    }
}

/// A text of which a beginning is no number is no number.
proof fn lemma_read_digits_prefix(s: Seq<char>, n: int)
    requires
        1 <= n <= s.len(),
        read_digits(s.take(n)) is None,
    ensures
        read_digits(s) is None,
    decreases s.len() - n,
{
    if n < s.len() {
        assert(s.take(n + 1).drop_last() =~= s.take(n));
        lemma_read_digits_prefix(s, n + 1);
    } else {
        assert(s.take(n) =~= s);
    }
}

/// The padded digits of a number are digits, at least as many as the width
/// and no more than the number or the width needs, and show the number.
pub proof fn lemma_padded_digits(n: nat, width: int, most: nat)
    requires
        n < pow10(most),
        width <= most,
        1 <= most,
    ensures
        width <= padded_digits(n, width).len() <= most,
        1 <= padded_digits(n, width).len(),
        forall|i: int|
            0 <= i < padded_digits(n, width).len() ==> '0' <= #[trigger] padded_digits(
                n,
                width,
            )[i] <= '9',
        read_digits(padded_digits(n, width)) == Some(n as int),
    decreases n, width,
{
    let s = padded_digits(n, width);
    if n < 10 && width <= 1 {
        assert(digit_of(digit_char(n as int)) == Some(n as int));
    } else {
        let front = padded_digits(n / 10, width - 1);
        let last = digit_char((n % 10) as int);
        assert(s == front.push(last));
        assert(digit_of(last) == Some((n % 10) as int));
        if most == 1 {
            lemma_pow10(0);
            assert(pow10(1) == 10);
            assert(n < 10);
            assert(width <= 1);
        } else {
            lemma_pow10((most - 1) as nat);
            assert(n / 10 < pow10((most - 1) as nat));
            lemma_padded_digits(n / 10, width - 1, (most - 1) as nat);
            assert(s.drop_last() =~= front);
            assert(s.last() == last);
            assert forall|i: int| 0 <= i < s.len() implies '0' <= #[trigger] s[i] <= '9' by {
                if i < front.len() {
                    assert(s[i] == front[i]);
                }
            }
        }
    }
}

/// Two digits show the number below a hundred that they were written for.
pub proof fn lemma_two_digits(n: int)
    requires
        0 <= n < 100,
    ensures
        two_digits(n).len() == 2,
        read_digits(two_digits(n)) == Some(n),
        '0' <= two_digits(n)[0] <= '9',
        '0' <= two_digits(n)[1] <= '9',
{
    let s = two_digits(n);
    assert(s.drop_last() =~= seq![digit_char(n / 10)]);
    assert(digit_of(digit_char(n / 10)) == Some(n / 10));
    assert(digit_of(digit_char(n % 10)) == Some(n % 10));
    reveal_with_fuel(read_digits, 3);
}

/// The text of a year that can be stored has four to seven characters, all
/// of them digits but for a sign in front, and shows the year.
pub proof fn lemma_year_text(year: int)
    requires
        MIN_YEAR <= year <= MAX_YEAR,
    ensures
        4 <= year_text(year).len() <= 7,
        read_year(year_text(year)) == Some(year),
        forall|i: int|
            0 <= i < year_text(year).len() ==> '\0' <= #[trigger] year_text(year)[i] <= '\u{7f}',
{
    reveal_with_fuel(pow10, 8);
    let s = year_text(year);
    if 0 <= year <= 9999 {
        lemma_padded_digits(year as nat, 4, 4);
        assert(s == padded_digits(year as nat, 4));
        assert('0' <= s[0] <= '9');
    } else if year < 0 {
        let digits = padded_digits((-year) as nat, 4);
        lemma_padded_digits((-year) as nat, 4, 6);
        assert(s == seq!['-'] + digits);
        assert(s.skip(1) =~= digits);
        assert forall|i: int| 0 <= i < s.len() implies '\0' <= #[trigger] s[i] <= '\u{7f}' by {
            if i > 0 {
                assert(s[i] == digits[i - 1]);
            }
        }
    } else {
        let digits = padded_digits(year as nat, 4);
        lemma_padded_digits(year as nat, 4, 6);
        assert(s == seq!['+'] + digits);
        assert(s.skip(1) =~= digits);
        assert forall|i: int| 0 <= i < s.len() implies '\0' <= #[trigger] s[i] <= '\u{7f}' by {
            if i > 0 {
                assert(s[i] == digits[i - 1]);
            }
        }
    }
}

/// The stored text of a date and time that exists and can be stored is made
/// of characters of ASCII, and shows the fields that it was written for.
pub proof fn lemma_read_back(c: Civil)
    requires
        c.is_representable(),
    ensures
        vstd::utf8::is_ascii_chars(datetime_text(c)),
        read_stored(datetime_text(c)) == Some(c),
        stored_instant(datetime_text(c)) == Some(c.epoch_seconds()),
{
    let text = datetime_text(c);
    let year = year_text(c.year);
    let n = text.len() as int;
    lemma_year_text(c.year);
    lemma_two_digits(c.month);
    lemma_two_digits(c.day);
    lemma_two_digits(c.hour);
    lemma_two_digits(c.minute);
    lemma_two_digits(c.second);
    assert(n == year.len() + 15);
    assert(text.subrange(0, n - 15) =~= year);
    assert(text.subrange(n - 14, n - 12) =~= two_digits(c.month));
    assert(text.subrange(n - 11, n - 9) =~= two_digits(c.day));
    assert(text.subrange(n - 8, n - 6) =~= two_digits(c.hour));
    assert(text.subrange(n - 5, n - 3) =~= two_digits(c.minute));
    assert(text.subrange(n - 2, n) =~= two_digits(c.second));
    assert forall|i: int| 0 <= i < text.len() implies '\0' <= #[trigger] text[i] <= '\u{7f}' by {
        if i < n - 15 {
            assert(text[i] == year[i]);
        } else if i == n - 15 || i == n - 12 {
            assert(text[i] == '-');
        } else if i == n - 9 {
            assert(text[i] == ' ');
        } else if i == n - 6 || i == n - 3 {
            assert(text[i] == ':');
        } else if i < n - 12 {
            assert(text[i] == two_digits(c.month)[i - (n - 14)]);
        } else if i < n - 9 {
            assert(text[i] == two_digits(c.day)[i - (n - 11)]);
        } else if i < n - 6 {
            assert(text[i] == two_digits(c.hour)[i - (n - 8)]);
        } else if i < n - 3 {
            assert(text[i] == two_digits(c.minute)[i - (n - 5)]);
        } else {
            assert(text[i] == two_digits(c.second)[i - (n - 2)]);
        }
    }
}

/// Reads a stored date and time back: the instant in seconds from the epoch
/// where the text is what storing an instant writes, nothing for any other
/// text.
pub fn parse_stored_timestamp(text: &str) -> (ticks: Option<i64>)
    ensures
        ticks is Some <==> stored_instant(text@) is Some,
        ticks matches Some(t) ==> stored_instant(text@) == Some(t as int),
{
    if !text.is_ascii() {
        proof {
            if stored_instant(text@) is Some {
                lemma_read_back(read_stored(text@)->Some_0);
            }
        }
        return None;
    }
    let bytes = text.as_bytes();
    let n = bytes.len();
    proof {
        is_ascii_spec_bytes(text);
    }
    if n < 19 || n > 22 {
        return None;
    }
    let ghost year_part = text@.subrange(0, n - 15);
    let first: u8 = bytes[0];
    let negative = first == 45;
    let number = if first == 45 || first == 43 {
        proof {
            assert(year_part.skip(1) =~= text@.subrange(1, n - 15));
        }
        read_number(text, bytes, 1, n - 15)
    } else {
        read_number(text, bytes, 0, n - 15)
    };
    let month = read_number(text, bytes, n - 14, n - 12);
    let day = read_number(text, bytes, n - 11, n - 9);
    let hour = read_number(text, bytes, n - 8, n - 6);
    let minute = read_number(text, bytes, n - 5, n - 3);
    let second = read_number(text, bytes, n - 2, n);
    match (number, month, day, hour, minute, second) {
        (Some(number), Some(month), Some(day), Some(hour), Some(minute), Some(second)) => {
            let year: i32 = if negative {
                -(number as i32)
            } else {
                number as i32
            };
            let c = CivilDateTime { year, month, day, hour, minute, second };
            proof {
                assert(year_part[0] == text@[0]);
                assert(first == text@[0] as u8);
                assert(read_year(year_part) == Some(year as int));
                assert(read_stored(text@) == Some(c@));
            }
            match format_datetime(c, DATETIME_FORMAT) {
                Some(written) => {
                    if written == String::from_str(text) {
                        Some(epoch_seconds_of(c))
                    } else {
                        None
                    }
                },
                None => None,
            }
        },
        _ => None,
    }
}

} // verus!
