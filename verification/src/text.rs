//! Text for log lines: bytes in hexadecimal, numbers in decimal, and times
//! as calendar dates.

use vstd::prelude::*;
use vstd::string::StringExecFns;

verus! {

/// The character of a digit below sixteen: `0` to `9`, then `a` to `f`.
pub open spec fn digit_char(n: int) -> char {
    if n == 0 {
        '0'
    } else if n == 1 {
        '1'
    } else if n == 2 {
        '2'
    } else if n == 3 {
        '3'
    } else if n == 4 {
        '4'
    } else if n == 5 {
        '5'
    } else if n == 6 {
        '6'
    } else if n == 7 {
        '7'
    } else if n == 8 {
        '8'
    } else if n == 9 {
        '9'
    } else if n == 10 {
        'a'
    } else if n == 11 {
        'b'
    } else if n == 12 {
        'c'
    } else if n == 13 {
        'd'
    } else if n == 14 {
        'e'
    } else {
        'f'
    }
}

/// Two hexadecimal digits for each byte, the high one first, in lower case.
pub open spec fn hex_text(bytes: Seq<u8>) -> Seq<char> {
    Seq::new(
        2 * bytes.len(),
        |i: int|
            if i % 2 == 0 {
                digit_char(bytes[i / 2] as int / 16)
            } else {
                digit_char(bytes[i / 2] as int % 16)
            },
    )
}

/// The decimal digits of a natural number, without leading zeros.
pub open spec fn decimal_digits(n: nat) -> Seq<char>
    decreases n,
{
    if n < 10 {
        seq![digit_char(n as int)]
    } else {
        decimal_digits(n / 10) + seq![digit_char((n % 10) as int)]
    }
}

/// The decimal text of an integer, with a minus sign if it is negative.
pub open spec fn decimal_text(n: int) -> Seq<char> {
    if n < 0 {
        seq!['-'] + decimal_digits((-n) as nat)
    } else {
        decimal_digits(n as nat)
    }
}

/// The text of one digit below sixteen.
pub fn digit_str(n: u8) -> (text: &'static str)
    requires
        n < 16,
    ensures
        text@ == seq![digit_char(n as int)],
{
    proof {
        reveal_strlit("0");
        reveal_strlit("1");
        reveal_strlit("2");
        reveal_strlit("3");
        reveal_strlit("4");
        reveal_strlit("5");
        reveal_strlit("6");
        reveal_strlit("7");
        reveal_strlit("8");
        reveal_strlit("9");
        reveal_strlit("a");
        reveal_strlit("b");
        reveal_strlit("c");
        reveal_strlit("d");
        reveal_strlit("e");
        reveal_strlit("f");
    }
    let text = if n == 0 {
        "0"
    } else if n == 1 {
        "1"
    } else if n == 2 {
        "2"
    } else if n == 3 {
        "3"
    } else if n == 4 {
        "4"
    } else if n == 5 {
        "5"
    } else if n == 6 {
        "6"
    } else if n == 7 {
        "7"
    } else if n == 8 {
        "8"
    } else if n == 9 {
        "9"
    } else if n == 10 {
        "a"
    } else if n == 11 {
        "b"
    } else if n == 12 {
        "c"
    } else if n == 13 {
        "d"
    } else if n == 14 {
        "e"
    } else {
        "f"
    };
    assert(text@ =~= seq![digit_char(n as int)]);
    text
}

/// Writes bytes in hexadecimal: two lower-case digits for each byte.
pub fn bytes_to_hex_string(bytes: &[u8]) -> (text: String)
    ensures
        text@ == hex_text(bytes@),
{
    let mut text = String::new();
    let mut i: usize = 0;
    while i < bytes.len()
        invariant
            i <= bytes.len(),
            text@ == hex_text(bytes@).subrange(0, 2 * i),
        decreases bytes.len() - i,
    {
        let byte: u8 = bytes[i];
        text.append(digit_str(byte / 16));
        text.append(digit_str(byte % 16));
        assert(text@ =~= hex_text(bytes@).subrange(0, 2 * (i + 1)));
        i += 1;
    }
    assert(text@ =~= hex_text(bytes@));
    text
}

/// The digits in `low`, which holds them least significant first, as text
/// with the most significant first.
pub open spec fn reversed_digits(low: Seq<u8>) -> Seq<char> {
    Seq::new(low.len(), |i: int| digit_char(low[low.len() - 1 - i] as int))
}

/// Writes an integer in decimal.
pub fn decimal_string(n: i64) -> (text: String)
    ensures
        text@ == decimal_text(n as int),
{
    let mut text = String::new();
    let magnitude: u64 = if n < 0 {
        proof {
            reveal_strlit("-");
        }
        text.append("-");
        assert(text@ =~= seq!['-']);
        (-(n as i128)) as u64
    } else {
        n as u64
    };
    let ghost sign = text@;
    let mut rest: u64 = magnitude;
    let mut low: Vec<u8> = Vec::new();
    assert(decimal_digits(rest as nat) + reversed_digits(low@) =~= decimal_digits(
        magnitude as nat,
    ));
    while rest >= 10
        invariant
            decimal_digits(magnitude as nat) == decimal_digits(rest as nat) + reversed_digits(low@),
            forall|j: int| 0 <= j < low@.len() ==> low@[j] < 10,
        decreases rest,
    {
        let ghost before = low@;
        low.push((rest % 10) as u8);
        proof {
            assert(reversed_digits(low@) =~= seq![digit_char((rest % 10) as int)]
                + reversed_digits(before));
            assert(decimal_digits(rest as nat) == decimal_digits((rest / 10) as nat) + seq![
                digit_char((rest % 10) as int),
            ]);
            assert(decimal_digits((rest / 10) as nat) + (seq![digit_char((rest % 10) as int)]
                + reversed_digits(before)) =~= decimal_digits(rest as nat) + reversed_digits(
                before,
            ));
        }
        rest = rest / 10;
    }
    text.append(digit_str(rest as u8));
    let ghost head = text@;
    assert(head =~= sign + decimal_digits(rest as nat));
    let mut k: usize = low.len();
    while k > 0
        invariant
            k <= low.len(),
            forall|j: int| 0 <= j < low@.len() ==> low@[j] < 10,
            text@ == head + reversed_digits(low@).subrange(0, low@.len() - k),
        decreases k,
    {
        k -= 1;
        text.append(digit_str(low[k]));
        assert(text@ =~= head + reversed_digits(low@).subrange(0, low@.len() - k));
    }
    assert(reversed_digits(low@).subrange(0, low@.len() as int) =~= reversed_digits(low@));
    assert(text@ =~= sign + (decimal_digits(rest as nat) + reversed_digits(low@)));
    text
}

/// The calendar text of the second `timestamp` of the UTC clock, in the form
/// year-month-day hour:minute:second; nothing for a second out of the
/// calendar's range.
pub uninterp spec fn utc_calendar_text(timestamp: i64) -> Option<Seq<char>>;

/// Calls `chrono::TimeZone::timestamp_opt` on `chrono::Utc` with no
/// nanoseconds and, where that gives a single moment, writes it with
/// `chrono::DateTime::format` in the pattern `%Y-%m-%d %H:%M:%S`. Both depend
/// on the timestamp alone, so the result is named rather than written out.
#[verifier::external_body]
pub(crate) fn utc_calendar_string(timestamp: i64) -> (r: Option<String>)
    ensures
        match r {
            Some(text) => utc_calendar_text(timestamp) == Some(text@),
            None => utc_calendar_text(timestamp) is None,
        },
{
    match chrono::TimeZone::timestamp_opt(&chrono::Utc, timestamp, 0) {
        chrono::LocalResult::Single(moment) => Some(
            moment.format("%Y-%m-%d %H:%M:%S").to_string(),
        ),
        _ => None,
    }
}

/// The text of a time whose calendar text is `calendar`: that text followed
/// by ` UTC`, or, where there is none, the number followed by ` (invalid timestamp)`.
pub open spec fn timestamp_text(timestamp: i64, calendar: Option<Seq<char>>) -> Seq<char> {
    match calendar {
        Some(text) => text + " UTC"@,
        None => decimal_text(timestamp as int) + " (invalid timestamp)"@,
    }
}

/// Writes a time, given its calendar text if it has one.
pub fn timestamp_string(timestamp: i64, calendar: Option<String>) -> (text: String)
    ensures
        text@ == timestamp_text(
            timestamp,
            match calendar {
                Some(c) => Some(c@),
                None => None,
            },
        ),
{
    match calendar {
        Some(text) => text.concat(" UTC"),
        None => decimal_string(timestamp).concat(" (invalid timestamp)"),
    }
}

/// Writes a time of the ledger's clock as a calendar date in UTC.
pub fn format_timestamp(timestamp: i64) -> (text: String)
    ensures
        text@ == timestamp_text(timestamp, utc_calendar_text(timestamp)),
{
    timestamp_string(timestamp, utc_calendar_string(timestamp))
}

} // verus!
