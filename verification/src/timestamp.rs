//! Calendar instants in UTC, to the second.

use vstd::prelude::*;
use crate::text::{all_digits, decimal, digit_value, fixed_number, is_digit};

verus! {

/// Leap years of the proleptic Gregorian calendar.
pub open spec fn is_leap_year(year: int) -> bool {
    year % 4 == 0 && (year % 100 != 0 || year % 400 == 0)
}

/// The number of days of a month, for `month` from 1 to 12.
pub open spec fn days_in_month(year: int, month: int) -> int {
    if month == 2 {
        if is_leap_year(year) {
            29
        } else {
            28
        }
    } else if month == 4 || month == 6 || month == 9 || month == 11 {
        30
    } else {
        31
    }
}

/// A day that the calendar has.
pub open spec fn is_calendar_date(year: int, month: int, day: int) -> bool {
    1 <= month <= 12 && 1 <= day <= days_in_month(year, month)
}

/// A second of the day, leap seconds left out.
pub open spec fn is_clock_time(hour: int, minute: int, second: int) -> bool {
    0 <= hour < 24 && 0 <= minute < 60 && 0 <= second < 60
}

/// A calendar instant in UTC.
#[derive(Debug, Clone, Copy, PartialEq, Eq, Structural)]
pub struct Timestamp {
    pub year: i32,
    pub month: u32,
    pub day: u32,
    pub hour: u32,
    pub minute: u32,
    pub second: u32,
}

/// The instant with the given fields, where the calendar has it and the
/// year has at most four digits.
pub open spec fn instant(
    year: int,
    month: int,
    day: int,
    hour: int,
    minute: int,
    second: int,
) -> Option<Timestamp> {
    if 0 <= year <= 9999 && is_calendar_date(year, month, day) && is_clock_time(
        hour,
        minute,
        second,
    ) {
        Some(
            Timestamp {
                year: year as i32,
                month: month as u32,
                day: day as u32,
                hour: hour as u32,
                minute: minute as u32,
                second: second as u32,
            },
        )
    } else {
        None
    }
}

/// An instant that the calendar has is well formed.
pub proof fn lemma_instant_is_well_formed(
    year: int,
    month: int,
    day: int,
    hour: int,
    minute: int,
    second: int,
)
    ensures
        instant(year, month, day, hour, minute, second) matches Some(t) ==> t.wf(),
{
}

/// Believed of `chrono::NaiveDate::from_ymd_opt`: for a year of at most four
/// digits it returns a date exactly when the month is one of the twelve and
/// the day is one that the month has in that year.
#[verifier::external_body]
fn date_exists(year: i32, month: u32, day: u32) -> (r: bool)
    requires
        0 <= year <= 9999,
    ensures
        r == is_calendar_date(year as int, month as int, day as int),
{
    chrono::NaiveDate::from_ymd_opt(year, month, day).is_some()
}

/// Believed of `chrono::NaiveTime::from_hms_opt`: it returns a time exactly
/// when the hour is below 24 and minute and second are below 60.
#[verifier::external_body]
fn time_exists(hour: u32, minute: u32, second: u32) -> (r: bool)
    ensures
        r == is_clock_time(hour as int, minute as int, second as int),
{
    chrono::NaiveTime::from_hms_opt(hour, minute, second).is_some()
}

/// The character that writes a digit.
pub open spec fn digit_char(d: int) -> char {
    if d == 0 {
        '0'
    } else if d == 1 {
        '1'
    } else if d == 2 {
        '2'
    } else if d == 3 {
        '3'
    } else if d == 4 {
        '4'
    } else if d == 5 {
        '5'
    } else if d == 6 {
        '6'
    } else if d == 7 {
        '7'
    } else if d == 8 {
        '8'
    } else {
        '9'
    }
}

/// A number below 100, written with two digits.
pub open spec fn two_digits(n: int) -> Seq<char> {
    seq![digit_char(n / 10), digit_char(n % 10)]
}

/// A number below 10000, written with four digits.
pub open spec fn four_digits(n: int) -> Seq<char> {
    two_digits(n / 100) + two_digits(n % 100)
}

/// An instant written as `YYYY-MM-DDTHH:MM:SSZ`.
pub open spec fn rfc3339(t: Timestamp) -> Seq<char> {
    four_digits(t.year as int) + seq!['-'] + two_digits(t.month as int) + seq!['-'] + two_digits(
        t.day as int,
    ) + seq!['T'] + two_digits(t.hour as int) + seq![':'] + two_digits(t.minute as int) + seq![
        ':',
    ] + two_digits(t.second as int) + seq!['Z']
}

/// A digit is the character that writes its value.
pub proof fn lemma_digit_char(c: char)
    requires
        is_digit(c),
    ensures
        digit_char(digit_value(c) as int) == c,
        digit_value(c) < 10,
{
}

/// Two digits are the two digits of the number that they write.
pub proof fn lemma_two_digits(s: Seq<char>, at: int)
    requires
        fixed_number(s, at, 2) is Some,
    ensures
        s.subrange(at, at + 2) == two_digits(fixed_number(s, at, 2)->0 as int),
        fixed_number(s, at, 2)->0 < 100,
{
    let d = s.subrange(at, at + 2);
    assert(is_digit(d[0]) && is_digit(d[1]));
    lemma_digit_char(d[0]);
    lemma_digit_char(d[1]);
    assert(d.drop_last() =~= seq![d[0]]);
    assert(seq![d[0]].drop_last() =~= Seq::<char>::empty());
    reveal_with_fuel(decimal, 3);
    assert(decimal(d) == digit_value(d[0]) * 10 + digit_value(d[1]));
    assert(d =~= two_digits(decimal(d) as int));
}

/// Four digits are the four digits of the number that they write.
pub proof fn lemma_four_digits(s: Seq<char>, at: int)
    requires
        fixed_number(s, at, 4) is Some,
    ensures
        s.subrange(at, at + 4) == four_digits(fixed_number(s, at, 4)->0 as int),
        fixed_number(s, at, 4)->0 < 10000,
{
    let d = s.subrange(at, at + 4);
    assert(is_digit(d[0]) && is_digit(d[1]) && is_digit(d[2]) && is_digit(d[3]));
    lemma_digit_char(d[0]);
    lemma_digit_char(d[1]);
    lemma_digit_char(d[2]);
    lemma_digit_char(d[3]);
    let d3 = d.drop_last();
    let d2 = d3.drop_last();
    let d1 = d2.drop_last();
    assert(d1.drop_last() =~= Seq::<char>::empty());
    assert(d1 =~= seq![d[0]]);
    reveal_with_fuel(decimal, 5);
    assert(decimal(d1) == digit_value(d[0]));
    assert(decimal(d2) == decimal(d1) * 10 + digit_value(d[1]));
    assert(decimal(d3) == decimal(d2) * 10 + digit_value(d[2]));
    assert(decimal(d) == decimal(d3) * 10 + digit_value(d[3]));
    assert(d =~= four_digits(decimal(d) as int));
}

/// The text of one digit.
fn digit_str(d: u32) -> (r: &'static str)
    requires
        d < 10,
    ensures
        r@ == seq![digit_char(d as int)],
{
    let r = match d {
        0 => {
            proof {
                reveal_strlit("0");
            }
            "0"
        },
        1 => {
            proof {
                reveal_strlit("1");
            }
            "1"
        },
        2 => {
            proof {
                reveal_strlit("2");
            }
            "2"
        },
        3 => {
            proof {
                reveal_strlit("3");
            }
            "3"
        },
        4 => {
            proof {
                reveal_strlit("4");
            }
            "4"
        },
        5 => {
            proof {
                reveal_strlit("5");
            }
            "5"
        },
        6 => {
            proof {
                reveal_strlit("6");
            }
            "6"
        },
        7 => {
            proof {
                reveal_strlit("7");
            }
            "7"
        },
        8 => {
            proof {
                reveal_strlit("8");
            }
            "8"
        },
        _ => {
            proof {
                reveal_strlit("9");
            }
            "9"
        },
    };
    assert(r@ =~= seq![digit_char(d as int)]);
    r
}

/// Appends a number below 100 to `out`, with two digits.
fn push_two_digits(out: &mut String, n: u32)
    requires
        n < 100,
    ensures
        final(out)@ == old(out)@ + two_digits(n as int),
{
    out.append(digit_str(n / 10));
    out.append(digit_str(n % 10));
    assert(final(out)@ =~= old(out)@ + two_digits(n as int));
}

/// Appends one of the marks between the fields of an instant.
fn push_mark(out: &mut String, mark: char)
    requires
        mark == '-' || mark == 'T' || mark == ':' || mark == 'Z',
    ensures
        final(out)@ == old(out)@ + seq![mark],
{
    proof {
        reveal_strlit("-");
        reveal_strlit("T");
        reveal_strlit(":");
        reveal_strlit("Z");
    }
    let text = if mark == '-' {
        "-"
    } else if mark == 'T' {
        "T"
    } else if mark == ':' {
        ":"
    } else {
        "Z"
    };
    assert(text@ =~= seq![mark]);
    out.append(text);
}

impl Timestamp {
    /// The fields name an instant that exists.
    pub open spec fn wf(&self) -> bool {
        instant(
            self.year as int,
            self.month as int,
            self.day as int,
            self.hour as int,
            self.minute as int,
            self.second as int,
        ) == Some(*self)
    }

    /// The instant with the given fields, or `None` where there is none.
    pub fn new(year: i32, month: u32, day: u32, hour: u32, minute: u32, second: u32) -> (r: Option<
        Timestamp,
    >)
        ensures
            r == instant(
                year as int,
                month as int,
                day as int,
                hour as int,
                minute as int,
                second as int,
            ),
            r matches Some(t) ==> t.wf(),
    {
        if year < 0 || year > 9999 {
            return None;
        }
        if date_exists(year, month, day) && time_exists(hour, minute, second) {
            Some(Timestamp { year, month, day, hour, minute, second })
        } else {
            None
        }
    }

    /// Whether the fields name an instant that exists.
    pub fn is_valid(&self) -> (r: bool)
        ensures
            r == self.wf(),
    {
        0 <= self.year && self.year <= 9999 && date_exists(self.year, self.month, self.day)
            && time_exists(self.hour, self.minute, self.second)
    }

    /// Appends this instant, written as `YYYY-MM-DDTHH:MM:SSZ`, to `out`.
    pub fn push_rfc3339(&self, out: &mut String)
        requires
            self.wf(),
        ensures
            final(out)@ == old(out)@ + rfc3339(*self),
    {
        let ghost start = out@;
        let year = self.year as u32;
        push_two_digits(out, year / 100);
        push_two_digits(out, year % 100);
        push_mark(out, '-');
        push_two_digits(out, self.month);
        push_mark(out, '-');
        push_two_digits(out, self.day);
        push_mark(out, 'T');
        push_two_digits(out, self.hour);
        push_mark(out, ':');
        push_two_digits(out, self.minute);
        push_mark(out, ':');
        push_two_digits(out, self.second);
        push_mark(out, 'Z');
        assert(out@ =~= start + rfc3339(*self));
    }

    /// This instant written as `YYYY-MM-DDTHH:MM:SSZ`; `None` where the
    /// fields name no instant.
    pub fn to_rfc3339(&self) -> (r: Option<String>)
        ensures
            crate::text::text_of(r) == if self.wf() {
                Some(rfc3339(*self))
            } else {
                None
            },
    {
        if !self.is_valid() {
            return None;
        }
        let mut out = String::new();
        self.push_rfc3339(&mut out);
        assert(out@ =~= rfc3339(*self));
        Some(out)
    }
}

} // verus!
