//! The provider's timestamps: UTC date and time written as
//! `YYYY-MM-DDTHH:MM:SSZ`, with or without a fraction of the second, read
//! as whole seconds since the Unix epoch.

use crate::text::chars_of;
use vstd::prelude::*;

verus! {

/// The number of characters of a timestamp without a fraction.
pub const TIMESTAMP_LENGTH: usize = 20;

/// The first year that a timestamp can name.
pub const EPOCH_YEAR: u64 = 1970;

pub open spec fn is_leap_year(year: int) -> bool {
    year % 4 == 0 && (year % 100 != 0 || year % 400 == 0)
}

pub open spec fn days_in_year(year: int) -> int {
    if is_leap_year(year) {
        366
    } else {
        365
    }
}

pub open spec fn days_in_month(year: int, month: int) -> int {
    if month == 2 {
        if is_leap_year(year) {
            29
        } else {
            28
        }
    } else if month == 4 || month == 6 || month == 9 || month == 11 {
        30
    } else {
        31
    }
}

/// The days from 1 January 1970 to 1 January of `year`.
pub open spec fn days_before_year(year: int) -> int
    decreases year,
{
    if year <= 1970 {
        0
    } else {
        days_before_year(year - 1) + days_in_year(year - 1)
    }
}

/// The days from 1 January of `year` to the first of `month` of that year.
pub open spec fn days_before_month(year: int, month: int) -> int
    decreases month,
{
    if month <= 1 {
        0
    } else {
        days_before_month(year, month - 1) + days_in_month(year, month - 1)
    }
}

pub open spec fn is_digit(c: char) -> bool {
    '0' <= c && c <= '9'
}

pub open spec fn digit_value(c: char) -> int {
    c as int - '0' as int
}

/// The number written by the `count` decimal digits of `s` that start at
/// position `from`, or `None` where one of them is no digit.
pub open spec fn number_at(s: Seq<char>, from: int, count: int) -> Option<int>
    decreases count,
{
    if count <= 0 {
        Some(0)
    } else if from + count > s.len() || from < 0 {
        None
    } else {
        match number_at(s, from, count - 1) {
            Some(n) => if is_digit(s[from + count - 1]) {
                Some(n * 10 + digit_value(s[from + count - 1]))
            } else {
                None
            },
            None => None,
        }
    }
}

/// The seconds from the epoch to the given moment of a valid date.
pub open spec fn seconds_at(
    year: int,
    month: int,
    day: int,
    hour: int,
    minute: int,
    second: int,
) -> int {
    (days_before_year(year) + days_before_month(year, month) + day - 1) * 86400 + hour * 3600
        + minute * 60 + second
}

/// What may stand between the seconds and the closing `Z`: nothing, or a
/// point followed by one or more digits.
pub open spec fn is_fraction(s: Seq<char>) -> bool {
    s.len() == 0 || (s.len() >= 2 && s[0] == '.' && forall|i: int|
        1 <= i < s.len() ==> is_digit(#[trigger] s[i]))
}

/// The whole seconds since the Unix epoch that `text` names, where `text`
/// is a timestamp of the form `YYYY-MM-DDTHH:MM:SSZ` or
/// `YYYY-MM-DDTHH:MM:SS.fffZ` with a year from 1970 on, a month from 1 to
/// 12, a day that the month has, an hour below 24 and minutes and seconds
/// below 60; the fraction is left out of the result. `None` for any other
/// text.
pub open spec fn epoch_seconds(text: Seq<char>) -> Option<int> {
    if text.len() >= 20 && text[4] == '-' && text[7] == '-' && text[10] == 'T' && text[13] == ':'
        && text[16] == ':' && text.last() == 'Z' && is_fraction(
        text.subrange(19, text.len() - 1),
    ) {
        match (
            number_at(text, 0, 4),
            number_at(text, 5, 2),
            number_at(text, 8, 2),
            number_at(text, 11, 2),
            number_at(text, 14, 2),
            number_at(text, 17, 2),
        ) {
            (Some(year), Some(month), Some(day), Some(hour), Some(minute), Some(second)) => {
                if year >= 1970 && 1 <= month <= 12 && 1 <= day <= days_in_month(year, month)
                    && hour < 24 && minute < 60 && second < 60 {
                    Some(seconds_at(year, month, day, hour, minute, second))
                } else {
                    None
                }
            },
            _ => None,
        }
    } else {
        None
    }
}

fn leap_year(year: u64) -> (leap: bool)
    ensures
        leap == is_leap_year(year as int),
{
    year % 4 == 0 && (year % 100 != 0 || year % 400 == 0)
}

fn month_length(year: u64, month: u64) -> (days: u64)
    ensures
        days == days_in_month(year as int, month as int),
{
    if month == 2 {
        if leap_year(year) {
            29
        } else {
            28
        }
    } else if month == 4 || month == 6 || month == 9 || month == 11 {
        30
    } else {
        31
    }
}

/// The number written by `count` digits of `s` from position `from`.
fn read_number(s: &Vec<char>, from: usize, count: usize) -> (number: Option<u64>)
    requires
        count <= 4,
        from + count <= s.len(),
    ensures
        match number {
            Some(n) => number_at(s@, from as int, count as int) == Some(n as int) && n < 10000,
            None => number_at(s@, from as int, count as int) is None,
        },
{
    let mut n: u64 = 0;
    let mut k: usize = 0;
    while k < count
        invariant
            k <= count <= 4,
            from + count <= s.len(),
            number_at(s@, from as int, k as int) == Some(n as int),
            k == 0 ==> n == 0,
            k == 1 ==> n < 10,
            k == 2 ==> n < 100,
            k == 3 ==> n < 1000,
            k == 4 ==> n < 10000,
        decreases count - k,
    {
        let c = s[from + k];
        if !(c >= '0' && c <= '9') {
            proof {
                lemma_number_at_none(s@, from as int, k as int + 1, count as int);
            }
            return None;
        }
        n = n * 10 + (c as u64 - '0' as u64);
        k += 1;
    }
    Some(n)
}

/// Once a prefix of the digits is no number, no longer run of them is.
proof fn lemma_number_at_none(s: Seq<char>, from: int, short: int, long: int)
    requires
        0 <= from,
        0 < short <= long,
        from + long <= s.len(),
        number_at(s, from, short) is None,
    ensures
        number_at(s, from, long) is None,
    decreases long - short,
{
    if short < long {
        lemma_number_at_none(s, from, short, long - 1);
    }
}

fn days_to_year(year: u64) -> (days: u64)
    requires
        1970 <= year < 10000,
    ensures
        days == days_before_year(year as int),
        days <= 366 * (year - 1970),
{
    let mut days: u64 = 0;
    let mut y: u64 = EPOCH_YEAR;
    while y < year
        invariant
            1970 <= y <= year < 10000,
            days == days_before_year(y as int),
            days <= 366 * (y - 1970),
        decreases year - y,
    {
        days = days + if leap_year(y) {
            366
        } else {
            365
        };
        y += 1;
    }
    days
}

fn days_to_month(year: u64, month: u64) -> (days: u64)
    requires
        1 <= month <= 12,
    ensures
        days == days_before_month(year as int, month as int),
        days <= 31 * (month - 1),
{
    let mut days: u64 = 0;
    let mut m: u64 = 1;
    while m < month
        invariant
            1 <= m <= month <= 12,
            days == days_before_month(year as int, m as int),
            days <= 31 * (m - 1),
        decreases month - m,
    {
        days = days + month_length(year, m);
        m += 1;
    }
    days
}

/// Whether the characters of `s` from position `from` up to, not
/// including, position `to` are a fraction or nothing.
fn fraction_between(s: &Vec<char>, from: usize, to: usize) -> (fits: bool)
    requires
        from <= to <= s.len(),
    ensures
        fits == is_fraction(s@.subrange(from as int, to as int)),
{
    let ghost part = s@.subrange(from as int, to as int);
    if to == from {
        return true;
    }
    if to - from < 2 || s[from] != '.' {
        assert(part[0] == s@[from as int]);
        return false;
    }
    let mut i: usize = from + 1;
    while i < to
        invariant
            from < i <= to <= s.len(),
            part == s@.subrange(from as int, to as int),
            forall|j: int| 1 <= j < i - from ==> is_digit(#[trigger] part[j]),
        decreases to - i,
    {
        let c = s[i];
        if !(c >= '0' && c <= '9') {
            assert(part[i - from] == c);
            return false;
        }
        i += 1;
    }
    assert(part[0] == s@[from as int]);
    true
}

/// Reads a timestamp as whole seconds since the Unix epoch.
pub fn parse_timestamp(text: &str) -> (seconds: Option<u64>)
    ensures
        match seconds {
            Some(s) => epoch_seconds(text@) == Some(s as int),
            None => epoch_seconds(text@) is None,
        },
{
    let s = chars_of(text);
    let length: usize = s.len();
    if length < TIMESTAMP_LENGTH {
        return None;
    }
    if s[4] != '-' || s[7] != '-' || s[10] != 'T' || s[13] != ':' || s[16] != ':' || s[length - 1]
        != 'Z' {
        return None;
    }
    if !fraction_between(&s, TIMESTAMP_LENGTH - 1, length - 1) {
        return None;
    }
    let year = read_number(&s, 0, 4);
    let month = read_number(&s, 5, 2);
    let day = read_number(&s, 8, 2);
    let hour = read_number(&s, 11, 2);
    let minute = read_number(&s, 14, 2);
    let second = read_number(&s, 17, 2);
    match (year, month, day, hour, minute, second) {
        (Some(year), Some(month), Some(day), Some(hour), Some(minute), Some(second)) => {
            if year < EPOCH_YEAR || month < 1 || month > 12 || day < 1 || hour >= 24 || minute
                >= 60 || second >= 60 {
                return None;
            }
            if day > month_length(year, month) {
                return None;
            }
            let days: u64 = days_to_year(year) + days_to_month(year, month) + (day - 1);
            Some(days * 86400 + hour * 3600 + minute * 60 + second)
        },
        _ => None,
    }
}

} // verus!
