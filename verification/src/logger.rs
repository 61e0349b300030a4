//! Log line formatting: calendar dates from day counts and the time stamp
//! (UTC+8) that starts every log line.

use vstd::prelude::*;
use crate::text::{dec_digits, decimal, push_char, push_str};
use vstd::string::StrSliceExecFns;

verus! {

/// Seconds in a day.
pub const SECS_PER_DAY: u64 = 86400;

/// Offset of the log's time zone (UTC+8) in seconds.
pub const ZONE_OFFSET_SECS: u64 = 8 * 3600;

/// Gregorian leap year.
pub open spec fn leap_year(y: int) -> bool {
    (y % 4 == 0 && y % 100 != 0) || y % 400 == 0
}

/// Days in year `y`.
pub open spec fn days_in_year(y: int) -> int {
    if leap_year(y) { 366 } else { 365 }
}

/// Days from 1970-01-01 to the first day of year `y` (`y >= 1970`).
pub open spec fn days_before_year(y: int) -> int
    decreases y - 1970,
{
    if y <= 1970 {
        0
    } else {
        days_before_year(y - 1) + days_in_year(y - 1)
    }
}

/// Days in month `m` (1-12) of year `y`.
pub open spec fn days_in_month(y: int, m: int) -> int {
    if m == 2 {
        if leap_year(y) { 29 } else { 28 }
    } else if m == 4 || m == 6 || m == 9 || m == 11 {
        30
    } else {
        31
    }
}

/// Days from the first day of year `y` to the first day of month `m` (1-13).
pub open spec fn days_before_month(y: int, m: int) -> int
    decreases m,
{
    if m <= 1 {
        0
    } else {
        days_before_month(y, m - 1) + days_in_month(y, m - 1)
    }
}

/// `(y, m, d)` is a valid date from 1970 on, `days` days after 1970-01-01.
pub open spec fn is_date_of(days: int, y: int, m: int, d: int) -> bool {
    &&& y >= 1970
    &&& 1 <= m <= 12
    &&& 1 <= d <= days_in_month(y, m)
    &&& days == days_before_year(y) + days_before_month(y, m) + d - 1
}

/// Whether `y` is a leap year.
pub fn is_leap(y: u64) -> (r: bool)
    ensures
        r == leap_year(y as int),
{
    (y % 4 == 0 && y % 100 != 0) || y % 400 == 0
}

proof fn lemma_days_before_year_grows(y: int)
    requires
        y >= 1970,
    ensures
        days_before_year(y) >= 365 * (y - 1970),
    decreases y - 1970,
{
    if y > 1970 {
        lemma_days_before_year_grows(y - 1);
    }
}

proof fn lemma_months_fill_year(y: int)
    ensures
        days_before_month(y, 13) == days_in_year(y),
{
    reveal_with_fuel(days_before_month, 13);
}

/// The date `days` days after 1970-01-01: year, month (1-12), day (1-31).
pub fn civil_date(days: u64) -> (r: (u64, u64, u64))
    ensures
        is_date_of(days as int, r.0 as int, r.1 as int, r.2 as int),
{
    let ghost total = days as int;
    let mut days = days;
    let mut year: u64 = 1970;
    loop
        invariant
            year >= 1970,
            days_before_year(year as int) + days == total,
            total <= u64::MAX,
        ensures
            year >= 1970,
            days_before_year(year as int) + days == total,
            days < days_in_year(year as int),
        decreases days,
    {
        let days_in_year: u64 = if is_leap(year) { 366 } else { 365 };
        if days < days_in_year {
            break;
        }
        proof {
            lemma_days_before_year_grows(year as int);
        }
        days = days - days_in_year;
        year = year + 1;
    }
    let leap = is_leap(year);
    let month_days: [u64; 12] = if leap {
        [31, 29, 31, 30, 31, 30, 31, 31, 30, 31, 30, 31]
    } else {
        [31, 28, 31, 30, 31, 30, 31, 31, 30, 31, 30, 31]
    };
    proof {
        lemma_months_fill_year(year as int);
    }
    let mut month: u64 = 1;
    let mut i: usize = 0;
    while i < 12
        invariant
            year >= 1970,
            1 <= month <= 12,
            month == i + 1,
            days_before_year(year as int) + days_before_month(year as int, month as int) + days == total,
            days_before_month(year as int, month as int) + days < days_in_year(year as int),
            days_before_month(year as int, 13) == days_in_year(year as int),
            leap == leap_year(year as int),
            forall|k: int| 0 <= k < 12 ==> month_days[k] == days_in_month(year as int, k + 1),
        ensures
            1 <= month <= 12,
            days_before_year(year as int) + days_before_month(year as int, month as int) + days == total,
            days < days_in_month(year as int, month as int),
        decreases 12 - i,
    {
        let md = month_days[i];
        if days < md {
            break;
        }
        assert(month < 12) by {
            if month == 12 {
                assert(days_before_month(year as int, 13) == days_before_month(year as int, 12) + days_in_month(year as int, 12));
            }
        }
        days = days - md;
        month = month + 1;
        i = i + 1;
    }
    (year, month, days + 1)
}

/// Decimal notation of `n` padded with leading zeros to at least `width` characters.
pub open spec fn padded(n: nat, width: nat) -> Seq<char> {
    let d = dec_digits(n);
    if d.len() < width {
        Seq::new((width - d.len()) as nat, |i: int| '0') + d
    } else {
        d
    }
}

/// `format!("{:0w$}", n)`: the decimal notation of `n` padded with zeros.
pub fn pad_number(n: u64, width: usize) -> (r: String)
    ensures
        r@ == padded(n as nat, width as nat),
{
    let d = decimal(n);
    let len = d.as_str().unicode_len();
    let mut s = String::new();
    if len < width {
        let mut i: usize = 0;
        while i < width - len
            invariant
                len < width,
                i <= width - len,
                s@ == Seq::new(i as nat, |k: int| '0'),
            decreases width - len - i,
        {
            push_char(&mut s, '0');
            assert(s@ =~= Seq::new((i + 1) as nat, |k: int| '0'));
            i = i + 1;
        }
    }
    push_str(&mut s, d.as_str());
    assert(len >= width ==> s@ =~= d@);
    s
}

/// The time stamp `YYYY-MM-DD hh:mm:ss.mmm` in UTC+8 of a moment `secs`
/// seconds and `ms` milliseconds after the Unix epoch.
pub open spec fn timestamp_text(secs: int, ms: int) -> Seq<char> {
    let t = secs + ZONE_OFFSET_SECS;
    let days = t / (SECS_PER_DAY as int);
    let tod = t % (SECS_PER_DAY as int);
    let (y, mo, d) = choose|y: int, mo: int, d: int| is_date_of(days, y, mo, d);
    padded(y as nat, 4) + seq!['-'] + padded(mo as nat, 2) + seq!['-'] + padded(d as nat, 2) + seq![' ']
        + padded((tod / 3600) as nat, 2) + seq![':'] + padded(((tod % 3600) / 60) as nat, 2)
        + seq![':'] + padded((tod % 60) as nat, 2) + seq!['.'] + padded(ms as nat, 3)
}


proof fn lemma_days_before_year_mono(a: int, b: int)
    requires
        1970 <= a <= b,
    ensures
        days_before_year(a) <= days_before_year(b),
        a < b ==> days_before_year(a) + days_in_year(a) <= days_before_year(b),
    decreases b - a,
{
    if a < b {
        lemma_days_before_year_mono(a, b - 1);
    }
}

proof fn lemma_days_before_month_mono(y: int, a: int, b: int)
    requires
        1 <= a <= b <= 13,
    ensures
        days_before_month(y, a) <= days_before_month(y, b),
        a < b ==> days_before_month(y, a) + days_in_month(y, a) <= days_before_month(y, b),
    decreases b - a,
{
    if a < b {
        lemma_days_before_month_mono(y, a, b - 1);
    }
}

/// A valid date lies within its year: fewer days than the year has since its first day.
proof fn lemma_date_within_year(days: int, y: int, m: int, d: int)
    requires
        is_date_of(days, y, m, d),
    ensures
        days_before_year(y) <= days < days_before_year(y) + days_in_year(y),
{
    lemma_days_before_month_mono(y, 1, m);
    lemma_days_before_month_mono(y, m, 13);
    lemma_months_fill_year(y);
}

/// Calendar law: a day count has exactly one date.
pub proof fn lemma_date_unique(days: int, y1: int, m1: int, d1: int, y2: int, m2: int, d2: int)
    requires
        is_date_of(days, y1, m1, d1),
        is_date_of(days, y2, m2, d2),
    ensures
        y1 == y2 && m1 == m2 && d1 == d2,
{
    lemma_date_within_year(days, y1, m1, d1);
    lemma_date_within_year(days, y2, m2, d2);
    if y1 < y2 {
        lemma_days_before_year_mono(y1, y2);
    } else if y2 < y1 {
        lemma_days_before_year_mono(y2, y1);
    }
    assert(y1 == y2);
    if m1 < m2 {
        lemma_days_before_month_mono(y1, m1, m2);
    } else if m2 < m1 {
        lemma_days_before_month_mono(y1, m2, m1);
    }
}

/// The time stamp `YYYY-MM-DD hh:mm:ss.mmm` (UTC+8) of the moment `secs`
/// seconds and `ms` milliseconds after the Unix epoch.
pub fn format_timestamp(secs: u64, ms: u32) -> (r: String)
    requires
        secs + ZONE_OFFSET_SECS <= u64::MAX,
    ensures
        r@ == timestamp_text(secs as int, ms as int),
{
    let t = secs + ZONE_OFFSET_SECS;
    let days = t / SECS_PER_DAY;
    let tod = t % SECS_PER_DAY;
    let (y, mo, d) = civil_date(days);
    proof {
        let (cy, cm, cd) = choose|y: int, mo: int, d: int| is_date_of(days as int, y, mo, d);
        lemma_date_unique(days as int, y as int, mo as int, d as int, cy, cm, cd);
    }
    let mut s = pad_number(y, 4);
    push_char(&mut s, '-');
    let part = pad_number(mo, 2);
    push_str(&mut s, part.as_str());
    push_char(&mut s, '-');
    let part = pad_number(d, 2);
    push_str(&mut s, part.as_str());
    push_char(&mut s, ' ');
    let part = pad_number(tod / 3600, 2);
    push_str(&mut s, part.as_str());
    push_char(&mut s, ':');
    let part = pad_number((tod % 3600) / 60, 2);
    push_str(&mut s, part.as_str());
    push_char(&mut s, ':');
    let part = pad_number(tod % 60, 2);
    push_str(&mut s, part.as_str());
    push_char(&mut s, '.');
    let part = pad_number(ms as u64, 3);
    push_str(&mut s, part.as_str());
    s
}

/// A log line: time stamp, level in brackets, message, end of line.
pub open spec fn log_line_text(ts: Seq<char>, level: Seq<char>, msg: Seq<char>) -> Seq<char> {
    ts + seq![' ', '['] + level + seq![']', ' '] + msg + seq!['\n']
}

/// `format!("{} [{}] {}\n", ts, level, msg)`.
pub fn log_line(ts: &str, level: &str, msg: &str) -> (r: String)
    ensures
        r@ == log_line_text(ts@, level@, msg@),
{
    let mut s = String::new();
    push_str(&mut s, ts);
    push_char(&mut s, ' ');
    push_char(&mut s, '[');
    push_str(&mut s, level);
    push_char(&mut s, ']');
    push_char(&mut s, ' ');
    push_str(&mut s, msg);
    push_char(&mut s, '\n');
    assert(s@ =~= log_line_text(ts@, level@, msg@));
    s
}

} // verus!
