//! Points in time as calendar dates: seconds since the beginning of 1970 as
//! year, month, day and time of day in universal time.

use vstd::prelude::*;
use vstd::string::*;
use crate::text::{padded_decimal_text, push_decimal_padded};

verus! {

/// The seconds of a day.
pub const SECONDS_PER_DAY: u64 = 86400;

/// Whether a year has a 29th of February.
pub open spec fn is_leap_year(year: int) -> bool {
    year % 4 == 0 && (year % 100 != 0 || year % 400 == 0)
}

/// The days of a year.
pub open spec fn days_in_year(year: int) -> int {
    if is_leap_year(year) {
        366
    } else {
        365
    }
}

/// The days of a month, counted from one.
pub open spec fn days_in_month(year: int, month: int) -> int {
    if month == 2 {
        if is_leap_year(year) {
            29
        } else {
            28
        }
    } else if month == 4 || month == 6 || month == 9 || month == 11 {
        30
    } else {
        31
    }
}

/// The days from the beginning of 1970 to the beginning of a year.
pub open spec fn days_before_year(year: int) -> int
    decreases year - 1970,
{
    if year <= 1970 {
        0
    } else {
        days_before_year(year - 1) + days_in_year(year - 1)
    }
}

/// The days from the beginning of a year to the beginning of a month.
pub open spec fn days_before_month(year: int, month: int) -> int
    decreases month,
{
    if month <= 1 {
        0
    } else {
        days_before_month(year, month - 1) + days_in_month(year, month - 1)
    }
}

/// A date and a time of day.
#[derive(Clone, Copy, Debug, PartialEq, Eq, Structural)]
pub struct CivilTime {
    pub year: u64,
    pub month: u8,
    pub day: u8,
    pub hour: u8,
    pub minute: u8,
    pub second: u8,
}

impl CivilTime {
    /// Whether the fields name a day of the calendar from 1970 on and a
    /// time of that day.
    pub open spec fn is_valid(self) -> bool {
        &&& 1970 <= self.year
        &&& 1 <= self.month <= 12
        &&& 1 <= self.day <= days_in_month(self.year as int, self.month as int)
        &&& self.hour < 24
        &&& self.minute < 60
        &&& self.second < 60
    }

    /// The days from the beginning of 1970 to the day.
    pub open spec fn day_number(self) -> int {
        days_before_year(self.year as int) + days_before_month(
            self.year as int,
            self.month as int,
        ) + self.day - 1
    }

    /// The seconds from the beginning of the day.
    pub open spec fn second_of_day(self) -> int {
        self.hour * 3600 + self.minute * 60 + self.second
    }

    /// The seconds from the beginning of 1970.
    pub open spec fn seconds(self) -> int {
        self.day_number() * 86400 + self.second_of_day()
    }

    /// The time written as `YYYY-MM-DD HH:MM:SS UTC`, each number filled
    /// with zeros to its width.
    pub open spec fn text(self) -> Seq<char> {
        padded_decimal_text(self.year as nat, 4) + "-"@ + padded_decimal_text(self.month as nat, 2)
            + "-"@ + padded_decimal_text(self.day as nat, 2) + " "@ + padded_decimal_text(
            self.hour as nat,
            2,
        ) + ":"@ + padded_decimal_text(self.minute as nat, 2) + ":"@ + padded_decimal_text(
            self.second as nat,
            2,
        ) + " UTC"@
    }

    /// Writes the time as `YYYY-MM-DD HH:MM:SS UTC`.
    pub fn format(&self) -> (r: String)
        ensures
            r@ == self.text(),
    {
        let mut s = String::new();
        push_decimal_padded(&mut s, self.year, 4);
        s.append("-");
        push_decimal_padded(&mut s, self.month as u64, 2);
        s.append("-");
        push_decimal_padded(&mut s, self.day as u64, 2);
        s.append(" ");
        push_decimal_padded(&mut s, self.hour as u64, 2);
        s.append(":");
        push_decimal_padded(&mut s, self.minute as u64, 2);
        s.append(":");
        push_decimal_padded(&mut s, self.second as u64, 2);
        s.append(" UTC");
        assert(s@ =~= self.text());
        s
    }
}

fn leap_year(year: u64) -> (r: bool)
    ensures
        r == is_leap_year(year as int),
{
    year % 4 == 0 && (year % 100 != 0 || year % 400 == 0)
}

fn year_length(year: u64) -> (r: u64)
    ensures
        r == days_in_year(year as int),
{
    if leap_year(year) {
        366
    } else {
        365
    }
}

fn month_length(year: u64, month: u8) -> (r: u64)
    requires
        1 <= month <= 12,
    ensures
        r == days_in_month(year as int, month as int),
        28 <= r <= 31,
{
    if month == 2 {
        if leap_year(year) {
            29
        } else {
            28
        }
    } else if month == 4 || month == 6 || month == 9 || month == 11 {
        30
    } else {
        31
    }
}

/// The months of a year add up to the year.
pub proof fn lemma_months_fill_the_year(year: int)
    ensures
        days_before_month(year, 13) == days_in_year(year),
{
    reveal_with_fuel(days_before_month, 14);
}

/// The days before a month grow with the month.
pub proof fn lemma_days_before_month_grows(year: int, earlier: int, later: int)
    requires
        1 <= earlier <= later,
    ensures
        days_before_month(year, earlier) + 28 * (later - earlier) <= days_before_month(
            year,
            later,
        ),
    decreases later - earlier,
{
    if earlier < later {
        lemma_days_before_month_grows(year, earlier, later - 1);
    }
}

/// The days before a year grow with the year.
pub proof fn lemma_days_before_year_grows(earlier: int, later: int)
    requires
        1970 <= earlier <= later,
    ensures
        days_before_year(earlier) + 365 * (later - earlier) <= days_before_year(later),
    decreases later - earlier,
{
    if earlier < later {
        lemma_days_before_year_grows(earlier, later - 1);
    }
}

/// The date and time of day that lie the given number of seconds after the
/// beginning of 1970.
pub fn civil_time(secs: u64) -> (t: CivilTime)
    ensures
        t.is_valid(),
        t.seconds() == secs,
{
    let total_days: u64 = secs / SECONDS_PER_DAY;
    let day_secs: u64 = secs % SECONDS_PER_DAY;
    let hour: u64 = day_secs / 3600;
    let minute: u64 = (day_secs % 3600) / 60;
    let second: u64 = day_secs % 60;
    let mut days: u64 = total_days;
    let mut year: u64 = 1970;
    while days >= year_length(year)
        invariant
            1970 <= year,
            days <= total_days,
            total_days <= u64::MAX / 86400,
            (year - 1970) * 365 <= total_days - days,
            days_before_year(year as int) + days == total_days,
        decreases days,
    {
        days = days - year_length(year);
        year = year + 1;
    }
    let mut month: u8 = 1;
    proof {
        lemma_months_fill_the_year(year as int);
    }
    while days >= month_length(year, month)
        invariant
            1 <= month <= 12,
            days_before_year(year as int) + days_before_month(year as int, month as int) + days
                == total_days,
            days_before_month(year as int, month as int) + days < days_before_month(
                year as int,
                13,
            ),
        decreases days,
    {
        proof {
            if month == 12 {
                assert(days_before_month(year as int, 13) == days_before_month(year as int, 12)
                    + 31);
            }
        }
        days = days - month_length(year, month);
        month = month + 1;
    }
    CivilTime {
        year,
        month,
        day: (days + 1) as u8,
        hour: hour as u8,
        minute: minute as u8,
        second: second as u8,
    }
}

/// A day of a year lies within the year.
proof fn lemma_day_lies_in_year(t: CivilTime)
    requires
        t.is_valid(),
    ensures
        days_before_year(t.year as int) <= t.day_number() < days_before_year(t.year as int + 1),
        days_before_month(t.year as int, t.month as int) <= t.day_number() - days_before_year(
            t.year as int,
        ) < days_before_month(t.year as int, t.month as int + 1),
{
    lemma_months_fill_the_year(t.year as int);
    lemma_days_before_month_grows(t.year as int, t.month as int + 1, 13);
    lemma_days_before_month_grows(t.year as int, 1, t.month as int);
}

/// Seconds split into days and seconds of the day in one way only.
proof fn lemma_seconds_split(day_a: int, rest_a: int, day_b: int, rest_b: int)
    requires
        0 <= rest_a < 86400,
        0 <= rest_b < 86400,
        day_a * 86400 + rest_a == day_b * 86400 + rest_b,
    ensures
        day_a == day_b,
        rest_a == rest_b,
{
}

/// Seconds of the day split into hours, minutes and seconds in one way
/// only.
proof fn lemma_second_of_day_split(a: CivilTime, b: CivilTime)
    requires
        a.is_valid(),
        b.is_valid(),
        a.second_of_day() == b.second_of_day(),
    ensures
        a.hour == b.hour,
        a.minute == b.minute,
        a.second == b.second,
{
    let ra: int = a.minute * 60 + a.second;
    let rb: int = b.minute * 60 + b.second;
    assert(a.hour * 3600 + ra == b.hour * 3600 + rb);
    assert(0 <= ra < 3600 && 0 <= rb < 3600);
    if a.hour < b.hour {
        assert(a.hour * 3600 + 3600 <= b.hour * 3600);
    } else if b.hour < a.hour {
        assert(b.hour * 3600 + 3600 <= a.hour * 3600);
    }
    assert(ra == rb);
    if a.minute < b.minute {
        assert(a.minute * 60 + 60 <= b.minute * 60);
    } else if b.minute < a.minute {
        assert(b.minute * 60 + 60 <= a.minute * 60);
    }
}

/// A day belongs to one year and one month only.
proof fn lemma_day_number_split(a: CivilTime, b: CivilTime)
    requires
        a.is_valid(),
        b.is_valid(),
        a.day_number() == b.day_number(),
    ensures
        a.year == b.year,
        a.month == b.month,
        a.day == b.day,
{
    lemma_day_lies_in_year(a);
    lemma_day_lies_in_year(b);
    if a.year < b.year {
        lemma_days_before_year_grows(a.year as int + 1, b.year as int);
    } else if b.year < a.year {
        lemma_days_before_year_grows(b.year as int + 1, a.year as int);
    } else if a.month < b.month {
        lemma_days_before_month_grows(a.year as int, a.month as int + 1, b.month as int);
    } else if b.month < a.month {
        lemma_days_before_month_grows(a.year as int, b.month as int + 1, a.month as int);
    }
}

/// Only one date and time of day lies a given number of seconds after the
/// beginning of 1970.
pub proof fn lemma_civil_time_is_unique(a: CivilTime, b: CivilTime)
    requires
        a.is_valid(),
        b.is_valid(),
        a.seconds() == b.seconds(),
    ensures
        a == b,
{
    lemma_second_of_day_bound(a);
    lemma_second_of_day_bound(b);
    lemma_seconds_split(a.day_number(), a.second_of_day(), b.day_number(), b.second_of_day());
    lemma_second_of_day_split(a, b);
    lemma_day_number_split(a, b);
}

proof fn lemma_second_of_day_bound(t: CivilTime)
    requires
        t.is_valid(),
    ensures
        0 <= t.second_of_day() < 86400,
{
}

/// The text of the point in time that lies the given number of seconds
/// after the beginning of 1970.
pub fn format_system_time(secs: u64) -> (r: String)
    ensures
        exists|t: CivilTime| t.is_valid() && t.seconds() == secs && r@ == t.text(),
        forall|t: CivilTime| t.is_valid() && t.seconds() == secs ==> r@ == t.text(),
{
    let t = civil_time(secs);
    proof {
        assert forall|u: CivilTime| u.is_valid() && u.seconds() == secs implies u == t by {
            lemma_civil_time_is_unique(u, t);
        }
    }
    t.format()
}

} // verus!
