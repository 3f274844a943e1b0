//! Calendar time in UTC, from seconds since the start of 1970.

use vstd::prelude::*;
use vstd::string::StringExecFns;

use crate::text::{decimal, padded_text, zero_padded};

verus! {

/// Whether a year of the Gregorian calendar is a leap year.
pub open spec fn leap(y: int) -> bool {
    (y % 4 == 0 && y % 100 != 0) || y % 400 == 0
}

/// How many days a year has.
pub open spec fn days_in_year(y: int) -> nat {
    if leap(y) {
        366
    } else {
        365
    }
}

/// How many days a month has.
pub open spec fn days_in_month(y: int, month: int) -> nat {
    if month == 2 {
        if leap(y) {
            29
        } else {
            28
        }
    } else if month == 4 || month == 6 || month == 9 || month == 11 {
        30
    } else {
        31
    }
}

/// How many days lie between the start of 1970 and the start of a year.
pub open spec fn days_before_year(y: int) -> nat
    decreases y - 1970,
{
    if y <= 1970 {
        0
    } else {
        days_before_year(y - 1) + days_in_year(y - 1)
    }
}

/// How many days of the year lie before a month.
pub open spec fn days_before_month(y: int, month: int) -> nat
    decreases month,
{
    if month <= 1 {
        0
    } else {
        days_before_month(y, month - 1) + days_in_month(y, month - 1)
    }
}

/// The year in which the `days`th day after the start of `y` lies.
pub open spec fn year_after(y: int, days: nat) -> int
    decreases days,
{
    if days < days_in_year(y) {
        y
    } else {
        year_after(y + 1, (days - days_in_year(y)) as nat)
    }
}

/// The year of a moment.
pub open spec fn year_of(secs: nat) -> int {
    year_after(1970, secs / 86400)
}

/// The month in which the `days`th day after the start of `month` lies.
pub open spec fn month_after(y: int, month: int, days: nat) -> int
    decreases 12 - month,
{
    if month >= 12 || days < days_in_month(y, month) {
        month
    } else {
        month_after(y, month + 1, (days - days_in_month(y, month)) as nat)
    }
}

/// The day of the year of a moment, from 0.
pub open spec fn day_of_year(secs: nat) -> int {
    secs / 86400 - days_before_year(year_of(secs))
}

/// The month of a moment.
pub open spec fn month_of(secs: nat) -> int {
    month_after(year_of(secs), 1, day_of_year(secs) as nat)
}

/// The day of the month of a moment.
pub open spec fn day_of(secs: nat) -> int {
    day_of_year(secs) - days_before_month(year_of(secs), month_of(secs)) + 1
}

/// The seconds from the start of 1970 to a moment of the calendar.
pub open spec fn seconds_at(y: int, month: int, day: int, hour: int, min: int, sec: int) -> int {
    (days_before_year(y) + days_before_month(y, month) + day - 1) * 86400 + hour * 3600 + min * 60
        + sec
}

fn divisible(y: i64, d: i64) -> (r: bool)
    requires
        d > 0,
    ensures
        r == (y as int % d as int == 0),
{
    match y.checked_rem_euclid(d) {
        Some(m) => m == 0,
        None => false,
    }
}

/// Tells whether a year is a leap year.
pub fn is_leap(y: i64) -> (r: bool)
    ensures
        r == leap(y as int),
{
    (divisible(y, 4) && !divisible(y, 100)) || divisible(y, 400)
}

fn month_days(y: i64, month: u32) -> (r: i64)
    requires
        1 <= month <= 12,
    ensures
        r == days_in_month(y as int, month as int),
{
    if month == 2 {
        if is_leap(y) {
            29
        } else {
            28
        }
    } else if month == 4 || month == 6 || month == 9 || month == 11 {
        30
    } else {
        31
    }
}

proof fn lemma_months_fill_year(y: int)
    ensures
        days_before_month(y, 13) == days_in_year(y),
{
    reveal_with_fuel(days_before_month, 14);
}

/// The calendar date and time of a moment: year, month, day, hour, minute and
/// second.
///
/// The year is given in 32 bits; the moment is exactly the one that the other
/// five and the full year name.
pub fn unix_to_ymdhms(secs: u64) -> (r: (u32, u32, u32, u32, u32, u32))
    ensures
        r.0 == year_of(secs as nat) as u32,
        r.1 == month_of(secs as nat),
        r.2 == day_of(secs as nat),
        r.3 == secs as nat % 86400 / 3600,
        r.4 == secs as nat % 3600 / 60,
        r.5 == secs as nat % 60,
        1 <= r.1 <= 12,
        1 <= r.2 <= days_in_month(year_of(secs as nat), r.1 as int),
        r.3 < 24,
        r.4 < 60,
        r.5 < 60,
        seconds_at(
            year_of(secs as nat),
            r.1 as int,
            r.2 as int,
            r.3 as int,
            r.4 as int,
            r.5 as int,
        ) == secs,
{
    let all_days: i64 = (secs / 86_400) as i64;
    let secs_of_day: u32 = (secs % 86_400) as u32;
    let hour: u32 = secs_of_day / 3600;
    let min: u32 = (secs_of_day % 3600) / 60;
    let sec: u32 = secs_of_day % 60;

    let mut days: i64 = all_days;
    let mut year: i64 = 1970;
    loop
        invariant
            0 <= days,
            1970 <= year,
            year + days <= 1970 + all_days,
            all_days <= 213_503_982_334_601,
            year_after(1970, all_days as nat) == year_after(year as int, days as nat),
            all_days == days_before_year(year as int) + days,
        ensures
            0 <= days < days_in_year(year as int),
            year == year_after(1970, all_days as nat),
            all_days == days_before_year(year as int) + days,
        decreases days,
    {
        let in_year: i64 = if is_leap(year) {
            366
        } else {
            365
        };
        if days < in_year {
            break;
        }
        days = days - in_year;
        year = year + 1;
    }
    let ghost of_year = days;
    let mut month: u32 = 1;
    proof {
        lemma_months_fill_year(year as int);
    }
    while month < 12 && days >= month_days(year, month)
        invariant
            1 <= month <= 12,
            0 <= days,
            of_year == days_before_month(year as int, month as int) + days,
            month_after(year as int, 1, of_year as nat) == month_after(
                year as int,
                month as int,
                days as nat,
            ),
            of_year < days_in_year(year as int),
            days_before_month(year as int, 13) == days_in_year(year as int),
        decreases 12 - month,
    {
        days = days - month_days(year, month);
        month = month + 1;
    }
    assert(days < days_in_month(year as int, month as int)) by {
        if month == 12 {
            assert(days_before_month(year as int, 13) == days_before_month(year as int, 12)
                + days_in_month(year as int, 12));
        }
    }
    let day: u32 = days as u32 + 1;
    assert(secs == all_days * 86400 + secs_of_day);
    assert(secs_of_day == hour * 3600 + min * 60 + sec);
    (year as u32, month, day, hour, min, sec)
}

/// The parts of a timestamp, in ISO-8601 form.
pub open spec fn iso_text(year: nat, month: nat, day: nat, hour: nat, min: nat, sec: nat) -> Seq<
    char,
> {
    zero_padded(decimal(year), 4) + "-"@ + zero_padded(decimal(month), 2) + "-"@ + zero_padded(
        decimal(day),
        2,
    ) + "T"@ + zero_padded(decimal(hour), 2) + ":"@ + zero_padded(decimal(min), 2) + ":"@
        + zero_padded(decimal(sec), 2) + "Z"@
}

/// The timestamp of a moment.
pub open spec fn timestamp(secs: nat) -> Seq<char> {
    iso_text(
        (year_of(secs) as u32) as nat,
        month_of(secs) as nat,
        day_of(secs) as nat,
        secs % 86400 / 3600,
        secs % 3600 / 60,
        secs % 60,
    )
}

/// The ISO-8601 UTC timestamp of a moment.
pub fn iso_timestamp(secs: u64) -> (r: String)
    ensures
        r@ == timestamp(secs as nat),
{
    let t: (u32, u32, u32, u32, u32, u32) = unix_to_ymdhms(secs);
    let mut s: String = padded_text(t.0 as u64, 4);
    s.append("-");
    s.append(padded_text(t.1 as u64, 2).as_str());
    s.append("-");
    s.append(padded_text(t.2 as u64, 2).as_str());
    s.append("T");
    s.append(padded_text(t.3 as u64, 2).as_str());
    s.append(":");
    s.append(padded_text(t.4 as u64, 2).as_str());
    s.append(":");
    s.append(padded_text(t.5 as u64, 2).as_str());
    s.append("Z");
    s
}

/// A later day is never in an earlier year.
pub proof fn years_follow_days(a: nat, b: nat, y: int)
    requires
        a <= b,
    ensures
        y <= year_after(y, a) <= year_after(y, b),
    decreases b,
{
    if b >= days_in_year(y) {
        if a >= days_in_year(y) {
            years_follow_days((a - days_in_year(y)) as nat, (b - days_in_year(y)) as nat, y + 1);
        } else {
            years_follow_days(0, (b - days_in_year(y)) as nat, y + 1);
        }
    }
}

} // verus!
