//! The calendar, and the moments that are written in it.

use vstd::prelude::*;

use crate::clock::{
    day_of, days_before_month, days_before_year, days_in_month, days_in_year, iso_text, month_after,
    month_of, seconds_at, timestamp, year_after, year_of,
};
use crate::laws::text::decimal_digits_give_the_number;
use crate::text::{decimal, number_of, zero_padded};

verus! {

/// A year has 366 days where its number is divisible by 4 and not by 100, or by 400;
/// the others have 365. Its months fill it.
pub proof fn years_have_their_days(y: int)
    requires
        y >= 1970,
    ensures
        days_before_year(1970) == 0,
        days_before_year(y + 1) == days_before_year(y) + (if y % 400 == 0 || y % 4 == 0 && y % 100
            != 0 {
            366int
        } else {
            365
        }),
        days_before_month(y, 13) == days_before_year(y + 1) - days_before_year(y),
{
    reveal_with_fuel(days_before_month, 14);
}

/// Thirty days have April, June, September and November; February has 28, or 29 in a
/// leap year; all the rest have 31.
pub proof fn months_have_their_days(y: int, month: int)
    requires
        1 <= month <= 12,
    ensures
        days_before_month(y, 1) == 0,
        days_before_month(y, month + 1) - days_before_month(y, month) == (if month == 4 || month == 6
            || month == 9 || month == 11 {
            30int
        } else if month == 2 {
            if y % 400 == 0 || y % 4 == 0 && y % 100 != 0 {
                29
            } else {
                28
            }
        } else {
            31
        }),
        seconds_at(y, month, 1, 0, 0, 0) == (days_before_year(y) + days_before_month(y, month))
            * 86400,
{
}

proof fn lemma_year(y: int, days: nat)
    requires
        y >= 1970,
    ensures
        ({
            let r = year_after(y, days);
            &&& r >= y
            &&& days_before_year(r) <= days_before_year(y) + days < days_before_year(r)
                + days_in_year(r)
        }),
    decreases days,
{
    if days >= days_in_year(y) {
        lemma_year(y + 1, (days - days_in_year(y)) as nat);
    }
}

proof fn lemma_month(y: int, month: int, days: nat)
    requires
        1 <= month <= 12,
        days_before_month(y, month) + days < days_before_month(y, 13),
    ensures
        ({
            let r = month_after(y, month, days);
            &&& 1 <= r <= 12
            &&& days_before_month(y, r) <= days_before_month(y, month) + days < days_before_month(
                y,
                r,
            ) + days_in_month(y, r)
        }),
    decreases 12 - month,
{
    if month < 12 && days >= days_in_month(y, month) {
        lemma_month(y, month + 1, (days - days_in_month(y, month)) as nat);
    } else if month == 12 {
        assert(days_before_month(y, 13) == days_before_month(y, 12) + days_in_month(y, 12));
    }
}

/// The date and time of a moment name a day that the calendar has, and that moment.
pub proof fn date_names_the_moment(secs: nat)
    ensures
        ({
            let y = year_of(secs);
            let month = month_of(secs);
            let day = day_of(secs);
            &&& y >= 1970
            &&& 1 <= month <= 12
            &&& 1 <= day <= days_in_month(y, month)
            &&& seconds_at(
                y,
                month,
                day,
                secs as int % 86400 / 3600,
                secs as int % 3600 / 60,
                secs as int % 60,
            ) == secs
        }),
{
    let y = year_of(secs);
    lemma_year(1970, secs / 86400);
    reveal_with_fuel(days_before_month, 14);
    assert(days_before_month(y, 13) == days_in_year(y));
    let of_year = (secs / 86400 - days_before_year(y)) as nat;
    assert(days_before_month(y, 1) == 0);
    lemma_month(y, 1, of_year);
    let s = secs as int;
    assert(s == s / 86400 * 86400 + s % 86400);
    assert(s % 86400 == s % 86400 / 3600 * 3600 + s % 3600 / 60 * 60 + s % 60) by {
        assert(s % 86400 % 3600 == s % 3600);
        assert(s % 3600 % 60 == s % 60);
    }
}

proof fn lemma_zeros(s: Seq<char>, n: nat)
    ensures
        number_of(Seq::new(n, |i: int| '0') + s) == number_of(s),
    decreases s.len(), n,
{
    let zeros = Seq::new(n, |i: int| '0');
    let whole = zeros + s;
    if s.len() > 0 {
        assert(whole.drop_last() =~= zeros + s.drop_last());
        assert(whole.last() == s.last());
        lemma_zeros(s.drop_last(), n);
    } else if n > 0 {
        let fewer = Seq::new((n - 1) as nat, |i: int| '0');
        assert(whole.drop_last() =~= fewer + s);
        assert(whole.last() == '0');
        lemma_zeros(s, (n - 1) as nat);
    } else {
        assert(whole =~= s);
    }
}

proof fn lemma_field(n: nat, width: nat)
    requires
        width == 2 && n < 100 || width == 4 && n < 10000,
    ensures
        zero_padded(decimal(n), width).len() == width,
        number_of(zero_padded(decimal(n), width)) == n,
{
    reveal_with_fuel(decimal, 5);
    decimal_digits_give_the_number(n);
    assert(decimal(n).len() <= width);
    lemma_zeros(decimal(n), (width - decimal(n).len()) as nat);
    if decimal(n).len() == width {
        assert(Seq::new(0, |i: int| '0') + decimal(n) =~= decimal(n));
    }
}

/// A timestamp is a date and a time in digits, and they name the moment that it was made
/// of: no two moments have the same.
pub proof fn timestamp_names_the_moment(secs: nat)
    requires
        year_of(secs) <= 9999,
    ensures
        ({
            let t = timestamp(secs);
            let part = |from: int, to: int| number_of(t.subrange(from, to)) as int;
            &&& t.len() == 20
            &&& t[4] == '-' && t[7] == '-' && t[10] == 'T' && t[13] == ':' && t[16] == ':' && t[19]
                == 'Z'
            &&& seconds_at(
                part(0, 4),
                part(5, 7),
                part(8, 10),
                part(11, 13),
                part(14, 16),
                part(17, 19),
            ) == secs
            &&& 1 <= part(5, 7) <= 12
            &&& 1 <= part(8, 10) <= days_in_month(part(0, 4), part(5, 7))
            &&& part(11, 13) < 24 && part(14, 16) < 60 && part(17, 19) < 60
        }),
{
    date_names_the_moment(secs);
    let y = year_of(secs) as nat;
    let month = month_of(secs) as nat;
    let day = day_of(secs) as nat;
    let hour = secs % 86400 / 3600;
    let min = secs % 3600 / 60;
    let sec = secs % 60;
    lemma_field(y, 4);
    lemma_field(month, 2);
    lemma_field(day, 2);
    lemma_field(hour, 2);
    lemma_field(min, 2);
    lemma_field(sec, 2);
    reveal_strlit("-");
    reveal_strlit("T");
    reveal_strlit(":");
    reveal_strlit("Z");
    let t = timestamp(secs);
    assert(t == iso_text(y, month, day, hour, min, sec));
    assert(t.subrange(0, 4) =~= zero_padded(decimal(y), 4));
    assert(t.subrange(5, 7) =~= zero_padded(decimal(month), 2));
    assert(t.subrange(8, 10) =~= zero_padded(decimal(day), 2));
    assert(t.subrange(11, 13) =~= zero_padded(decimal(hour), 2));
    assert(t.subrange(14, 16) =~= zero_padded(decimal(min), 2));
    assert(t.subrange(17, 19) =~= zero_padded(decimal(sec), 2));
}

} // verus!
