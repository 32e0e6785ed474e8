//! Rendering day counts and nanosecond counts as SQL date, time and
//! timestamp literals.
//!
//! Days are counted from 1970-01-01; the calendar handles leap years and
//! the varying month lengths.

use vstd::prelude::*;

use crate::numfmt::{spec_dec_digits, spec_zero_pad, u64_to_padded_string};

verus! {

pub const NANOSECONDS_PER_SECOND: i64 = 1_000_000_000;

pub const NANOSECONDS_PER_MINUTE: i64 = 60_000_000_000;

pub const NANOSECONDS_PER_HOUR: i64 = 3_600_000_000_000;

pub const NANOSECONDS_PER_DAY: i64 = 86_400_000_000_000;

/// Whether `year` is a leap year in the Gregorian calendar.
pub open spec fn spec_is_leap_year(year: int) -> bool {
    year % 4 == 0 && (year % 100 != 0 || year % 400 == 0)
}

/// The number of days in `year`.
pub open spec fn spec_days_in_year(year: int) -> int {
    if spec_is_leap_year(year) {
        366
    } else {
        365
    }
}

/// The number of days in `month` (1-based) of a year with leap flag
/// `leap`.
pub open spec fn spec_days_in_month(month: int, leap: bool) -> int {
    if month == 2 {
        if leap {
            29
        } else {
            28
        }
    } else if month == 4 || month == 6 || month == 9 || month == 11 {
        30
    } else {
        31
    }
}

/// Peel whole years off a day count, starting at `year`: the result is
/// the reached year and the remaining zero-based day within it.
pub open spec fn spec_peel_years(days: int, year: int) -> (int, int)
    recommends
        0 <= days,
    decreases days,
{
    if days >= 365 && days >= spec_days_in_year(year) {
        spec_peel_years(days - spec_days_in_year(year), year + 1)
    } else {
        (year, days)
    }
}

/// Peel whole months off a one-based day of the year, starting at
/// `month`: the result is the reached month and the day within it.
pub open spec fn spec_peel_months(day: int, month: int, leap: bool) -> (int, int)
    decreases 12 - month,
{
    if month >= 12 || day <= spec_days_in_month(month, leap) {
        (month, day)
    } else {
        spec_peel_months(day - spec_days_in_month(month, leap), month + 1, leap)
    }
}

/// The (year, month, day) that `days` after 1970-01-01 falls on.
pub open spec fn spec_civil_from_days(days: int) -> (int, int, int) {
    let y = spec_peel_years(days, 1970).0;
    let rem = spec_peel_years(days, 1970).1;
    let m = spec_peel_months(rem + 1, 1, spec_is_leap_year(y)).0;
    let d = spec_peel_months(rem + 1, 1, spec_is_leap_year(y)).1;
    (y, m, d)
}

/// `YYYY-MM-DD` for the given fields.
pub open spec fn spec_date_fields(y: int, m: int, d: int) -> Seq<char> {
    spec_zero_pad(spec_dec_digits(y), 4) + "-"@ + spec_zero_pad(spec_dec_digits(m), 2) + "-"@
        + spec_zero_pad(spec_dec_digits(d), 2)
}

/// `HH:MM:SS.nnnnnnnnn` for the given fields.
pub open spec fn spec_time_fields(h: int, mi: int, s: int, ns: int) -> Seq<char> {
    spec_zero_pad(spec_dec_digits(h), 2) + ":"@ + spec_zero_pad(spec_dec_digits(mi), 2) + ":"@
        + spec_zero_pad(spec_dec_digits(s), 2) + "."@ + spec_zero_pad(spec_dec_digits(ns), 9)
}

/// The quoted SQL date literal for a day count.
pub open spec fn spec_date_string(days: int) -> Seq<char> {
    let (y, m, d) = spec_civil_from_days(days);
    "'"@ + spec_date_fields(y, m, d) + "'"@
}

/// The `HH:MM:SS.nnnnnnnnn` text for nanoseconds within one day.
pub open spec fn spec_time_of_day_fields(ns: int) -> Seq<char> {
    let h = ns / (NANOSECONDS_PER_HOUR as int);
    let rem_h = ns % (NANOSECONDS_PER_HOUR as int);
    let mi = rem_h / (NANOSECONDS_PER_MINUTE as int);
    let rem_mi = rem_h % (NANOSECONDS_PER_MINUTE as int);
    let s = rem_mi / (NANOSECONDS_PER_SECOND as int);
    let frac = rem_mi % (NANOSECONDS_PER_SECOND as int);
    spec_time_fields(h, mi, s, frac)
}

/// The quoted SQL time literal for nanoseconds since midnight.
pub open spec fn spec_time_string(ns: int) -> Seq<char> {
    "'"@ + spec_time_of_day_fields(ns) + "'"@
}

/// The unquoted `YYYY-MM-DD HH:MM:SS.nnnnnnnnn` text for nanoseconds
/// since the epoch.
pub open spec fn spec_timestamp_fields(ns: int) -> Seq<char> {
    let days = ns / (NANOSECONDS_PER_DAY as int);
    let rem = ns % (NANOSECONDS_PER_DAY as int);
    let (y, m, d) = spec_civil_from_days(days);
    spec_date_fields(y, m, d) + " "@ + spec_time_of_day_fields(rem)
}

/// The quoted SQL timestamp literal for nanoseconds since the epoch.
pub open spec fn spec_timestamp_string(ns: int) -> Seq<char> {
    "'"@ + spec_timestamp_fields(ns) + "'"@
}

/// The days in the years `from` (inclusive) up to `to` (exclusive).
pub open spec fn spec_year_span_days(from: int, to: int) -> int
    recommends
        from <= to,
    decreases to - from,
{
    if to <= from {
        0
    } else {
        spec_days_in_year(from) + spec_year_span_days(from + 1, to)
    }
}

/// The days in the months `from` (inclusive) up to `to` (exclusive) of
/// a year with leap flag `leap`.
pub open spec fn spec_month_span_days(from: int, to: int, leap: bool) -> int
    recommends
        from <= to,
    decreases to - from,
{
    if to <= from {
        0
    } else {
        spec_days_in_month(from, leap) + spec_month_span_days(from + 1, to, leap)
    }
}

/// The day count of a civil date: whole years since 1970, whole months
/// within the year, and the day within the month.
pub open spec fn spec_days_from_civil(y: int, m: int, d: int) -> int {
    spec_year_span_days(1970, y) + spec_month_span_days(1, m, spec_is_leap_year(y)) + (d - 1)
}

/// Peeling years decomposes the day count: the days before the reached
/// year plus the remaining day index, which lies inside the year.
proof fn lemma_peel_years_decompose(days: int, year: int)
    requires
        0 <= days,
    ensures
        spec_peel_years(days, year).0 >= year,
        days == spec_year_span_days(year, spec_peel_years(days, year).0) + spec_peel_years(
            days,
            year,
        ).1,
        0 <= spec_peel_years(days, year).1 < spec_days_in_year(spec_peel_years(days, year).0),
    decreases days,
{
    if days >= 365 && days >= spec_days_in_year(year) {
        lemma_peel_years_decompose(days - spec_days_in_year(year), year + 1);
        let y = spec_peel_years(days, year).0;
        lemma_year_span_unfold(year, y);
    }
}

/// One year unfolds off the front of a year span.
proof fn lemma_year_span_unfold(from: int, to: int)
    requires
        from < to,
    ensures
        spec_year_span_days(from, to) == spec_days_in_year(from) + spec_year_span_days(
            from + 1,
            to,
        ),
{
}

/// Peeling months decomposes the day of the year: the days of the
/// months before the reached month plus the day within it.
proof fn lemma_peel_months_decompose(day: int, month: int, leap: bool)
    requires
        1 <= month <= 12,
        1 <= day,
    ensures
        spec_peel_months(day, month, leap).0 >= month,
        day == spec_month_span_days(month, spec_peel_months(day, month, leap).0, leap)
            + spec_peel_months(day, month, leap).1,
        spec_peel_months(day, month, leap).1 >= 1,
    decreases 12 - month,
{
    if !(month >= 12 || day <= spec_days_in_month(month, leap)) {
        lemma_peel_months_decompose(day - spec_days_in_month(month, leap), month + 1, leap);
    }
}

/// Round trip: the civil date a day count falls on maps back to the
/// day count.  Together with the digit round trips this pins the date
/// literal down as a faithful rendering of the underlying day count.
pub proof fn lemma_civil_days_roundtrip(days: int)
    requires
        0 <= days,
    ensures
        ({
            let (y, m, d) = spec_civil_from_days(days);
            spec_days_from_civil(y, m, d) == days
        }),
{
    let y = spec_peel_years(days, 1970).0;
    let rem = spec_peel_years(days, 1970).1;
    lemma_peel_years_decompose(days, 1970);
    let leap = spec_is_leap_year(y);
    lemma_peel_months_decompose(rem + 1, 1, leap);
}

/// Round trip: the four time fields reassemble the nanosecond count
/// within the day.
pub proof fn lemma_time_fields_roundtrip(ns: int)
    requires
        0 <= ns < NANOSECONDS_PER_DAY,
    ensures
        ({
            let h = ns / (NANOSECONDS_PER_HOUR as int);
            let rem_h = ns % (NANOSECONDS_PER_HOUR as int);
            let mi = rem_h / (NANOSECONDS_PER_MINUTE as int);
            let rem_mi = rem_h % (NANOSECONDS_PER_MINUTE as int);
            let s = rem_mi / (NANOSECONDS_PER_SECOND as int);
            let frac = rem_mi % (NANOSECONDS_PER_SECOND as int);
            &&& h * (NANOSECONDS_PER_HOUR as int) + mi * (NANOSECONDS_PER_MINUTE as int) + s * (
            NANOSECONDS_PER_SECOND as int) + frac == ns
            &&& 0 <= h < 24
            &&& 0 <= mi < 60
            &&& 0 <= s < 60
            &&& 0 <= frac < NANOSECONDS_PER_SECOND
        }),
{
    vstd::arithmetic::div_mod::lemma_fundamental_div_mod(ns, NANOSECONDS_PER_HOUR as int);
    let rem_h = ns % (NANOSECONDS_PER_HOUR as int);
    vstd::arithmetic::div_mod::lemma_fundamental_div_mod(rem_h, NANOSECONDS_PER_MINUTE as int);
    let rem_mi = rem_h % (NANOSECONDS_PER_MINUTE as int);
    vstd::arithmetic::div_mod::lemma_fundamental_div_mod(rem_mi, NANOSECONDS_PER_SECOND as int);
}

/// Round trip: the date and time parts of a timestamp reassemble the
/// nanosecond count since the epoch.
pub proof fn lemma_timestamp_parts_roundtrip(ns: int)
    requires
        0 <= ns,
    ensures
        ({
            let days = ns / (NANOSECONDS_PER_DAY as int);
            let rem = ns % (NANOSECONDS_PER_DAY as int);
            let (y, m, d) = spec_civil_from_days(days);
            &&& spec_days_from_civil(y, m, d) * (NANOSECONDS_PER_DAY as int) + rem == ns
            &&& 0 <= rem < NANOSECONDS_PER_DAY
        }),
{
    vstd::arithmetic::div_mod::lemma_fundamental_div_mod(ns, NANOSECONDS_PER_DAY as int);
    let days = ns / (NANOSECONDS_PER_DAY as int);
    lemma_civil_days_roundtrip(days);
}

#[verifier::rlimit(50)]
fn is_leap_year(year: i64) -> (r: bool)
    requires
        0 <= year,
    ensures
        r == spec_is_leap_year(year as int),
{
    year % 4 == 0 && (year % 100 != 0 || year % 400 == 0)
}

fn days_in_month(month: i64, leap: bool) -> (r: i64)
    ensures
        r == spec_days_in_month(month as int, leap),
{
    if month == 2 {
        if leap {
            29
        } else {
            28
        }
    } else if month == 4 || month == 6 || month == 9 || month == 11 {
        30
    } else {
        31
    }
}

fn peel_years(days: i64, year: i64) -> (r: (i64, i64))
    requires
        0 <= days,
        1970 <= year,
        year + days <= 1_000_000_000,
    ensures
        (r.0 as int, r.1 as int) == spec_peel_years(days as int, year as int),
        1970 <= r.0 <= year + days,
        0 <= r.1 <= days,
    decreases days,
{
    let leap = is_leap_year(year);
    let days_in_year: i64 = if leap {
        366
    } else {
        365
    };
    if days >= 365 && days >= days_in_year {
        peel_years(days - days_in_year, year + 1)
    } else {
        (year, days)
    }
}

fn peel_months(day: i64, month: i64, leap: bool) -> (r: (i64, i64))
    requires
        1 <= month <= 12,
        -400 <= day <= 400,
    ensures
        (r.0 as int, r.1 as int) == spec_peel_months(day as int, month as int, leap),
        1 <= r.0 <= 12,
        -400 <= r.1 <= 400,
        1 <= day ==> 1 <= r.1 <= day,
    decreases 12 - month,
{
    let dim = days_in_month(month, leap);
    if month >= 12 || day <= dim {
        (month, day)
    } else {
        peel_months(day - dim, month + 1, leap)
    }
}

/// The (year, month, day) that `days` after 1970-01-01 falls on.
pub fn civil_from_days(days: i64) -> (r: (i64, i64, i64))
    requires
        0 <= days <= 100_000_000,
    ensures
        (r.0 as int, r.1 as int, r.2 as int) == spec_civil_from_days(days as int),
        1970 <= r.0 <= 1970 + days,
        1 <= r.1 <= 12,
        1 <= r.2 <= 366,
{
    let (year, rem) = peel_years(days, 1970);
    proof {
        lemma_peel_years_day_bound(days as int, 1970);
    }
    let leap = is_leap_year(year);
    let (month, day) = peel_months(rem + 1, 1, leap);
    (year, month, day)
}

/// After peeling years, the remaining day index is below the reached
/// year's length.
proof fn lemma_peel_years_day_bound(days: int, year: int)
    requires
        0 <= days,
    ensures
        spec_peel_years(days, year).1 < 366,
    decreases days,
{
    if days >= 365 && days >= spec_days_in_year(year) {
        lemma_peel_years_day_bound(days - spec_days_in_year(year), year + 1);
    }
}

/// Convert days since 1970-01-01 to a quoted SQL date literal.
pub fn days_to_date_string(days_since_epoch: i32) -> (r: String)
    requires
        0 <= days_since_epoch <= 100_000_000,
    ensures
        r@ == spec_date_string(days_since_epoch as int),
{
    let (y, m, d) = civil_from_days(days_since_epoch as i64);
    proof {
        reveal_strlit("'");
        reveal_strlit("-");
        lemma_peel_years_day_bound(days_since_epoch as int, 1970);
    }
    let mut s = "'".to_owned();
    s.append(u64_to_padded_string(y as u64, 4).as_str());
    s.append("-");
    s.append(u64_to_padded_string(m as u64, 2).as_str());
    s.append("-");
    s.append(u64_to_padded_string(d as u64, 2).as_str());
    s.append("'");
    assert(s@ =~= spec_date_string(days_since_epoch as int));
    s
}

/// The `HH:MM:SS.nnnnnnnnn` text for nanoseconds within one day.
pub fn time_of_day_fields(ns: i64) -> (r: String)
    requires
        0 <= ns < NANOSECONDS_PER_DAY,
    ensures
        r@ == spec_time_of_day_fields(ns as int),
{
    let hours = ns / NANOSECONDS_PER_HOUR;
    let rem_h = ns % NANOSECONDS_PER_HOUR;
    let minutes = rem_h / NANOSECONDS_PER_MINUTE;
    let rem_mi = rem_h % NANOSECONDS_PER_MINUTE;
    let seconds = rem_mi / NANOSECONDS_PER_SECOND;
    let frac = rem_mi % NANOSECONDS_PER_SECOND;
    proof {
        reveal_strlit(":");
        reveal_strlit(".");
    }
    let mut s = u64_to_padded_string(hours as u64, 2);
    s.append(":");
    s.append(u64_to_padded_string(minutes as u64, 2).as_str());
    s.append(":");
    s.append(u64_to_padded_string(seconds as u64, 2).as_str());
    s.append(".");
    s.append(u64_to_padded_string(frac as u64, 9).as_str());
    assert(s@ =~= spec_time_of_day_fields(ns as int));
    s
}

/// Convert nanoseconds since midnight to a quoted SQL time literal.
pub fn nanoseconds_to_time_string(ns: i64) -> (r: String)
    requires
        0 <= ns < NANOSECONDS_PER_DAY,
    ensures
        r@ == spec_time_string(ns as int),
{
    proof {
        reveal_strlit("'");
    }
    let mut s = "'".to_owned();
    s.append(time_of_day_fields(ns).as_str());
    s.append("'");
    assert(s@ =~= spec_time_string(ns as int));
    s
}

/// The unquoted `YYYY-MM-DD HH:MM:SS.nnnnnnnnn` text for nanoseconds
/// since the epoch.
pub fn timestamp_fields(nanoseconds_since_epoch: i64) -> (r: String)
    requires
        0 <= nanoseconds_since_epoch,
    ensures
        r@ == spec_timestamp_fields(nanoseconds_since_epoch as int),
{
    let days = nanoseconds_since_epoch / NANOSECONDS_PER_DAY;
    let rem = nanoseconds_since_epoch % NANOSECONDS_PER_DAY;
    let (y, m, d) = civil_from_days(days);
    proof {
        reveal_strlit("-");
        reveal_strlit(" ");
        lemma_peel_years_day_bound(days as int, 1970);
    }
    let mut s = u64_to_padded_string(y as u64, 4);
    s.append("-");
    s.append(u64_to_padded_string(m as u64, 2).as_str());
    s.append("-");
    s.append(u64_to_padded_string(d as u64, 2).as_str());
    s.append(" ");
    s.append(time_of_day_fields(rem).as_str());
    assert(s@ =~= spec_timestamp_fields(nanoseconds_since_epoch as int));
    s
}

/// Convert nanoseconds since the epoch to a quoted SQL timestamp
/// literal.
pub fn nanoseconds_to_timestamp_string(nanoseconds_since_epoch: i64) -> (r: String)
    requires
        0 <= nanoseconds_since_epoch,
    ensures
        r@ == spec_timestamp_string(nanoseconds_since_epoch as int),
{
    proof {
        reveal_strlit("'");
    }
    let mut s = "'".to_owned();
    s.append(timestamp_fields(nanoseconds_since_epoch).as_str());
    s.append("'");
    assert(s@ =~= spec_timestamp_string(nanoseconds_since_epoch as int));
    s
}

} // verus!
