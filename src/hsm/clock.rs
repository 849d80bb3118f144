use vstd::prelude::*;
use crate::hsm::types::RtcTime;

verus! {

/// Days from 1970-01-01 beyond which a reading is not converted (the year
/// would approach the 16-bit limit of the clock format).
pub const MAX_EPOCH_DAYS: u64 = 20_000_000;

/// Gregorian leap years.
pub open spec fn is_leap(y: int) -> bool {
    (y % 4 == 0 && y % 100 != 0) || y % 400 == 0
}

pub open spec fn year_length(y: int) -> int {
    if is_leap(y) {
        366
    } else {
        365
    }
}

/// Days from 1970-01-01 to the first day of year `y`.
pub open spec fn days_before_year(y: int) -> int
    decreases y - 1970,
{
    if y <= 1970 {
        0
    } else {
        days_before_year(y - 1) + year_length(y - 1)
    }
}

pub open spec fn month_length(y: int, m: int) -> int {
    if m == 2 {
        if is_leap(y) {
            29
        } else {
            28
        }
    } else if m == 4 || m == 6 || m == 9 || m == 11 {
        30
    } else {
        31
    }
}

/// Days from the first of January to the first day of month `m` of year `y`.
pub open spec fn days_before_month(y: int, m: int) -> int
    decreases m,
{
    if m <= 1 {
        0
    } else {
        days_before_month(y, m - 1) + month_length(y, m - 1)
    }
}

/// `t` is the UTC calendar reading of `secs` seconds after the Unix epoch
/// (1970-01-01, a Thursday).
pub open spec fn spec_utc_reading(t: RtcTime, secs: nat) -> bool {
    let days = secs / 86400;
    let rem = secs % 86400;
    &&& t.year >= 1970
    &&& 1 <= t.month <= 12
    &&& 1 <= t.day <= month_length(t.year as int, t.month as int)
    &&& days_before_year(t.year as int) + days_before_month(t.year as int, t.month as int) + t.day
        - 1 == days
    &&& t.hour == rem / 3600
    &&& t.minute == (rem / 60) % 60
    &&& t.second == rem % 60
    &&& t.weekday == (days + 4) % 7
}

proof fn lemma_months_fill_year(y: int)
    ensures
        days_before_month(y, 13) == year_length(y),
{
    reveal_with_fuel(days_before_month, 13);
}

fn leap(y: u16) -> (r: bool)
    ensures
        r == is_leap(y as int),
{
    (y % 4 == 0 && y % 100 != 0) || y % 400 == 0
}

fn days_in_year(y: u16) -> (r: u64)
    ensures
        r as int == year_length(y as int),
{
    if leap(y) {
        366
    } else {
        365
    }
}

/// The UTC calendar reading of a Unix time, for the token's clock; `None`
/// when the day count reaches `MAX_EPOCH_DAYS`.
pub fn rtc_from_unix_seconds(secs: u64) -> (r: Option<RtcTime>)
    ensures
        r is None <==> secs / 86400 >= MAX_EPOCH_DAYS,
        r is Some ==> spec_utc_reading(r->Some_0, secs as nat),
{
    let days: u64 = secs / 86400;
    if days >= MAX_EPOCH_DAYS {
        return None;
    }
    let rem_secs: u64 = secs % 86400;
    let mut year: u16 = 1970;
    let mut rem: u64 = days;
    while rem >= days_in_year(year)
        invariant
            year >= 1970,
            days < MAX_EPOCH_DAYS,
            rem + days_before_year(year as int) == days,
            days_before_year(year as int) >= 365 * (year - 1970),
        decreases rem,
    {
        rem = rem - days_in_year(year);
        proof {
            assert(days_before_year(year + 1) == days_before_year(year as int) + year_length(
                year as int,
            ));
        }
        year = year + 1;
    }
    let ghost in_year = rem;
    proof {
        lemma_months_fill_year(year as int);
    }
    let mut month: u8 = 1;
    loop
        invariant
            1 <= month <= 12,
            in_year < year_length(year as int),
            rem + days_before_month(year as int, month as int) == in_year,
            days_before_month(year as int, 13) == year_length(year as int),
        ensures
            1 <= month <= 12,
            rem < month_length(year as int, month as int),
            rem + days_before_month(year as int, month as int) == in_year,
        decreases rem,
    {
        let len: u64 = if month == 2 {
            if leap(year) { 29 } else { 28 }
        } else if month == 4 || month == 6 || month == 9 || month == 11 {
            30
        } else {
            31
        };
        if rem < len {
            break;
        }
        rem = rem - len;
        proof {
            assert(days_before_month(year as int, month + 1) == days_before_month(
                year as int,
                month as int,
            ) + month_length(year as int, month as int));
        }
        month = month + 1;
    }
    let t = RtcTime {
        year,
        month,
        day: (rem + 1) as u8,
        weekday: ((days + 4) % 7) as u8,
        hour: (rem_secs / 3600) as u8,
        minute: ((rem_secs / 60) % 60) as u8,
        second: (rem_secs % 60) as u8,
    };
    Some(t)
}

} // verus!
