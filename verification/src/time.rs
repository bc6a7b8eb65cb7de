//! Wall-clock time kept without a real-time clock: conversion of Unix
//! seconds to a calendar date in the Central European time zone, and the
//! minute tick.

use vstd::prelude::*;

verus! {

/// A calendar date and time of day.
#[derive(Debug, Clone, Copy)]
pub struct DateTime {
    pub seconds: u8,
    pub minutes: u8,
    pub hours: u8,
    pub day: u8,
    pub weekday: u8,
    pub month: u8,
    /// 0-99 (2000-2099)
    pub year: u8,
}

impl DateTime {
    pub fn new(year: u8, month: u8, day: u8, hours: u8, minutes: u8, seconds: u8) -> (r: Self)
        ensures
            r.year == year,
            r.month == month,
            r.day == day,
            r.hours == hours,
            r.minutes == minutes,
            r.seconds == seconds,
            r.weekday == 0,
    {
        Self { seconds, minutes, hours, day, weekday: 0, month, year }
    }

    /// Minutes since midnight.
    pub open spec fn minute_of_day(self) -> int {
        self.hours * 60 + self.minutes
    }

    /// Hours below 24 and minutes below 60.
    pub open spec fn valid_clock(self) -> bool {
        self.hours < 24 && self.minutes < 60
    }
}

/// The clock one minute later: seconds become 0, minutes roll over into
/// hours at 60 and hours roll over to 0 at 24; the date stays.
pub open spec fn tick(d: DateTime) -> DateTime {
    if d.minutes + 1 < 60 {
        DateTime { seconds: 0, minutes: (d.minutes + 1) as u8, ..d }
    } else {
        DateTime { seconds: 0, minutes: 0, hours: if d.hours + 1 < 24 { (d.hours + 1) as u8 } else { 0 }, ..d }
    }
}

/// The clock after `n` minute ticks.
pub open spec fn ticks(d: DateTime, n: nat) -> DateTime
    decreases n,
{
    if n == 0 {
        d
    } else {
        tick(ticks(d, (n - 1) as nat))
    }
}

/// Advances the clock by one minute: seconds become 0, minutes roll over
/// into hours at 60 and hours roll over to 0 at 24. The date is left as it
/// is.
pub fn up_one_min(dt: &mut DateTime)
    requires
        old(dt).minutes < 255,
        old(dt).minutes + 1 >= 60 ==> old(dt).hours < 255,
    ensures
        final(dt).seconds == 0,
        final(dt).day == old(dt).day,
        final(dt).weekday == old(dt).weekday,
        final(dt).month == old(dt).month,
        final(dt).year == old(dt).year,
        old(dt).minutes + 1 < 60 ==> final(dt).minutes == old(dt).minutes + 1 && final(dt).hours
            == old(dt).hours,
        old(dt).minutes + 1 >= 60 ==> final(dt).minutes == 0 && final(dt).hours == (if old(
            dt,
        ).hours + 1 < 24 {
            old(dt).hours + 1
        } else {
            0
        }),
        *final(dt) == tick(*old(dt)),
{
    dt.seconds = 0;
    dt.minutes = dt.minutes + 1;
    if dt.minutes < 60 {
        return ;
    }
    dt.minutes = 0;
    dt.hours = dt.hours + 1;
    if dt.hours < 24 {
        return ;
    }
    dt.hours = 0;
}

/// The minute tick keeps a valid clock valid and moves it one minute
/// forward, wrapping at midnight.
pub proof fn lemma_up_one_min_advances(old_dt: DateTime, new_dt: DateTime)
    requires
        old_dt.valid_clock(),
        new_dt.seconds == 0,
        old_dt.minutes + 1 < 60 ==> new_dt.minutes == old_dt.minutes + 1 && new_dt.hours
            == old_dt.hours,
        old_dt.minutes + 1 >= 60 ==> new_dt.minutes == 0 && new_dt.hours == (if old_dt.hours + 1
            < 24 {
            old_dt.hours + 1
        } else {
            0
        }),
    ensures
        new_dt.valid_clock(),
        new_dt.minute_of_day() == (old_dt.minute_of_day() + 1) % 1440,
{
}

/// Any number `n` of minute ticks from a valid clock keeps it valid, moves
/// it `n` minutes forward modulo a day, leaves the date as it is, and (for
/// `n > 0`) leaves the seconds at 0.
pub proof fn lemma_ticks_advance(d0: DateTime, n: nat)
    requires
        d0.valid_clock(),
    ensures
        ticks(d0, n).valid_clock(),
        ticks(d0, n).minute_of_day() == (d0.minute_of_day() + n) % 1440,
        n > 0 ==> ticks(d0, n).seconds == 0,
        ticks(d0, n).day == d0.day && ticks(d0, n).weekday == d0.weekday && ticks(d0, n).month
            == d0.month && ticks(d0, n).year == d0.year,
    decreases n,
{
    if n > 0 {
        lemma_ticks_advance(d0, (n - 1) as nat);
        let prev = ticks(d0, (n - 1) as nat);
        lemma_up_one_min_advances(prev, tick(prev));
        let a = d0.minute_of_day() + n - 1;
        assert(((a % 1440) + 1) % 1440 == (a + 1) % 1440) by {
            vstd::arithmetic::div_mod::lemma_add_mod_noop(a, 1, 1440);
        }
    }
}

/// An hour of minute ticks from a valid clock at a whole minute gives the
/// same minute of the next hour; a day of them gives the clock back.
pub proof fn lemma_hour_and_day_of_ticks(d0: DateTime)
    requires
        d0.valid_clock(),
        d0.seconds == 0,
    ensures
        ticks(d0, 60).minutes == d0.minutes,
        ticks(d0, 60).hours == (d0.hours + 1) % 24,
        ticks(d0, 1440) == d0,
{
    lemma_ticks_advance(d0, 60);
    lemma_ticks_advance(d0, 1440);
    let h = ticks(d0, 60);
    let d = ticks(d0, 1440);
    assert(h.minutes == d0.minutes && h.hours == (d0.hours + 1) % 24) by {
        if d0.hours + 1 < 24 {
            assert((d0.minute_of_day() + 60) % 1440 == d0.minute_of_day() + 60);
        } else {
            assert((d0.minute_of_day() + 60) % 1440 == d0.minutes);
        }
    }
    assert((d0.minute_of_day() + 1440) % 1440 == d0.minute_of_day());
}

/// Gregorian leap year rule.
pub open spec fn is_leap(year: int) -> bool {
    year % 4 == 0 && (year % 100 != 0 || year % 400 == 0)
}

pub open spec fn days_in_year(year: int) -> int {
    if is_leap(year) {
        366
    } else {
        365
    }
}

/// Length of month `m` (0 = January).
pub open spec fn month_len(leap: bool, m: int) -> int {
    if m == 1 {
        if leap {
            29
        } else {
            28
        }
    } else if m == 3 || m == 5 || m == 8 || m == 10 {
        30
    } else {
        31
    }
}

/// Walks whole years forward from `year`, consuming `days`: the year in
/// which the day falls and the day's index within that year.
pub open spec fn year_and_day(days: int, year: int) -> (int, int)
    decreases days,
{
    if days < days_in_year(year) {
        (year, days)
    } else {
        year_and_day(days - days_in_year(year), year + 1)
    }
}

/// Walks whole months forward from month `m`, consuming `days`: the month
/// and the day's index within it.
pub open spec fn month_and_day(days: int, leap: bool, m: int) -> (int, int)
    decreases 12 - m,
{
    if m < 12 && days >= month_len(leap, m) {
        month_and_day(days - month_len(leap, m), leap, m + 1)
    } else {
        (m, days)
    }
}

/// The date of a day count since 1970-01-01: year, month (1-12) and day
/// (1-31), each taken as the `u32` that the firmware reports.
pub open spec fn date_of_days(days: int) -> (u32, u32, u32) {
    let (y, rem) = year_and_day(days, 1970);
    let (m, d) = month_and_day(rem, is_leap(y), 0);
    (y as u32, (m + 1) as u32, (d + 1) as u32)
}

fn is_leap_year(year: i32) -> (r: bool)
    ensures
        r == is_leap(year as int),
{
    year % 4 == 0 && (year % 100 != 0 || year % 400 == 0)
}

// CONVERT DAYS SINCE UNIX EPOCH (1970-01-01) TO YEAR, MONTH, DAY.
fn days_to_date(days: i32) -> (r: (u32, u32, u32))
    ensures
        r == date_of_days(days as int),
{
    let ghost orig = days as int;
    let mut days = days;
    let mut year: i32 = 1970;
    loop
        invariant
            1970 <= year,
            (year - 1970) * 365 <= orig - days,
            orig <= i32::MAX,
            year_and_day(days as int, year as int) == year_and_day(orig, 1970),
        ensures
            1970 <= year,
            year_and_day(orig, 1970) == (year as int, days as int),
            days < days_in_year(year as int),
        decreases days,
    {
        let days_in_year: i32 = if is_leap_year(year) {
            366
        } else {
            365
        };
        if days < days_in_year {
            break ;
        }
        days = days - days_in_year;
        year = year + 1;
    }
    let leap = is_leap_year(year);
    let month_days: [i32; 12] = [
        31,
        if leap {
            29
        } else {
            28
        },
        31,
        30,
        31,
        30,
        31,
        31,
        30,
        31,
        30,
        31,
    ];
    let mut month: usize = 0;
    while month < 12 && days >= month_days[month]
        invariant
            month <= 12,
            forall|k: int| 0 <= k < 12 ==> month_days[k] == month_len(leap, k),
            month_and_day(days as int, leap, month as int) == month_and_day(
                year_and_day(orig, 1970).1,
                is_leap(year as int),
                0,
            ),
            leap == is_leap(year as int),
            year_and_day(orig, 1970).0 == year as int,
            days < 366,
        decreases 12 - month,
    {
        days = days - month_days[month];
        month = month + 1;
    }
    (year as u32, (month + 1) as u32, #[verifier::truncate] ((days + 1) as u32))
}


/// Rust's integer division, which rounds toward zero.
pub open spec fn trunc_div(a: int, b: int) -> int
    recommends
        b > 0,
{
    if a >= 0 {
        a / b
    } else {
        -((-a) / b)
    }
}

/// Rust's remainder, which takes the sign of the dividend.
pub open spec fn trunc_rem(a: int, b: int) -> int
    recommends
        b > 0,
{
    a - b * trunc_div(a, b)
}

/// Calendar date and time of day of `secs` seconds since the Unix epoch,
/// each part taken as the `u32` that the firmware reports.
pub open spec fn datetime_of_secs(secs: int) -> (u32, u32, u32, u32, u32, u32) {
    let days = trunc_div(secs, 86400) as i32;
    let rem = trunc_rem(secs, 86400);
    let (year, month, day) = date_of_days(days as int);
    (
        year,
        month,
        day,
        trunc_div(rem, 3600) as u32,
        trunc_div(trunc_rem(rem, 3600), 60) as u32,
        trunc_rem(rem, 60) as u32,
    )
}

fn unix_to_datetime(secs: i64) -> (r: (u32, u32, u32, u32, u32, u32))
    ensures
        r == datetime_of_secs(secs as int),
{
    let days = #[verifier::truncate] ((secs / 86400) as i32);
    let rem = secs % 86400;
    let hour = #[verifier::truncate] ((rem / 3600) as u32);
    let minute = #[verifier::truncate] (((rem % 3600) / 60) as u32);
    let second = #[verifier::truncate] ((rem % 60) as u32);
    let (year, month, day) = days_to_date(days);
    (year, month, day, hour, minute, second)
}


/// Day of the month of the last Sunday of March and October, tabulated for
/// 2025-2027; any other year gets 31.
pub open spec fn last_sunday(year: int, month: int) -> u32 {
    if year == 2025 && month == 3 {
        30
    } else if year == 2025 && month == 10 {
        26
    } else if year == 2026 && month == 3 {
        29
    } else if year == 2026 && month == 10 {
        25
    } else if year == 2027 && month == 3 {
        28
    } else if year == 2027 && month == 10 {
        31
    } else {
        31
    }
}

/// Central European Summer Time: April-September entirely, March from
/// 02:00 on its last Sunday, October until 03:00 on its last Sunday.
pub open spec fn summer_time(year: int, month: int, day: int, hour: int) -> bool {
    (3 < month && month < 10) || (month == 3 && (day > last_sunday(year, 3) || (day
        == last_sunday(year, 3) && hour >= 2))) || (month == 10 && (day < last_sunday(year, 10)
        || (day == last_sunday(year, 10) && hour < 3)))
}

/// Offset in seconds from UTC to Central European time at `secs` seconds
/// since the epoch: 7200 in summer time, else 3600.
pub open spec fn tz_offset(secs: int) -> i32 {
    let (year, month, day, hour, _m, _s) = datetime_of_secs(secs);
    if summer_time((year as i32) as int, month as int, day as int, hour as int) {
        7200
    } else {
        3600
    }
}

fn last_sunday_of_month(year: i32, month: u32) -> (r: u32)
    ensures
        r == last_sunday(year as int, month as int),
{
    // HARDCODED FOR 2025-2027
    match (year, month) {
        (2025, 3) => 30,
        (2025, 10) => 26,
        (2026, 3) => 29,
        (2026, 10) => 25,
        (2027, 3) => 28,
        (2027, 10) => 31,
        _ => 31,  // SAFE FALLBACK (LAST DAY OF MARCH/OCTOBER IS AT LEAST 25)
    }
}

fn is_summer_time(year: i32, month: u32, day: u32, hour: u32) -> (r: bool)
    ensures
        r == summer_time(year as int, month as int, day as int, hour as int),
{
    let mar_last_sun = last_sunday_of_month(year, 3);
    let oct_last_sun = last_sunday_of_month(year, 10);
    if month > 3 && month < 10 {
        return true;
    }
    if month == 3 {
        if day > mar_last_sun {
            return true;
        }
        if day == mar_last_sun && hour >= 2 {
            return true;
        }
    }
    if month == 10 {
        if day < oct_last_sun {
            return true;
        }
        if day == oct_last_sun && hour < 3 {
            return true;
        }
    }
    false
}

// RETURN OFFSET IN SECONDS (POSITIVE FOR UTC+1 OR +2)
fn timezone_offset(unix_secs: i64) -> (r: i32)
    ensures
        r == tz_offset(unix_secs as int),
{
    let (year, month, day, hour, _, _) = unix_to_datetime(unix_secs);
    let is_summer = is_summer_time(#[verifier::truncate] (year as i32), month, day, hour);
    if is_summer {
        7200
    } else {
        3600
    }
}

/// The local date and time that an NTP server's answer gives: the
/// transmit timestamp (big-endian seconds since 1900 at bytes 40..44) is
/// turned into Unix seconds (modulo 2^32), shifted into Central European
/// time and split into a `DateTime` with a two-digit year.
pub open spec fn ntp_local_datetime(response: Seq<u8>) -> DateTime
    recommends
        response.len() >= 48,
{
    let ntp_secs = response[40] * 16777216 + response[41] * 65536 + response[42] * 256
        + response[43];
    let unix_secs = (ntp_secs - 2_208_988_800) % 0x1_0000_0000;
    let local_secs = unix_secs + tz_offset(unix_secs);
    let (year, month, day, hour, minute, second) = datetime_of_secs(local_secs);
    DateTime {
        seconds: second as u8,
        minutes: minute as u8,
        hours: hour as u8,
        day: day as u8,
        weekday: 0,
        month: month as u8,
        year: (year % 100) as u8,
    }
}

/// The NTP request: 48 bytes, the first holding leap indicator 0,
/// version 3 and mode 3 (client), the rest zero.
pub fn ntp_request() -> (r: [u8; 48])
    ensures
        r[0] == 0x1B,
        forall|i: int| 1 <= i < 48 ==> r[i] == 0,
{
    let mut req = [0u8; 48];
    req[0] = 0x1B;
    req
}

/// Computes the time that an NTP exchange sets: `received` is the number of
/// bytes that arrived in `response`. An answer shorter than 48 bytes is
/// rejected with `None`.
#[verifier::spinoff_prover]
#[verifier::rlimit(40)]
pub fn ntp_time_from_response(response: &[u8], received: usize) -> (r: Option<DateTime>)
    requires
        response.len() >= 48,
    ensures
        received < 48 ==> r is None,
        received >= 48 ==> r == Some(ntp_local_datetime(response@)),
{
    if received < 48 {
        return None;
    }
    let ntp_secs: u32 = (response[40] as u32) * 16777216 + (response[41] as u32) * 65536
        + (response[42] as u32) * 256 + (response[43] as u32);
    let unix_secs = ntp_secs.wrapping_sub(2_208_988_800) as i64;
    let local_secs = unix_secs + timezone_offset(unix_secs) as i64;
    let (year, month, day, hour, minute, second) = unix_to_datetime(local_secs);
    Some(
        DateTime {
            seconds: #[verifier::truncate] (second as u8),
            minutes: #[verifier::truncate] (minute as u8),
            hours: #[verifier::truncate] (hour as u8),
            day: #[verifier::truncate] (day as u8),
            weekday: 0,
            month: #[verifier::truncate] (month as u8),
            year: #[verifier::truncate] ((year % 100) as u8),
        },
    )
}


/// Days from 1970-01-01 to the first day of `year`.
pub open spec fn days_before_year(year: int) -> int
    decreases year - 1970,
{
    if year <= 1970 {
        0
    } else {
        days_before_year(year - 1) + days_in_year(year - 1)
    }
}

/// Days in the months before month `m` (0 = January).
pub open spec fn days_before_month(leap: bool, m: int) -> int
    decreases m,
{
    if m <= 0 {
        0
    } else {
        days_before_month(leap, m - 1) + month_len(leap, m - 1)
    }
}

/// Days from 1970-01-01 to the date `year`-`month`-`day` (month and day
/// counted from 1).
pub open spec fn days_of_date(year: int, month: int, day: int) -> int {
    days_before_year(year) + days_before_month(is_leap(year), month - 1) + day - 1
}

proof fn lemma_year_and_day(days: int, year: int)
    requires
        days >= 0,
        year >= 1970,
    ensures
        year_and_day(days, year).0 >= year,
        days_before_year(year_and_day(days, year).0) + year_and_day(days, year).1
            == days_before_year(year) + days,
        0 <= year_and_day(days, year).1 < days_in_year(year_and_day(days, year).0),
    decreases days,
{
    if days >= days_in_year(year) {
        lemma_year_and_day(days - days_in_year(year), year + 1);
    }
}

proof fn lemma_days_before_month_total(leap: bool)
    ensures
        days_before_month(leap, 12) == (if leap {
            366int
        } else {
            365int
        }),
{
    reveal_with_fuel(days_before_month, 13);
}

proof fn lemma_month_and_day(r: int, leap: bool, m0: int)
    requires
        0 <= m0 <= 12,
        r >= 0,
        days_before_month(leap, m0) + r < days_before_month(leap, 12),
    ensures
        0 <= month_and_day(r, leap, m0).0 < 12,
        0 <= month_and_day(r, leap, m0).1 < month_len(leap, month_and_day(r, leap, m0).0),
        days_before_month(leap, month_and_day(r, leap, m0).0) + month_and_day(r, leap, m0).1
            == days_before_month(leap, m0) + r,
    decreases 12 - m0,
{
    if m0 < 12 && r >= month_len(leap, m0) {
        lemma_month_and_day(r - month_len(leap, m0), leap, m0 + 1);
    } else if m0 == 12 {
        assert(false);
    }
}

/// Every day count from 1970-01-01 on is turned into a valid date (month
/// 1-12, day within the month), and counting the days up to that date gives
/// the day count back.
pub proof fn lemma_date_of_days_inverse(days: int)
    requires
        0 <= days <= i32::MAX,
    ensures
        ({
            let (y, m, d) = date_of_days(days);
            &&& 1 <= m <= 12
            &&& 1 <= d <= month_len(is_leap(y as int), m - 1)
            &&& days_of_date(y as int, m as int, d as int) == days
        }),
{
    let (y, rem) = year_and_day(days, 1970);
    lemma_year_and_day(days, 1970);
    assert(days_before_year(1970) == 0);
    lemma_days_before_month_total(is_leap(y));
    lemma_month_and_day(rem, is_leap(y), 0);
    assert(days_before_month(is_leap(y), 0) == 0);
    let (m, d) = month_and_day(rem, is_leap(y), 0);
    lemma_days_before_year_grows(y);
    assert(y <= 1970 + days);
}

/// The first day of each month within a year, counted from 0 (1 January),
/// by the Gregorian calendar: month `m` (0 = January) starts on day
/// `gregorian_month_starts(leap)[m]`, and entry 12 is the year's length.
pub open spec fn gregorian_month_starts(leap: bool) -> Seq<int> {
    let l: int = if leap { 1 } else { 0 };
    seq![0, 31, 59 + l, 90 + l, 120 + l, 151 + l, 181 + l, 212 + l, 243 + l, 273 + l, 304 + l, 334 + l, 365 + l]
}

/// The months of the date conversion are those of the Gregorian calendar:
/// 31 days in January, 28 (29 in a leap year) in February, 31 in March, 30
/// in April, 31 in May, 30 in June, 31 in July and August, 30 in September,
/// 31 in October, 30 in November and 31 in December.
pub proof fn lemma_gregorian_months(leap: bool)
    ensures
        forall|m: int| 0 <= m <= 12 ==> #[trigger] days_before_month(leap, m) == gregorian_month_starts(leap)[m],
{
    reveal_with_fuel(days_before_month, 13);
    assert forall|m: int| 0 <= m <= 12 implies #[trigger] days_before_month(leap, m) == gregorian_month_starts(leap)[m] by {
        if m == 0 {
        } else if m == 1 {
        } else if m == 2 {
        } else if m == 3 {
        } else if m == 4 {
        } else if m == 5 {
        } else if m == 6 {
        } else if m == 7 {
        } else if m == 8 {
        } else if m == 9 {
        } else if m == 10 {
        } else if m == 11 {
        } else {
        }
    }
}

/// Every day count from 1970-01-01 on falls on a Gregorian date: its day
/// lies within the month's length, and the count is the days before its
/// year, plus the Gregorian start of its month, plus the day less one. So
/// 334 days into a common year is 1 December, and 30 November is the last
/// day of November.
pub proof fn lemma_date_of_days_is_gregorian(days: int)
    requires
        0 <= days <= i32::MAX,
    ensures
        ({
            let (y, m, d) = date_of_days(days);
            let starts = gregorian_month_starts(is_leap(y as int));
            &&& 1 <= m <= 12
            &&& 1 <= d <= starts[m as int] - starts[m - 1]
            &&& days == days_before_year(y as int) + starts[m - 1] + d - 1
        }),
{
    lemma_date_of_days_inverse(days);
    let (y, m, d) = date_of_days(days);
    lemma_gregorian_months(is_leap(y as int));
    assert(days_before_month(is_leap(y as int), m as int) == days_before_month(is_leap(y as int), m - 1)
        + month_len(is_leap(y as int), m - 1));
}

proof fn lemma_days_before_year_grows(y: int)
    requires
        y >= 1970,
    ensures
        days_before_year(y) >= 365 * (y - 1970),
    decreases y - 1970,
{
    if y > 1970 {
        lemma_days_before_year_grows(y - 1);
    }
}

} // verus!
