use vstd::prelude::*;
use chrono::Datelike;
use chrono::TimeZone;

verus! {

// ---------------------------------------------------------------------------
// UTC calendar arithmetic (the `chrono` crate)
// ---------------------------------------------------------------------------

/// Whether `year` is a leap year of the proleptic Gregorian calendar.
pub open spec fn is_leap_year(year: int) -> bool {
    (year % 4 == 0 && year % 100 != 0) || year % 400 == 0
}

/// The number of days in a month of the proleptic Gregorian calendar.
pub open spec fn days_in_month(year: int, month: int) -> int {
    if month == 2 {
        if is_leap_year(year) {
            29
        } else {
            28
        }
    } else if month == 4 || month == 6 || month == 9 || month == 11 {
        30
    } else {
        31
    }
}

/// Whether (year, month, day) names a day of the proleptic Gregorian calendar.
pub open spec fn is_valid_date(year: int, month: int, day: int) -> bool {
    1 <= month <= 12 && 1 <= day <= days_in_month(year, month)
}

/// The number of days from 1970-01-01 to a date of the proleptic Gregorian calendar
/// (negative before it): whole 400-year eras of 146097 days, then the years, months and days
/// of the era counted from the 1st of March, so that a leap day falls at the era's end.
pub open spec fn days_from_civil(year: int, month: int, day: int) -> int {
    let y = if month <= 2 {
        year - 1
    } else {
        year
    };
    let era = y / 400;
    let year_of_era = y - era * 400;
    let month_from_march = if month > 2 {
        month - 3
    } else {
        month + 9
    };
    let day_of_year = (153 * month_from_march + 2) / 5 + day - 1;
    let day_of_era = year_of_era * 365 + year_of_era / 4 - year_of_era / 100 + day_of_year;
    era * 146097 + day_of_era - 719468
}

/// Whether chrono's dates reach a year: from -262143 to 262142.
pub open spec fn year_in_range(year: int) -> bool {
    -262143 <= year <= 262142
}

/// Whether a day, counted from 1970-01-01, falls within chrono's dates.
pub open spec fn day_in_range(day: int) -> bool {
    days_from_civil(-262143, 1, 1) <= day <= days_from_civil(262142, 12, 31)
}

/// Whether chrono reads `secs` seconds and `nanos` nanoseconds after the UNIX epoch as an
/// instant: its day is in range, and the nanoseconds are under a billion, or under two billion
/// in the last second of a minute (a leap second).
pub open spec fn is_valid_instant(secs: int, nanos: int) -> bool {
    &&& day_in_range(secs / 86400)
    &&& (nanos < 1_000_000_000 || (nanos < 2_000_000_000 && secs % 60 == 59))
}

/// The UTC calendar date (year, month, day) of a UNIX timestamp in seconds, as
/// `chrono::DateTime::<Utc>::from_timestamp` reads it; `None` outside chrono's range.
pub uninterp spec fn utc_date_of(secs: int) -> Option<(i32, u32, u32)>;

/// Calls `chrono::DateTime::<Utc>::from_timestamp` and reads the date's year, month and day.
/// Its result is named by `utc_date_of`. chrono counts days in the proleptic Gregorian
/// calendar with 1970-01-01 as day 0, and `from_timestamp` fails exactly where the day is
/// outside its range; the date it gives is that day.
#[verifier::external_body]
pub(crate) fn utc_date(secs: i64) -> (res: Option<(i32, u32, u32)>)
    ensures
        res == utc_date_of(secs as int),
        res is Some <==> day_in_range(secs / 86400),
        res matches Some((y, m, d)) ==> {
            &&& is_valid_date(y as int, m as int, d as int)
            &&& year_in_range(y as int)
            &&& days_from_civil(y as int, m as int, d as int) == secs / 86400
        },
{
    chrono::DateTime::<chrono::Utc>::from_timestamp(secs, 0).map(|t| (t.year(), t.month(), t.day()))
}

/// Calls `chrono::Utc.with_ymd_and_hms(year, month, day, 0, 0, 0)` and reads the timestamp of
/// the single result: there is one exactly where the date exists and its year is in chrono's
/// range, and it is midnight (UTC) at the start of that day.
#[verifier::external_body]
pub(crate) fn utc_midnight(year: i32, month: u32, day: u32) -> (res: Option<i64>)
    ensures
        res is Some <==> (is_valid_date(year as int, month as int, day as int) && year_in_range(year as int)),
        res matches Some(s) ==> s == 86400 * days_from_civil(year as int, month as int, day as int),
{
    chrono::Utc.with_ymd_and_hms(year, month, day, 0, 0, 0).single().map(|t| t.timestamp())
}

/// The instant `days` whole days before the instant `secs` seconds and `nanos` nanoseconds
/// after the UNIX epoch, as chrono computes it: `days` times 86400 seconds earlier with the same
/// nanoseconds, except that an instant inside a leap second (`nanos` of a billion or more)
/// first leaves the leap second for the start of the next second when it moves at all.
pub open spec fn days_back(secs: int, nanos: int, days: int) -> (int, int) {
    if nanos >= 1_000_000_000 && days > 0 {
        (secs + 1 - 86400 * days, nanos - 1_000_000_000)
    } else {
        (secs - 86400 * days, nanos)
    }
}

/// Calls `chrono::DateTime::checked_sub_signed` with `TimeDelta::days(days)` on the given
/// instant. It succeeds exactly where chrono reads the instant and the day it lands on is in
/// range; the result is then `days_back` of the instant (chrono's
/// `NaiveTime::overflowing_add_signed` moves an instant out of a leap second before it
/// subtracts whole seconds).
#[verifier::external_body]
pub(crate) fn utc_days_back(secs: i64, nanos: u32, days: u32) -> (res: Option<(i64, u32)>)
    ensures
        res is Some <==> (is_valid_instant(secs as int, nanos as int) && day_in_range(days_back(secs as int, nanos as int, days as int).0 / 86400)),
        res matches Some((s, n)) ==> (s as int, n as int) == days_back(
            secs as int,
            nanos as int,
            days as int,
        ),
{
    chrono::DateTime::<chrono::Utc>::from_timestamp(secs, nanos).and_then(
        |t| t.checked_sub_signed(chrono::TimeDelta::days(days as i64)),
    ).map(|t| (t.timestamp(), t.timestamp_subsec_nanos()))
}

// ---------------------------------------------------------------------------
// Report windows
// ---------------------------------------------------------------------------

/// The start of the period that a report covers.
pub enum ReportWindow {
    /// Midnight (UTC) at the start of the current day.
    StartOfToday,
    /// Midnight (UTC) on the first day of the current month.
    StartOfMonth,
    /// The current instant, this many days back.
    LastDays(u32),
}

/// The instant (seconds and nanoseconds after the UNIX epoch) at which a report window
/// starts, seen from the instant `now`; `None` where chrono has no such instant.
pub open spec fn window_start_of(now_secs: i64, now_nanos: u32, window: ReportWindow) -> Option<
    (int, int),
> {
    let today = now_secs / 86400;
    match window {
        ReportWindow::StartOfToday => if day_in_range(today) {
            Some((86400 * today, 0int))
        } else {
            None
        },
        ReportWindow::StartOfMonth => match utc_date_of(now_secs as int) {
            Some((y, m, _d)) => Some((86400 * days_from_civil(y as int, m as int, 1), 0int)),
            None => None,
        },
        ReportWindow::LastDays(n) => if is_valid_instant(now_secs as int, now_nanos as int)
            && day_in_range(days_back(now_secs as int, now_nanos as int, n as int).0 / 86400) {
            Some(days_back(now_secs as int, now_nanos as int, n as int))
        } else {
            None
        },
    }
}

/// Midnight at the start of the day of an instant is at or before it, less than a day before.
proof fn lemma_midnight_before(secs: int)
    ensures
        86400 * (secs / 86400) <= secs < 86400 * (secs / 86400) + 86400,
        (86400 * (secs / 86400)) % 86400 == 0,
{
    assert(86400 * (secs / 86400) <= secs < 86400 * (secs / 86400) + 86400) by (nonlinear_arith);
    assert((86400 * (secs / 86400)) % 86400 == 0) by (nonlinear_arith);
}

/// Day `day` of a month comes `day - 1` days after its first day.
proof fn lemma_days_into_month(year: int, month: int, day: int)
    ensures
        days_from_civil(year, month, day) == days_from_civil(year, month, 1) + day - 1,
{
}

/// An optional instant as mathematical integers.
pub open spec fn instant_view(i: Option<(i64, u32)>) -> Option<(int, int)> {
    match i {
        Some((s, n)) => Some((s as int, n as int)),
        None => None,
    }
}

/// Where a report window starts, seen from the instant `now`.
pub fn window_start(now_secs: i64, now_nanos: u32, window: &ReportWindow) -> (res: Option<(i64, u32)>)
    ensures
        instant_view(res) == window_start_of(now_secs, now_nanos, *window),
        *window is StartOfToday ==> (res matches Some((s, n)) ==> n == 0 && s % 86400 == 0 && s
            <= now_secs < s + 86400),
        *window is StartOfMonth ==> (res matches Some((s, n)) ==> n == 0 && s % 86400 == 0 && s
            <= now_secs < s + 31 * 86400),
{
    proof {
        lemma_midnight_before(now_secs as int);
    }
    match window {
        ReportWindow::StartOfToday => match utc_date(now_secs) {
            Some((y, m, d)) => match utc_midnight(y, m, d) {
                Some(s) => Some((s, 0)),
                None => None,
            },
            None => None,
        },
        ReportWindow::StartOfMonth => match utc_date(now_secs) {
            Some((y, m, d)) => {
                proof {
                    lemma_days_into_month(y as int, m as int, d as int);
                }
                match utc_midnight(y, m, 1) {
                    Some(s) => Some((s, 0)),
                    None => None,
                }
            },
            None => None,
        },
        ReportWindow::LastDays(n) => utc_days_back(now_secs, now_nanos, *n),
    }
}

} // verus!
