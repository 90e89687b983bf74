//! Status conversion and the pieces of the log line: source locations and
//! a UTC timestamp computed from the kernel's system time.
use vstd::prelude::*;

use crate::rt::wdk_sys::NTSTATUS;
use vstd::string::*;
use vstd::arithmetic::div_mod::*;

verus! {

/// Division rounding toward zero, as the `/` of Rust's signed integers does.
pub open spec fn trunc_div(a: int, b: int) -> int
    recommends
        b > 0,
{
    if a >= 0 {
        a / b
    } else {
        -((-a) / b)
    }
}

/// The remainder that goes with [`trunc_div`], as Rust's signed `%` gives it.
pub open spec fn trunc_rem(a: int, b: int) -> int
    recommends
        b > 0,
{
    a - b * trunc_div(a, b)
}

/// The Gregorian date `(year, month, day)` that lies `days` days after
/// 1970-01-01, by the era / year-of-era decomposition of the proleptic
/// Gregorian calendar (an era is 400 years, 146097 days, and years are
/// counted from March so that the leap day ends them).
pub open spec fn civil_from_days_spec(days: int) -> (int, int, int) {
    let z = days + 719468;
    let era = z / 146097;
    let doe = z - era * 146097;
    let yoe = (doe - doe / 1460 + doe / 36524 - doe / 146096) / 365;
    let y = yoe + era * 400;
    let doy = doe - (365 * yoe + yoe / 4 - yoe / 100);
    let mp = (5 * doy + 2) / 153;
    let d = doy - (153 * mp + 2) / 5 + 1;
    let m = if mp < 10 { mp + 3 } else { mp - 9 };
    (if m <= 2 { y + 1 } else { y }, m, d)
}

/// The number of days from 1970-01-01 to the Gregorian date
/// `(year, month, day)`.
pub open spec fn days_from_civil(year: int, month: int, day: int) -> int {
    let y = if month <= 2 { year - 1 } else { year };
    let era = y / 400;
    let yoe = y - era * 400;
    let mp = if month > 2 { month - 3 } else { month + 9 };
    let doy = (153 * mp + 2) / 5 + day - 1;
    let doe = yoe * 365 + yoe / 4 - yoe / 100 + doy;
    era * 146097 + doe - 719468
}

/// The year of era and the day of year that the decomposition finds for a
/// day of era are in range: an era holds 400 years, and a year (counted
/// from March) holds at most 366 days.
pub proof fn lemma_day_of_era_parts(doe: int)
    requires
        0 <= doe <= 146096,
    ensures
        ({
            let yoe = (doe - doe / 1460 + doe / 36524 - doe / 146096) / 365;
            let doy = doe - (365 * yoe + yoe / 4 - yoe / 100);
            &&& 0 <= yoe <= 399
            &&& 0 <= doy <= 365
        }),
{
    if doe == 146096 {
        lemma_fundamental_div_mod_converse(doe, 1460, 100, 96);
        lemma_fundamental_div_mod_converse(doe, 36524, 4, 0);
        lemma_fundamental_div_mod_converse(doe, 146096, 1, 0);
        lemma_fundamental_div_mod_converse(145999, 365, 399, 364);
        lemma_fundamental_div_mod_converse(399, 4, 99, 3);
        lemma_fundamental_div_mod_converse(399, 100, 3, 99);
    } else {
        lemma_fundamental_div_mod(doe, 36524);
        lemma_mod_pos_bound(doe, 36524);
        let k = doe / 36524;
        let r = doe % 36524;
        assert(0 <= k <= 3);
        lemma_fundamental_div_mod(r, 1461);
        lemma_mod_pos_bound(r, 1461);
        let q = r / 1461;
        let s = r % 1461;
        assert(0 <= q <= 24);
        let e = 24 * k + q + s;
        let ind: int = if e >= 1460 { 1 } else { 0 };
        assert(doe == (25 * k + q + ind) * 1460 + (e - 1460 * ind));
        lemma_fundamental_div_mod_converse(doe, 1460, 25 * k + q + ind, e - 1460 * ind);
        lemma_fundamental_div_mod_converse(doe, 36524, k, r);
        lemma_fundamental_div_mod_converse(doe, 146096, 0, doe);
        let s2 = s - ind;
        assert(0 <= s2 <= 1459);
        lemma_fundamental_div_mod(s2, 365);
        lemma_mod_pos_bound(s2, 365);
        let y4 = s2 / 365;
        assert(0 <= y4 <= 3);
        let yoe = 100 * k + 4 * q + y4;
        assert(doe - doe / 1460 + doe / 36524 - doe / 146096 == yoe * 365 + (s2 - 365 * y4));
        lemma_fundamental_div_mod_converse(
            doe - doe / 1460 + doe / 36524 - doe / 146096,
            365,
            yoe,
            s2 - 365 * y4,
        );
        lemma_fundamental_div_mod_converse(yoe, 4, 25 * k + q, y4);
        lemma_fundamental_div_mod_converse(yoe, 100, k, 4 * q + y4);
        if ind == 1 {
            assert(y4 == 3) by {
                lemma_fundamental_div_mod_converse(s2, 365, 3, s2 - 1095);
            }
        }
    }
}

/// `civil_from_days_spec` names a real date, and it is the inverse of
/// `days_from_civil`: counting the days from 1970-01-01 to the date found
/// for `days` gives `days` back.
pub proof fn lemma_civil_from_days_round_trip(days: int)
    ensures
        ({
            let (y, m, d) = civil_from_days_spec(days);
            &&& 1 <= m <= 12
            &&& 1 <= d <= 31
            &&& days_from_civil(y, m, d) == days
        }),
{
    let z = days + 719468;
    lemma_fundamental_div_mod(z, 146097);
    lemma_mod_bound(z, 146097);
    let era = z / 146097;
    let doe = z - era * 146097;
    lemma_day_of_era_parts(doe);
    let yoe = (doe - doe / 1460 + doe / 36524 - doe / 146096) / 365;
    let y = yoe + era * 400;
    let doy = doe - (365 * yoe + yoe / 4 - yoe / 100);
    lemma_fundamental_div_mod(5 * doy + 2, 153);
    lemma_mod_bound(5 * doy + 2, 153);
    let mp = (5 * doy + 2) / 153;
    assert(0 <= mp <= 11);
    lemma_fundamental_div_mod(153 * mp + 2, 5);
    lemma_mod_bound(153 * mp + 2, 5);
    let d = doy - (153 * mp + 2) / 5 + 1;
    assert(1 <= d <= 31);
    let m = if mp < 10 { mp + 3 } else { mp - 9 };
    let year = if m <= 2 { y + 1 } else { y };
    lemma_fundamental_div_mod_converse(y, 400, era, yoe);
}

/// From the Unix epoch on, a system time splits into whole seconds and the
/// milliseconds (below 1000) that lie between that second and the next:
/// the parts give back the time to the millisecond.
pub proof fn lemma_filetime_parts_after_epoch(ts100ns: int)
    requires
        ts100ns >= WINDOWS_TO_UNIX_EPOCH_100NS,
    ensures
        ({
            let unix = ts100ns - WINDOWS_TO_UNIX_EPOCH_100NS;
            let (secs, millis) = filetime_parts_spec(ts100ns);
            &&& 0 <= secs
            &&& millis < 1000
            &&& secs * HUNDRED_NS_PER_SEC + millis * HUNDRED_NS_PER_MILLI <= unix
            &&& unix < secs * HUNDRED_NS_PER_SEC + (millis + 1) * HUNDRED_NS_PER_MILLI
        }),
{
    let unix = ts100ns - WINDOWS_TO_UNIX_EPOCH_100NS;
    lemma_fundamental_div_mod(unix, HUNDRED_NS_PER_SEC as int);
    lemma_mod_bound(unix, HUNDRED_NS_PER_SEC as int);
    let rem = unix % (HUNDRED_NS_PER_SEC as int);
    lemma_fundamental_div_mod(rem, HUNDRED_NS_PER_MILLI as int);
    lemma_mod_bound(rem, HUNDRED_NS_PER_MILLI as int);
}

/// The date and time of day that `unix_secs_to_utc` finds for `secs` give
/// `secs` back: the days from 1970-01-01 to the date, times the seconds of
/// a day, plus the seconds of the time of day.
pub proof fn lemma_unix_secs_round_trip(secs: int)
    ensures
        ({
            let days = secs / (SECS_PER_DAY as int);
            let sod = secs % (SECS_PER_DAY as int);
            let (y, m, d) = civil_from_days_spec(days);
            days_from_civil(y, m, d) * SECS_PER_DAY + (sod / 3600) * 3600 + ((sod % 3600) / 60) * 60
                + sod % 60 == secs
        }),
{
    let days = secs / (SECS_PER_DAY as int);
    let sod = secs % (SECS_PER_DAY as int);
    lemma_fundamental_div_mod(secs, SECS_PER_DAY as int);
    lemma_civil_from_days_round_trip(days);
    lemma_fundamental_div_mod(sod, 3600);
    lemma_fundamental_div_mod(sod % 3600, 60);
}

/// `year` is a leap year of the Gregorian calendar.
pub open spec fn is_leap_year(year: int) -> bool {
    (year % 4 == 0 && year % 100 != 0) || year % 400 == 0
}

/// The number of days of `month` (1 to 12) in `year`.
pub open spec fn days_in_month(year: int, month: int) -> int {
    if month == 2 {
        if is_leap_year(year) {
            29
        } else {
            28
        }
    } else if month == 4 || month == 6 || month == 9 || month == 11 {
        30
    } else {
        31
    }
}

/// `(year, month, day)` is a date of the proleptic Gregorian calendar.
pub open spec fn is_valid_date(year: int, month: int, day: int) -> bool {
    &&& 1 <= month <= 12
    &&& 1 <= day <= days_in_month(year, month)
}

/// The day of a March-based year that `doy` is, as month and day: the
/// month index `mp` (0 for March) and the day of that month are the ones
/// that the decomposition finds, and they stay within the month's length
/// (February counted with 29 days).
proof fn lemma_month_of_day_of_year(doy: int)
    requires
        0 <= doy <= 365,
    ensures
        ({
            let mp = (5 * doy + 2) / 153;
            let d = doy - (153 * mp + 2) / 5 + 1;
            let m = if mp < 10 { mp + 3 } else { mp - 9 };
            &&& 0 <= mp <= 11
            &&& 1 <= d
            &&& (m != 2 ==> d <= days_in_month(0, m))
            &&& (m == 2 ==> d <= 28 || (d == 29 && doy == 365))
        }),
{
    lemma_fundamental_div_mod(5 * doy + 2, 153);
    lemma_mod_bound(5 * doy + 2, 153);
    let mp = (5 * doy + 2) / 153;
    assert(0 <= mp <= 11);
    lemma_fundamental_div_mod(153 * mp + 2, 5);
    lemma_mod_bound(153 * mp + 2, 5);
    if mp == 0 {
        lemma_fundamental_div_mod_converse(155, 5, 31, 0);
    } else if mp == 1 {
        lemma_fundamental_div_mod_converse(155, 5, 31, 0);
        lemma_fundamental_div_mod_converse(308, 5, 61, 3);
    } else if mp == 2 {
        lemma_fundamental_div_mod_converse(308, 5, 61, 3);
        lemma_fundamental_div_mod_converse(461, 5, 92, 1);
    } else if mp == 3 {
        lemma_fundamental_div_mod_converse(461, 5, 92, 1);
        lemma_fundamental_div_mod_converse(614, 5, 122, 4);
    } else if mp == 4 {
        lemma_fundamental_div_mod_converse(614, 5, 122, 4);
        lemma_fundamental_div_mod_converse(767, 5, 153, 2);
    } else if mp == 5 {
        lemma_fundamental_div_mod_converse(767, 5, 153, 2);
        lemma_fundamental_div_mod_converse(920, 5, 184, 0);
    } else if mp == 6 {
        lemma_fundamental_div_mod_converse(920, 5, 184, 0);
        lemma_fundamental_div_mod_converse(1073, 5, 214, 3);
    } else if mp == 7 {
        lemma_fundamental_div_mod_converse(1073, 5, 214, 3);
        lemma_fundamental_div_mod_converse(1226, 5, 245, 1);
    } else if mp == 8 {
        lemma_fundamental_div_mod_converse(1226, 5, 245, 1);
        lemma_fundamental_div_mod_converse(1379, 5, 275, 4);
    } else if mp == 9 {
        lemma_fundamental_div_mod_converse(1379, 5, 275, 4);
        lemma_fundamental_div_mod_converse(1532, 5, 306, 2);
    } else if mp == 10 {
        lemma_fundamental_div_mod_converse(1532, 5, 306, 2);
        lemma_fundamental_div_mod_converse(1685, 5, 337, 0);
    } else {
        lemma_fundamental_div_mod_converse(1685, 5, 337, 0);
    }
}

/// Every day is a valid Gregorian date: the month is 1 to 12, and the day
/// is within that month's length in that year, February 29 only in leap
/// years.
pub proof fn lemma_civil_from_days_is_valid_date(days: int)
    ensures
        ({
            let (y, m, d) = civil_from_days_spec(days);
            is_valid_date(y, m, d)
        }),
{
    let z = days + 719468;
    lemma_fundamental_div_mod(z, 146097);
    lemma_mod_bound(z, 146097);
    let era = z / 146097;
    let doe = z - era * 146097;
    lemma_day_of_era_parts(doe);
    let yoe = (doe - doe / 1460 + doe / 36524 - doe / 146096) / 365;
    let y = yoe + era * 400;
    let doy = doe - (365 * yoe + yoe / 4 - yoe / 100);
    lemma_month_of_day_of_year(doy);
    let mp = (5 * doy + 2) / 153;
    let d = doy - (153 * mp + 2) / 5 + 1;
    let m = if mp < 10 { mp + 3 } else { mp - 9 };
    let year = if m <= 2 { y + 1 } else { y };
    if m == 2 && d == 29 {
        // The last day of a March-based year is February 29: it ends a
        // four-year cycle that is not a century, or the whole era.
        assert(doy == 365);
        lemma_leap_day_year(doe);
        assert(is_leap_year(year)) by {
            if doe == 146096 {
                lemma_fundamental_div_mod_converse(year, 400, era + 1, 0);
            } else {
                let k = doe / 36524;
                let q = (doe % 36524) / 1461;
                assert(yoe == 100 * k + 4 * q + 3);
                lemma_fundamental_div_mod_converse(year, 4, era * 100 + 25 * k + q + 1, 0);
                lemma_fundamental_div_mod_converse(year, 100, era * 4 + k, 4 * q + 4);
            }
        }
    }
}

/// A day of era that is the 366th day of its March-based year is the last
/// day of a four-year cycle within a century (not the century's last four
/// years), or the last day of the era.
proof fn lemma_leap_day_year(doe: int)
    requires
        0 <= doe <= 146096,
        ({
            let yoe = (doe - doe / 1460 + doe / 36524 - doe / 146096) / 365;
            doe - (365 * yoe + yoe / 4 - yoe / 100) == 365
        }),
    ensures
        ({
            let yoe = (doe - doe / 1460 + doe / 36524 - doe / 146096) / 365;
            let k = doe / 36524;
            let q = (doe % 36524) / 1461;
            ||| doe == 146096 && yoe == 399
            ||| doe < 146096 && q < 24 && yoe == 100 * k + 4 * q + 3
        }),
{
    if doe == 146096 {
        lemma_fundamental_div_mod_converse(doe, 1460, 100, 96);
        lemma_fundamental_div_mod_converse(doe, 36524, 4, 0);
        lemma_fundamental_div_mod_converse(doe, 146096, 1, 0);
        lemma_fundamental_div_mod_converse(145999, 365, 399, 364);
    } else {
        lemma_fundamental_div_mod(doe, 36524);
        lemma_mod_bound(doe, 36524);
        let k = doe / 36524;
        let r = doe % 36524;
        lemma_fundamental_div_mod(r, 1461);
        lemma_mod_bound(r, 1461);
        let q = r / 1461;
        let s = r % 1461;
        let e = 24 * k + q + s;
        let ind: int = if e >= 1460 { 1 } else { 0 };
        lemma_fundamental_div_mod_converse(doe, 1460, 25 * k + q + ind, e - 1460 * ind);
        lemma_fundamental_div_mod_converse(doe, 36524, k, r);
        lemma_fundamental_div_mod_converse(doe, 146096, 0, doe);
        let s2 = s - ind;
        lemma_fundamental_div_mod(s2, 365);
        lemma_mod_bound(s2, 365);
        let y4 = s2 / 365;
        let yoe = 100 * k + 4 * q + y4;
        lemma_fundamental_div_mod_converse(
            doe - doe / 1460 + doe / 36524 - doe / 146096,
            365,
            yoe,
            s2 - 365 * y4,
        );
        lemma_fundamental_div_mod_converse(yoe, 4, 25 * k + q, y4);
        lemma_fundamental_div_mod_converse(yoe, 100, k, 4 * q + y4);
        // doy = s - 365 * y4 == 365 forces s == 1460 and y4 == 3.
        assert(s == 1460);
        assert(y4 == 3) by {
            lemma_fundamental_div_mod_converse(s2, 365, 3, s2 - 1095);
        }
        assert(q < 24);
    }
}

/// The length of the month of index `mp` of a March-based year (0 for
/// March, 11 for February, counted with its leap day).
spec fn march_month_max_len(mp: int) -> int {
    if mp == 11 {
        29
    } else if mp == 1 || mp == 3 || mp == 6 || mp == 8 {
        30
    } else {
        31
    }
}

/// The day of the March-based year of day `d` of the month of index `mp`
/// gives back that month.
proof fn lemma_day_of_year_month(mp: int, d: int)
    requires
        0 <= mp <= 11,
        1 <= d <= march_month_max_len(mp),
    ensures
        ({
            let doy = (153 * mp + 2) / 5 + d - 1;
            &&& (5 * doy + 2) / 153 == mp
            &&& 0 <= doy <= 365
        }),
{
    let doy = (153 * mp + 2) / 5 + d - 1;
    if mp == 0 {
        lemma_fundamental_div_mod_converse(2, 5, 0, 2);
        assert(doy == 0 + d - 1);
        lemma_fundamental_div_mod_converse(5 * doy + 2, 153, 0, 5 * doy + 2 - 0);
    } else if mp == 1 {
        lemma_fundamental_div_mod_converse(155, 5, 31, 0);
        assert(doy == 31 + d - 1);
        lemma_fundamental_div_mod_converse(5 * doy + 2, 153, 1, 5 * doy + 2 - 153);
    } else if mp == 2 {
        lemma_fundamental_div_mod_converse(308, 5, 61, 3);
        assert(doy == 61 + d - 1);
        lemma_fundamental_div_mod_converse(5 * doy + 2, 153, 2, 5 * doy + 2 - 306);
    } else if mp == 3 {
        lemma_fundamental_div_mod_converse(461, 5, 92, 1);
        assert(doy == 92 + d - 1);
        lemma_fundamental_div_mod_converse(5 * doy + 2, 153, 3, 5 * doy + 2 - 459);
    } else if mp == 4 {
        lemma_fundamental_div_mod_converse(614, 5, 122, 4);
        assert(doy == 122 + d - 1);
        lemma_fundamental_div_mod_converse(5 * doy + 2, 153, 4, 5 * doy + 2 - 612);
    } else if mp == 5 {
        lemma_fundamental_div_mod_converse(767, 5, 153, 2);
        assert(doy == 153 + d - 1);
        lemma_fundamental_div_mod_converse(5 * doy + 2, 153, 5, 5 * doy + 2 - 765);
    } else if mp == 6 {
        lemma_fundamental_div_mod_converse(920, 5, 184, 0);
        assert(doy == 184 + d - 1);
        lemma_fundamental_div_mod_converse(5 * doy + 2, 153, 6, 5 * doy + 2 - 918);
    } else if mp == 7 {
        lemma_fundamental_div_mod_converse(1073, 5, 214, 3);
        assert(doy == 214 + d - 1);
        lemma_fundamental_div_mod_converse(5 * doy + 2, 153, 7, 5 * doy + 2 - 1071);
    } else if mp == 8 {
        lemma_fundamental_div_mod_converse(1226, 5, 245, 1);
        assert(doy == 245 + d - 1);
        lemma_fundamental_div_mod_converse(5 * doy + 2, 153, 8, 5 * doy + 2 - 1224);
    } else if mp == 9 {
        lemma_fundamental_div_mod_converse(1379, 5, 275, 4);
        assert(doy == 275 + d - 1);
        lemma_fundamental_div_mod_converse(5 * doy + 2, 153, 9, 5 * doy + 2 - 1377);
    } else if mp == 10 {
        lemma_fundamental_div_mod_converse(1532, 5, 306, 2);
        assert(doy == 306 + d - 1);
        lemma_fundamental_div_mod_converse(5 * doy + 2, 153, 10, 5 * doy + 2 - 1530);
    } else if mp == 11 {
        lemma_fundamental_div_mod_converse(1685, 5, 337, 0);
        assert(doy == 337 + d - 1);
        lemma_fundamental_div_mod_converse(5 * doy + 2, 153, 11, 5 * doy + 2 - 1683);
    }
}

/// Counting the days to a valid Gregorian date and finding the date of that
/// day gives the date back: with `lemma_civil_from_days_round_trip` and
/// `lemma_civil_from_days_is_valid_date`, days and valid dates correspond
/// one to one.
pub proof fn lemma_days_from_civil_round_trip(year: int, month: int, day: int)
    requires
        is_valid_date(year, month, day),
    ensures
        civil_from_days_spec(days_from_civil(year, month, day)) == (year, month, day),
{
    let y = if month <= 2 { year - 1 } else { year };
    lemma_fundamental_div_mod(y, 400);
    lemma_mod_bound(y, 400);
    let era = y / 400;
    let yoe = y - era * 400;
    let mp = if month > 2 { month - 3 } else { month + 9 };
    lemma_day_of_year_month(mp, day);
    let doy = (153 * mp + 2) / 5 + day - 1;
    lemma_fundamental_div_mod(yoe, 100);
    lemma_mod_bound(yoe, 100);
    let k = yoe / 100;
    let t = yoe % 100;
    lemma_fundamental_div_mod(t, 4);
    lemma_mod_bound(t, 4);
    let q = t / 4;
    let y4 = t % 4;
    lemma_fundamental_div_mod_converse(yoe, 4, 25 * k + q, y4);
    let doe = yoe * 365 + yoe / 4 - yoe / 100 + doy;
    assert(doe == 36524 * k + 1461 * q + 365 * y4 + doy);
    // Only the last year of a leap cycle holds a 366th day.
    if doy == 365 {
        assert(mp == 11);
        assert(is_leap_year(year));
        assert(year == era * 400 + yoe + 1);
        assert(y4 == 3) by {
            if y4 != 3 {
                lemma_fundamental_div_mod_converse(year, 4, era * 100 + 25 * k + q, y4 + 1);
                lemma_fundamental_div_mod_converse(year, 400, era, yoe + 1);
            }
        }
        assert(q < 24 || yoe == 399) by {
            if q == 24 && yoe != 399 {
                lemma_fundamental_div_mod_converse(year, 100, era * 4 + k + 1, 0);
                lemma_fundamental_div_mod_converse(year, 400, era, yoe + 1);
            }
        }
    }
    let z = days_from_civil(year, month, day) + 719468;
    assert(z == era * 146097 + doe);
    if doe == 146096 {
        lemma_fundamental_div_mod_converse(z, 146097, era, doe);
        lemma_fundamental_div_mod_converse(doe, 1460, 100, 96);
        lemma_fundamental_div_mod_converse(doe, 36524, 4, 0);
        lemma_fundamental_div_mod_converse(doe, 146096, 1, 0);
        lemma_fundamental_div_mod_converse(145999, 365, 399, 364);
        lemma_fundamental_div_mod_converse(399, 4, 99, 3);
        lemma_fundamental_div_mod_converse(399, 100, 3, 99);
    } else {
        let s = 365 * y4 + doy;
        assert(0 <= doe < 146096);
        lemma_fundamental_div_mod_converse(z, 146097, era, doe);
        lemma_fundamental_div_mod_converse(doe, 36524, k, 1461 * q + s);
        lemma_fundamental_div_mod_converse(doe, 146096, 0, doe);
        let e = 24 * k + q + s;
        let ind: int = if e >= 1460 { 1 } else { 0 };
        lemma_fundamental_div_mod_converse(doe, 1460, 25 * k + q + ind, e - 1460 * ind);
        let s2 = s - ind;
        if ind == 1 {
            assert(y4 == 3);
            lemma_fundamental_div_mod_converse(s2, 365, 3, s2 - 1095);
        } else {
            lemma_fundamental_div_mod_converse(s2, 365, y4, doy);
        }
        lemma_fundamental_div_mod_converse(
            doe - doe / 1460 + doe / 36524 - doe / 146096,
            365,
            yoe,
            s2 - 365 * y4,
        );
        lemma_fundamental_div_mod_converse(yoe, 100, k, 4 * q + y4);
    }
}

/// Converts a raw `NTSTATUS` into a result: a non-negative status is a
/// success, a negative one is the error.
#[inline]
pub fn ntstatus_to_result(status: NTSTATUS) -> (r: Result<(), NTSTATUS>)
    ensures
        status >= 0 ==> r == Ok::<(), NTSTATUS>(()),
        status < 0 ==> r == Err::<(), NTSTATUS>(status),
{
    if status >= 0 {
        Ok(())
    } else {
        Err(status)
    }
}

/// `s` holds the module separator `::` at position `i`.
pub open spec fn double_colon_at(s: Seq<char>, i: int) -> bool {
    &&& 0 <= i
    &&& i + 1 < s.len()
    &&& s[i] == ':'
    &&& s[i + 1] == ':'
}

/// `c` separates the components of a file path.
pub open spec fn is_path_separator(c: char) -> bool {
    c == '/' || c == '\\'
}

/// Drops the crate name from a module path: the text after the first `::`,
/// or the empty string when the path has no `::`.
pub fn remove_module_name(full_path: &str) -> (r: &str)
    ensures
        (exists|i: int| double_colon_at(full_path@, i)) ==> exists|i: int|
            {
                &&& double_colon_at(full_path@, i)
                &&& forall|j: int| 0 <= j < i ==> !double_colon_at(full_path@, j)
                &&& r@ == full_path@.subrange(i + 2, full_path@.len() as int)
            },
        !(exists|i: int| double_colon_at(full_path@, i)) ==> r@.len() == 0,
{
    let n = full_path.unicode_len();
    let mut i: usize = 0;
    while n >= 2 && i < n - 1
        invariant
            n == full_path@.len(),
            0 <= i <= n,
            forall|j: int| 0 <= j < i ==> !double_colon_at(full_path@, j),
        decreases n - i,
    {
        if full_path.get_char(i) == ':' && full_path.get_char(i + 1) == ':' {
            let rest = full_path.substring_char(i + 2, n);
            assert(double_colon_at(full_path@, i as int));
            return rest;
        }
        i = i + 1;
    }
    proof {
        reveal_strlit("");
        assert forall|k: int| !double_colon_at(full_path@, k) by {
            if double_colon_at(full_path@, k) {
                assert(k < i);
            }
        }
    }
    ""
}

/// The last component of a file path: the text after the last `/` or `\`,
/// or the whole path when it holds neither.
pub fn file_name(full_path: &str) -> (r: &str)
    ensures
        (exists|i: int| 0 <= i < full_path@.len() && is_path_separator(full_path@[i]))
            ==> exists|i: int|
            {
                &&& 0 <= i < full_path@.len()
                &&& is_path_separator(full_path@[i])
                &&& forall|j: int| i < j < full_path@.len() ==> !is_path_separator(full_path@[j])
                &&& r@ == full_path@.subrange(i + 1, full_path@.len() as int)
            },
        !(exists|i: int| 0 <= i < full_path@.len() && is_path_separator(full_path@[i]))
            ==> r@ == full_path@,
{
    let n = full_path.unicode_len();
    let mut i: usize = n;
    while i > 0
        invariant
            n == full_path@.len(),
            0 <= i <= n,
            forall|j: int| i <= j < n ==> !is_path_separator(full_path@[j]),
        decreases i,
    {
        let c = full_path.get_char(i - 1);
        if c == '/' || c == '\\' {
            let last = full_path.substring_char(i, n);
            assert(is_path_separator(full_path@[i - 1]));
            return last;
        }
        i = i - 1;
    }
    assert(full_path@.subrange(0, n as int) =~= full_path@);
    full_path.substring_char(0, n)
}

/// 100 ns ticks from 1601-01-01 (the Windows epoch) to 1970-01-01.
pub const WINDOWS_TO_UNIX_EPOCH_100NS: i64 = 116_444_736_000_000_000;
/// 100 ns ticks in a second.
pub const HUNDRED_NS_PER_SEC: i64 = 10_000_000;
/// 100 ns ticks in a millisecond.
pub const HUNDRED_NS_PER_MILLI: i64 = 10_000;
/// Seconds in a day.
pub const SECS_PER_DAY: i64 = 86_400;

/// A calendar date and time of day in UTC, to the millisecond.
#[derive(Copy, Clone, Debug)]
pub struct UtcDateTime {
    pub year: i32,
    pub month: u8,
    pub day: u8,
    pub hour: u8,
    pub minute: u8,
    pub second: u8,
    pub millis: u16,
}

/// Splits a Windows system time (100 ns ticks since 1601-01-01) into whole
/// seconds since the Unix epoch and the milliseconds past that second.
/// Both parts round toward zero, as Rust's `/` and `%` do; before the Unix
/// epoch the remainder is negative and its millisecond count wraps as a
/// `u16`.
#[inline]
pub fn filetime_100ns_to_unix_parts(ts100ns: i64) -> (r: (i64, u16))
    requires
        ts100ns >= i64::MIN + WINDOWS_TO_UNIX_EPOCH_100NS,
    ensures
        ({
            let unix = ts100ns - WINDOWS_TO_UNIX_EPOCH_100NS;
            &&& r.0 == trunc_div(unix, HUNDRED_NS_PER_SEC as int)
            &&& r.1 == #[verifier::truncate] (trunc_div(
                trunc_rem(unix, HUNDRED_NS_PER_SEC as int),
                HUNDRED_NS_PER_MILLI as int,
            ) as u16)
        }),
{
    let unix_100ns = ts100ns - WINDOWS_TO_UNIX_EPOCH_100NS;
    let secs = unix_100ns / HUNDRED_NS_PER_SEC;
    let millis = #[verifier::truncate] (((unix_100ns % HUNDRED_NS_PER_SEC) / HUNDRED_NS_PER_MILLI) as u16);
    (secs, millis)
}

/// The UTC date and time `secs` seconds (and `millis` milliseconds) after
/// the Unix epoch. The day is found by flooring, so times before the epoch
/// fall on earlier days; the year is cut to an `i32`.
#[inline]
pub fn unix_secs_to_utc(secs: i64, millis: u16) -> (r: UtcDateTime)
    ensures
        ({
            let days = (secs as int) / (SECS_PER_DAY as int);
            let sod = (secs as int) % (SECS_PER_DAY as int);
            let (y, m, d) = civil_from_days_spec(days);
            &&& r.year == #[verifier::truncate] (y as i32)
            &&& r.month == m
            &&& r.day == d
            &&& r.hour == sod / 3600
            &&& r.minute == (sod % 3600) / 60
            &&& r.second == sod % 60
            &&& r.millis == millis
        }),
        1 <= r.month <= 12,
        1 <= r.day <= 31,
        r.hour < 24,
        r.minute < 60,
        r.second < 60,
{
    let days = secs.checked_div_euclid(SECS_PER_DAY).unwrap();
    let sod = secs.checked_rem_euclid(SECS_PER_DAY).unwrap();
    proof {
        lemma_fundamental_div_mod(secs as int, SECS_PER_DAY as int);
        lemma_mod_bound(secs as int, SECS_PER_DAY as int);
        lemma_civil_from_days_round_trip(days as int);
    }

    let (year, month, day) = civil_from_days(days);
    let hour = (sod / 3600) as u8;
    let minute = ((sod % 3600) / 60) as u8;
    let second = (sod % 60) as u8;

    UtcDateTime { year, month, day, hour, minute, second, millis }
}

/// The UTC date and time of a Windows system time given in 100 ns ticks
/// since 1601-01-01, such as the kernel's `KeQuerySystemTimePrecise` reports.
#[inline]
pub fn timestamp_utc(ts100ns: i64) -> (r: UtcDateTime)
    requires
        ts100ns >= i64::MIN + WINDOWS_TO_UNIX_EPOCH_100NS,
    ensures
        ({
            let (secs, millis) = filetime_parts_spec(ts100ns as int);
            let days = (secs as int) / (SECS_PER_DAY as int);
            let sod = (secs as int) % (SECS_PER_DAY as int);
            let (y, m, d) = civil_from_days_spec(days);
            &&& r.year == #[verifier::truncate] (y as i32)
            &&& r.month == m
            &&& r.day == d
            &&& r.hour == sod / 3600
            &&& r.minute == (sod % 3600) / 60
            &&& r.second == sod % 60
            &&& r.millis == millis
        }),
{
    let (secs, millis) = filetime_100ns_to_unix_parts(ts100ns);
    unix_secs_to_utc(secs, millis)
}

/// The seconds and milliseconds that `filetime_100ns_to_unix_parts` finds.
pub open spec fn filetime_parts_spec(ts100ns: int) -> (int, u16) {
    let unix = ts100ns - WINDOWS_TO_UNIX_EPOCH_100NS;
    (
        trunc_div(unix, HUNDRED_NS_PER_SEC as int),
        #[verifier::truncate] (trunc_div(
            trunc_rem(unix, HUNDRED_NS_PER_SEC as int),
            HUNDRED_NS_PER_MILLI as int,
        ) as u16),
    )
}

/// The decimal digit character of `d`, for `d < 10`.
pub open spec fn digit_char(d: nat) -> char {
    if d == 0 {
        '0'
    } else if d == 1 {
        '1'
    } else if d == 2 {
        '2'
    } else if d == 3 {
        '3'
    } else if d == 4 {
        '4'
    } else if d == 5 {
        '5'
    } else if d == 6 {
        '6'
    } else if d == 7 {
        '7'
    } else if d == 8 {
        '8'
    } else {
        '9'
    }
}

/// The decimal digits of `n`, most significant first, without leading zeros.
pub open spec fn decimal_digits(n: nat) -> Seq<char>
    decreases n,
{
    if n < 10 {
        seq![digit_char(n)]
    } else {
        decimal_digits(n / 10) + seq![digit_char(n % 10)]
    }
}

/// The decimal digits of `n`, with zeros in front up to `width` characters.
pub open spec fn zero_padded(n: nat, width: nat) -> Seq<char> {
    let digits = decimal_digits(n);
    if digits.len() >= width {
        digits
    } else {
        Seq::new((width - digits.len()) as nat, |i: int| '0') + digits
    }
}

/// The decimal text of `v` zero-padded to `width` characters, its sign (if
/// negative) counting toward the width, as Rust's `{:0width}` writes it.
pub open spec fn signed_zero_padded(v: int, width: nat) -> Seq<char> {
    if v < 0 {
        seq!['-'] + zero_padded((-v) as nat, if width >= 1 { (width - 1) as nat } else { 0 })
    } else {
        zero_padded(v as nat, width)
    }
}

/// The text of a timestamp: `YYYY-MM-DD hh:mm:ss.mmm UTC`.
pub open spec fn utc_text(t: UtcDateTime) -> Seq<char> {
    signed_zero_padded(t.year as int, 4) + seq!['-'] + zero_padded(t.month as nat, 2) + seq!['-']
        + zero_padded(t.day as nat, 2) + seq![' '] + zero_padded(t.hour as nat, 2) + seq![':']
        + zero_padded(t.minute as nat, 2) + seq![':'] + zero_padded(t.second as nat, 2) + seq!['.']
        + zero_padded(t.millis as nat, 3) + seq![' ', 'U', 'T', 'C']
}

/// The number that the decimal digits `s` write, most significant first:
/// each character is worth its distance from `'0'`.
pub open spec fn decimal_value(s: Seq<char>) -> int
    decreases s.len(),
{
    if s.len() == 0 {
        0
    } else {
        decimal_value(s.drop_last()) * 10 + ((s.last() as int) - ('0' as int))
    }
}

/// Every character of `s` is one of `0` to `9`.
pub open spec fn all_decimal_digits(s: Seq<char>) -> bool {
    forall|i: int| 0 <= i < s.len() ==> ('0' as int) <= (#[trigger] s[i]) as int <= ('9' as int)
}

/// `decimal_digits(n)` is the decimal numeral of `n`: digits only, at least
/// one, reading back as `n`, and starting with a zero only when `n` is zero.
pub proof fn lemma_decimal_digits_numeral(n: nat)
    ensures
        all_decimal_digits(decimal_digits(n)),
        decimal_value(decimal_digits(n)) == n,
        decimal_digits(n).len() >= 1,
        n != 0 ==> decimal_digits(n)[0] != '0',
    decreases n,
{
    let s = decimal_digits(n);
    if n < 10 {
        assert(s.drop_last() =~= Seq::<char>::empty());
        assert(decimal_value(s) == decimal_value(s.drop_last()) * 10 + ((s.last() as int) - ('0' as int)));
    } else {
        lemma_decimal_digits_numeral(n / 10);
        let h = decimal_digits(n / 10);
        assert(s.drop_last() =~= h);
        assert(s[0] == h[0]);
        assert(forall|i: int| 0 <= i < h.len() ==> s[i] == h[i]);
        assert(n == (n / 10) * 10 + n % 10) by {
            lemma_fundamental_div_mod(n as int, 10);
        }
        assert(decimal_value(s) == decimal_value(h) * 10 + ((s.last() as int) - ('0' as int)));
    }
}

/// The numbers below 10, 100, 1000 and 10000 have at most 1, 2, 3 and 4
/// decimal digits.
pub proof fn lemma_decimal_digits_len(n: nat)
    ensures
        n < 10 ==> decimal_digits(n).len() == 1,
        n < 100 ==> decimal_digits(n).len() <= 2,
        n < 1000 ==> decimal_digits(n).len() <= 3,
        n < 10000 ==> decimal_digits(n).len() <= 4,
{
    if n >= 10 {
        let m = n / 10;
        if m >= 10 {
            let m2 = m / 10;
            if m2 >= 10 {
                assert(decimal_digits(m2).len() == decimal_digits(m2 / 10).len() + 1);
            }
            assert(decimal_digits(m).len() == decimal_digits(m2).len() + 1);
        }
        assert(decimal_digits(n).len() == decimal_digits(m).len() + 1);
    }
}

proof fn lemma_zeros_value(k: nat)
    ensures
        decimal_value(Seq::new(k, |i: int| '0')) == 0,
    decreases k,
{
    if k > 0 {
        lemma_zeros_value((k - 1) as nat);
        assert(Seq::new(k, |i: int| '0').drop_last() =~= Seq::new((k - 1) as nat, |i: int| '0'));
    }
}

proof fn lemma_leading_zeros_value(k: nat, s: Seq<char>)
    ensures
        decimal_value(Seq::new(k, |i: int| '0') + s) == decimal_value(s),
    decreases s.len(),
{
    let z = Seq::new(k, |i: int| '0');
    if s.len() == 0 {
        lemma_zeros_value(k);
        assert(z + s =~= z);
    } else {
        lemma_leading_zeros_value(k, s.drop_last());
        assert((z + s).drop_last() =~= z + s.drop_last());
        assert((z + s).last() == s.last());
    }
}

/// `zero_padded(n, width)` is the decimal numeral of `n` with zeros in
/// front: digits only, reading back as `n`, `width` characters long unless
/// `n` needs more.
pub proof fn lemma_zero_padded_numeral(n: nat, width: nat)
    ensures
        all_decimal_digits(zero_padded(n, width)),
        decimal_value(zero_padded(n, width)) == n,
        zero_padded(n, width).len() == if decimal_digits(n).len() >= width {
            decimal_digits(n).len()
        } else {
            width
        },
{
    lemma_decimal_digits_numeral(n);
    let d = decimal_digits(n);
    if d.len() < width {
        let k = (width - d.len()) as nat;
        let z = Seq::new(k, |i: int| '0');
        lemma_leading_zeros_value(k, d);
        assert forall|i: int| 0 <= i < (z + d).len() implies ('0' as int) <= (#[trigger] (z
            + d)[i]) as int <= ('9' as int) by {
            if i >= k {
                assert((z + d)[i] == d[i - k]);
            }
        }
    }
}

/// The log text of a timestamp whose year has at most four digits, and
/// whose other fields are in range, is 27 characters long, and each field
/// reads back, as a decimal number, at its fixed place:
/// `YYYY-MM-DD hh:mm:ss.mmm UTC`.
pub proof fn lemma_utc_text_fields(t: UtcDateTime)
    requires
        0 <= t.year <= 9999,
        t.month < 100,
        t.day < 100,
        t.hour < 100,
        t.minute < 100,
        t.second < 100,
        t.millis < 1000,
    ensures
        utc_text(t).len() == 27,
        decimal_value(utc_text(t).subrange(0, 4)) == t.year,
        decimal_value(utc_text(t).subrange(5, 7)) == t.month,
        decimal_value(utc_text(t).subrange(8, 10)) == t.day,
        decimal_value(utc_text(t).subrange(11, 13)) == t.hour,
        decimal_value(utc_text(t).subrange(14, 16)) == t.minute,
        decimal_value(utc_text(t).subrange(17, 19)) == t.second,
        decimal_value(utc_text(t).subrange(20, 23)) == t.millis,
        utc_text(t)[4] == '-' && utc_text(t)[7] == '-' && utc_text(t)[10] == ' ',
        utc_text(t)[13] == ':' && utc_text(t)[16] == ':' && utc_text(t)[19] == '.',
        utc_text(t).subrange(23, 27) == seq![' ', 'U', 'T', 'C'],
{
    let y = zero_padded(t.year as nat, 4);
    let mo = zero_padded(t.month as nat, 2);
    let d = zero_padded(t.day as nat, 2);
    let h = zero_padded(t.hour as nat, 2);
    let mi = zero_padded(t.minute as nat, 2);
    let se = zero_padded(t.second as nat, 2);
    let ms = zero_padded(t.millis as nat, 3);
    lemma_decimal_digits_len(t.year as nat);
    lemma_decimal_digits_len(t.month as nat);
    lemma_decimal_digits_len(t.day as nat);
    lemma_decimal_digits_len(t.hour as nat);
    lemma_decimal_digits_len(t.minute as nat);
    lemma_decimal_digits_len(t.second as nat);
    lemma_decimal_digits_len(t.millis as nat);
    lemma_zero_padded_numeral(t.year as nat, 4);
    lemma_zero_padded_numeral(t.month as nat, 2);
    lemma_zero_padded_numeral(t.day as nat, 2);
    lemma_zero_padded_numeral(t.hour as nat, 2);
    lemma_zero_padded_numeral(t.minute as nat, 2);
    lemma_zero_padded_numeral(t.second as nat, 2);
    lemma_zero_padded_numeral(t.millis as nat, 3);
    let text = utc_text(t);
    assert(text =~= y + seq!['-'] + mo + seq!['-'] + d + seq![' '] + h + seq![':'] + mi + seq![':']
        + se + seq!['.'] + ms + seq![' ', 'U', 'T', 'C']);
    assert(text.subrange(0, 4) =~= y);
    assert(text.subrange(5, 7) =~= mo);
    assert(text.subrange(8, 10) =~= d);
    assert(text.subrange(11, 13) =~= h);
    assert(text.subrange(14, 16) =~= mi);
    assert(text.subrange(17, 19) =~= se);
    assert(text.subrange(20, 23) =~= ms);
    assert(text.subrange(23, 27) =~= seq![' ', 'U', 'T', 'C']);
}

fn digit_str(d: u64) -> (r: &'static str)
    requires
        d < 10,
    ensures
        r@ == seq![digit_char(d as nat)],
{
    proof {
        reveal_strlit("0");
        reveal_strlit("1");
        reveal_strlit("2");
        reveal_strlit("3");
        reveal_strlit("4");
        reveal_strlit("5");
        reveal_strlit("6");
        reveal_strlit("7");
        reveal_strlit("8");
        reveal_strlit("9");
    }
    if d == 0 {
        "0"
    } else if d == 1 {
        "1"
    } else if d == 2 {
        "2"
    } else if d == 3 {
        "3"
    } else if d == 4 {
        "4"
    } else if d == 5 {
        "5"
    } else if d == 6 {
        "6"
    } else if d == 7 {
        "7"
    } else if d == 8 {
        "8"
    } else {
        "9"
    }
}

fn push_decimal(out: &mut String, n: u64)
    ensures
        final(out)@ == old(out)@ + decimal_digits(n as nat),
    decreases n,
{
    if n >= 10 {
        push_decimal(out, n / 10);
    }
    out.append(digit_str(n % 10));
    proof {
        assert(old(out)@ + decimal_digits(n as nat) =~= old(out)@ + (if n >= 10 {
            decimal_digits((n / 10) as nat)
        } else {
            Seq::<char>::empty()
        }) + seq![digit_char((n % 10) as nat)]);
    }
}

fn decimal_len(n: u64) -> (r: u64)
    ensures
        r == decimal_digits(n as nat).len(),
        1 <= r <= n + 1,
    decreases n,
{
    if n >= 10 {
        let k = decimal_len(n / 10);
        k + 1
    } else {
        1
    }
}

fn push_zero_padded(out: &mut String, n: u64, width: u64)
    ensures
        final(out)@ == old(out)@ + zero_padded(n as nat, width as nat),
{
    let len = decimal_len(n);
    if len < width {
        let mut i: u64 = 0;
        let ghost start = out@;
        while i < width - len
            invariant
                i <= width - len,
                len < width,
                out@ == start + Seq::new(i as nat, |k: int| '0'),
            decreases width - len - i,
        {
            proof {
                reveal_strlit("0");
            }
            out.append("0");
            assert(start + Seq::new((i + 1) as nat, |k: int| '0') =~= start + Seq::new(
                i as nat,
                |k: int| '0',
            ) + seq!['0']);
            i = i + 1;
        }
    }
    push_decimal(out, n);
    assert(out@ =~= old(out)@ + zero_padded(n as nat, width as nat));
}

fn push_signed_zero_padded(out: &mut String, v: i32, width: u64)
    requires
        width >= 1,
    ensures
        final(out)@ == old(out)@ + signed_zero_padded(v as int, width as nat),
{
    if v < 0 {
        proof {
            reveal_strlit("-");
        }
        out.append("-");
        let magnitude: u64 = (0i64 - (v as i64)) as u64;
        push_zero_padded(out, magnitude, width - 1);
        assert(out@ =~= old(out)@ + signed_zero_padded(v as int, width as nat));
    } else {
        push_zero_padded(out, v as u64, width);
    }
}

impl UtcDateTime {
    /// The timestamp as text, `YYYY-MM-DD hh:mm:ss.mmm UTC`, as the log
    /// lines show it.
    pub fn to_text(&self) -> (r: String)
        ensures
            r@ == utc_text(*self),
    {
        proof {
            reveal_strlit("-");
            reveal_strlit(" ");
            reveal_strlit(":");
            reveal_strlit(".");
            reveal_strlit(" UTC");
        }
        let mut out = String::new();
        push_signed_zero_padded(&mut out, self.year, 4);
        out.append("-");
        push_zero_padded(&mut out, self.month as u64, 2);
        out.append("-");
        push_zero_padded(&mut out, self.day as u64, 2);
        out.append(" ");
        push_zero_padded(&mut out, self.hour as u64, 2);
        out.append(":");
        push_zero_padded(&mut out, self.minute as u64, 2);
        out.append(":");
        push_zero_padded(&mut out, self.second as u64, 2);
        out.append(".");
        push_zero_padded(&mut out, self.millis as u64, 3);
        out.append(" UTC");
        assert(out@ =~= utc_text(*self));
        out
    }
}

fn civil_from_days(days_since_unix_epoch: i64) -> (r: (i32, u8, u8))
    requires
        -0x1000_0000_0000_0000 <= days_since_unix_epoch <= 0x1000_0000_0000_0000,
    ensures
        ({
            let (y, m, d) = civil_from_days_spec(days_since_unix_epoch as int);
            r == (#[verifier::truncate] (y as i32), m as u8, d as u8)
        }),
{
    let z = days_since_unix_epoch + 719_468;
    let w = if z >= 0 {
        z
    } else {
        z - 146_096
    };
    let era = w / 146_097;
    proof {
        lemma_floor_of_shifted(z as int, w as int, era as int);
    }
    let doe = z - era * 146_097;
    proof {
        lemma_fundamental_div_mod(z as int, 146097);
        lemma_mod_bound(z as int, 146097);
        lemma_day_of_era_parts(doe as int);
    }
    let yoe = (doe - doe / 1460 + doe / 36_524 - doe / 146_096) / 365;
    let y = yoe + era * 400;
    let doy = doe - (365 * yoe + yoe / 4 - yoe / 100);
    let mp = (5 * doy + 2) / 153;
    let d = doy - (153 * mp + 2) / 5 + 1;
    let m = mp + if mp < 10 {
        3
    } else {
        -9
    };
    let year = y + if m <= 2 {
        1
    } else {
        0
    };

    (#[verifier::truncate] (year as i32), m as u8, d as u8)
}

/// Rounding `z` down to a multiple of `d` is what truncating division does
/// to `z` itself when `z` is non-negative, and to `z - (d - 1)` when it is
/// negative.
proof fn lemma_floor_of_shifted(z: int, w: int, q: int)
    requires
        w == (if z >= 0 { z } else { z - 146096 }),
        q == trunc_div(w, 146097),
    ensures
        q == z / 146097,
{
    if z < 0 {
        let k = (-w) / 146097;
        lemma_fundamental_div_mod(-w, 146097);
        lemma_mod_pos_bound(-w, 146097);
        let r = (-w) % 146097;
        // -w = 146097 k + r, so z = w + 146096 = -146097 k + (146096 - r)
        lemma_fundamental_div_mod_converse(z, 146097, -k, 146096 - r);
    }
}

} // verus!
