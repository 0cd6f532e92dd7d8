//! UTC calendar arithmetic for log timestamps.

use vstd::prelude::*;
use crate::text::{decimal, zero_pad, zero_padded, push_chars, push_str};

verus! {

/// A leap year of the Gregorian calendar.
pub open spec fn is_leap(y: int) -> bool {
    y % 4 == 0 && (y % 100 != 0 || y % 400 == 0)
}

/// The days of month `m` (1 = January) of year `y`.
pub open spec fn month_days(y: int, m: int) -> int {
    if m == 2 {
        if is_leap(y) {
            29
        } else {
            28
        }
    } else if m == 4 || m == 6 || m == 9 || m == 11 {
        30
    } else {
        31
    }
}

/// The days of year `y`.
pub open spec fn year_days(y: int) -> int {
    if is_leap(y) {
        366
    } else {
        365
    }
}

/// Days in year `y` before the first of month `m`.
pub open spec fn days_before_month(y: int, m: int) -> int
    decreases m,
{
    if m <= 1 {
        0
    } else {
        days_before_month(y, m - 1) + month_days(y, m - 1)
    }
}

/// Days from 1970-01-01 to the first of January of year `y` (`y` ≥ 1970).
pub open spec fn days_before_year(y: int) -> int
    decreases y - 1970,
{
    if y <= 1970 {
        0
    } else {
        days_before_year(y - 1) + year_days(y - 1)
    }
}

/// A date on or after 1970-01-01.
pub open spec fn is_date(y: int, m: int, d: int) -> bool {
    y >= 1970 && 1 <= m <= 12 && 1 <= d <= month_days(y, m)
}

/// The number of days from 1970-01-01 to the given date.
pub open spec fn day_number(y: int, m: int, d: int) -> int {
    days_before_year(y) + days_before_month(y, m) + d - 1
}

/// Leap years from year 1 to year `x`.
pub open spec fn leaps_through(x: int) -> int {
    x / 4 - x / 100 + x / 400
}

proof fn lemma_leaps_step(y: int)
    requires
        y >= 1,
    ensures
        leaps_through(y) == leaps_through(y - 1) + if is_leap(y) {
            1int
        } else {
            0int
        },
{
}

proof fn lemma_days_before_year(y: int)
    requires
        y >= 1970,
    ensures
        days_before_year(y) == 365 * (y - 1970) + leaps_through(y - 1) - leaps_through(1969),
    decreases y - 1970,
{
    if y > 1970 {
        lemma_days_before_year(y - 1);
        lemma_leaps_step(y - 1);
    }
}

proof fn lemma_yoe(doe: int)
    requires
        0 <= doe <= 146096,
    ensures
        ({
            let yoe = (doe - doe / 1460 + doe / 36524 - doe / 146096) / 365;
            &&& 0 <= yoe <= 399
            &&& 365 * yoe + yoe / 4 - yoe / 100 <= doe
            &&& doe < 365 * (yoe + 1) + (yoe + 1) / 4 - (yoe + 1) / 100 + (yoe + 1) / 400
        }),
{
}


proof fn lemma_month(doy: int)
    requires
        0 <= doy <= 365,
    ensures
        ({
            let mp = (5 * doy + 2) / 153;
            &&& 0 <= mp <= 11
            &&& (153 * mp + 2) / 5 <= doy
            &&& doy < (153 * (mp + 1) + 2) / 5
        }),
{
}

proof fn lemma_days_before_month(y: int, m: int)
    requires
        1 <= m <= 12,
    ensures
        days_before_month(y, m) == if m == 1 {
            0
        } else if m == 2 {
            31
        } else {
            59 + (if is_leap(y) {
                1int
            } else {
                0int
            }) + (153 * (m - 3) + 2) / 5
        },
{
    reveal_with_fuel(days_before_month, 13);
}

proof fn lemma_leaps_mono(a: int, b: int)
    requires
        1 <= a <= b,
    ensures
        leaps_through(a) <= leaps_through(b),
    decreases b - a,
{
    if a < b {
        lemma_leaps_mono(a, b - 1);
        lemma_leaps_step(b);
    }
}

proof fn lemma_leaps_era(era: int, yoe: int)
    requires
        era >= 0,
        0 <= yoe <= 399,
    ensures
        leaps_through(400 * era + yoe) == 97 * era + yoe / 4 - yoe / 100,
        (yoe + 1) / 4 - yoe / 4 - (yoe + 1) / 100 + yoe / 100 + (yoe + 1) / 400 == if is_leap(
            400 * era + yoe + 1,
        ) {
            1int
        } else {
            0int
        },
{
}

/// The March-based year `big_y`, day `doy` of it (0 = March 1), counted
/// from 1970-01-01.
proof fn lemma_march_day(days: int, era: int, doe: int, yoe: int, doy: int)
    requires
        days >= 0,
        days + 719_468 == 146_097 * era + doe,
        0 <= doe < 146_097,
        0 <= yoe <= 399,
        doe == 365 * yoe + yoe / 4 - yoe / 100 + doy,
    ensures
        365 * (400 * era + yoe - 1970) + leaps_through(400 * era + yoe) - leaps_through(1969) + 59
            + doy == days,
        era >= 4,
{
    lemma_leaps_era(era, yoe);
}

proof fn lemma_civil(days: int, era: int, doe: int, yoe: int, doy: int, mp: int, d: int, m: int, y: int)
    requires
        days >= 0,
        days + 719_468 == 146_097 * era + doe,
        0 <= doe < 146_097,
        0 <= yoe <= 399,
        doe == 365 * yoe + yoe / 4 - yoe / 100 + doy,
        doe < 365 * (yoe + 1) + (yoe + 1) / 4 - (yoe + 1) / 100 + (yoe + 1) / 400,
        0 <= doy <= 365,
        mp == (5 * doy + 2) / 153,
        0 <= mp <= 11,
        (153 * mp + 2) / 5 <= doy < (153 * (mp + 1) + 2) / 5,
        d == doy - (153 * mp + 2) / 5 + 1,
        m == if mp < 10 {
            mp + 3
        } else {
            mp - 9
        },
        y == 400 * era + yoe + if m <= 2 {
            1int
        } else {
            0int
        },
    ensures
        is_date(y, m, d),
        day_number(y, m, d) == days,
{
    let big_y = 400 * era + yoe;
    lemma_march_day(days, era, doe, yoe, doy);
    lemma_leaps_era(era, yoe);
    lemma_days_before_month(y, m);
    if m <= 2 {
        if big_y + 1 < 1970 {
            lemma_leaps_mono(big_y, 1969);
            assert(false);
        }
        lemma_days_before_year(y);
        assert(leaps_through(y - 1) == leaps_through(big_y));
    } else {
        if big_y < 1970 {
            lemma_leaps_mono(big_y, 1969);
            assert(false);
        }
        lemma_days_before_year(y);
        lemma_leaps_step(big_y);
    }
}

proof fn lemma_dbm_mono(y: int, a: int, b: int)
    requires
        1 <= a <= b,
    ensures
        days_before_month(y, a) + (b - a) * 28 <= days_before_month(y, b),
    decreases b - a,
{
    if a < b {
        lemma_dbm_mono(y, a, b - 1);
    }
}

proof fn lemma_dby_mono(a: int, b: int)
    requires
        1970 <= a <= b,
    ensures
        days_before_year(a) + (b - a) * 365 <= days_before_year(b),
    decreases b - a,
{
    if a < b {
        lemma_dby_mono(a, b - 1);
    }
}

/// A date's day number lies within its year.
proof fn lemma_within_year(y: int, m: int, d: int)
    requires
        is_date(y, m, d),
    ensures
        days_before_year(y) <= day_number(y, m, d) < days_before_year(y) + year_days(y),
{
    lemma_days_before_month(y, m);
}

/// Two dates with one day number are the same date.
pub proof fn lemma_date_unique(y1: int, m1: int, d1: int, y2: int, m2: int, d2: int)
    requires
        is_date(y1, m1, d1),
        is_date(y2, m2, d2),
        day_number(y1, m1, d1) == day_number(y2, m2, d2),
    ensures
        y1 == y2 && m1 == m2 && d1 == d2,
{
    lemma_within_year(y1, m1, d1);
    lemma_within_year(y2, m2, d2);
    if y1 < y2 {
        lemma_dby_mono(y1 + 1, y2);
        assert(days_before_year(y1 + 1) == days_before_year(y1) + year_days(y1));
    } else if y2 < y1 {
        lemma_dby_mono(y2 + 1, y1);
        assert(days_before_year(y2 + 1) == days_before_year(y2) + year_days(y2));
    } else {
        if m1 < m2 {
            lemma_dbm_mono(y1, m1 + 1, m2);
            assert(days_before_month(y1, m1 + 1) == days_before_month(y1, m1) + month_days(y1, m1));
        } else if m2 < m1 {
            lemma_dbm_mono(y1, m2 + 1, m1);
            assert(days_before_month(y1, m2 + 1) == days_before_month(y1, m2) + month_days(y1, m2));
        }
    }
}

/// The date whose day number is `days`.
pub open spec fn date_of(days: int) -> (int, int, int) {
    choose|date: (int, int, int)| is_date(date.0, date.1, date.2) && day_number(date.0, date.1, date.2) == days
}

/// The date `days` days after 1970-01-01.
pub fn days_to_ymd(days: u64) -> (r: (u64, u64, u64))
    requires
        days <= u64::MAX - 719_468,
    ensures
        is_date(r.0 as int, r.1 as int, r.2 as int),
        day_number(r.0 as int, r.1 as int, r.2 as int) == days,
        (r.0 as int, r.1 as int, r.2 as int) == date_of(days as int),
{
    let z = days + 719_468;
    let era = z / 146_097;
    let doe = z % 146_097;
    proof {
        lemma_yoe(doe as int);
    }
    let yoe = (doe - doe / 1_460 + doe / 36_524 - doe / 146_096) / 365;
    let doy = doe - (365 * yoe + yoe / 4 - yoe / 100);
    proof {
        lemma_month(doy as int);
    }
    let mp = (5 * doy + 2) / 153;
    let day = doy - (153 * mp + 2) / 5 + 1;
    let month = if mp < 10 {
        mp + 3
    } else {
        mp - 9
    };
    let year = yoe + era * 400 + if month <= 2 {
        1
    } else {
        0
    };
    proof {
        lemma_civil(
            days as int,
            era as int,
            doe as int,
            yoe as int,
            doy as int,
            mp as int,
            day as int,
            month as int,
            year as int,
        );
        let w = (year as int, month as int, day as int);
        assert(is_date(w.0, w.1, w.2) && day_number(w.0, w.1, w.2) == days);
        let c = date_of(days as int);
        lemma_date_unique(w.0, w.1, w.2, c.0, c.1, c.2);
    }
    (year, month, day)
}


/// The UTC calendar fields of a Unix time: year, month, day, hour, minute,
/// second.
pub open spec fn utc_fields(secs: u64) -> (int, int, int, int, int, int) {
    let date = date_of(secs as int / 86400);
    (date.0, date.1, date.2, (secs as int / 3600) % 24, (secs as int / 60) % 60, secs as int % 60)
}

/// Splits a Unix time into UTC year, month, day, hour, minute and second.
pub fn utc_parts(secs: u64) -> (r: (u64, u64, u64, u64, u64, u64))
    ensures
        (r.0 as int, r.1 as int, r.2 as int, r.3 as int, r.4 as int, r.5 as int) == utc_fields(
            secs,
        ),
{
    let s = secs % 60;
    let min = (secs / 60) % 60;
    let h = (secs / 3600) % 24;
    let (y, mo, d) = days_to_ymd(secs / 86400);
    (y, mo, d, h, min, s)
}

/// A number in decimal, zero-padded to `w` digits.
pub open spec fn padded(n: int, w: nat) -> Seq<char> {
    zero_pad(decimal(n as nat), w)
}

/// `YYYY-MM-DD` of a Unix time.
pub open spec fn date_text(secs: u64) -> Seq<char> {
    let f = utc_fields(secs);
    padded(f.0, 4) + "-"@ + padded(f.1, 2) + "-"@ + padded(f.2, 2)
}

/// `YYYY-MM-DD hh:mm:ss UTC` of a Unix time.
pub open spec fn timestamp_text(secs: u64) -> Seq<char> {
    let f = utc_fields(secs);
    date_text(secs) + " "@ + padded(f.3, 2) + ":"@ + padded(f.4, 2) + ":"@ + padded(f.5, 2)
        + " UTC"@
}

/// Formats the date of a Unix time as `YYYY-MM-DD`.
pub fn current_date_str(secs: u64) -> (s: String)
    ensures
        s@ == date_text(secs),
{
    let (y, mo, d, _h, _min, _s) = utc_parts(secs);
    let mut s = String::new();
    push_chars(&mut s, zero_padded(y, 4).as_slice());
    push_str(&mut s, "-");
    push_chars(&mut s, zero_padded(mo, 2).as_slice());
    push_str(&mut s, "-");
    push_chars(&mut s, zero_padded(d, 2).as_slice());
    assert(s@ =~= date_text(secs));
    s
}

/// Formats a Unix time as `YYYY-MM-DD hh:mm:ss UTC`.
pub fn timestamp_str(secs: u64) -> (s: String)
    ensures
        s@ == timestamp_text(secs),
{
    let (_y, _mo, _d, h, min, sec) = utc_parts(secs);
    let mut s = current_date_str(secs);
    push_str(&mut s, " ");
    push_chars(&mut s, zero_padded(h, 2).as_slice());
    push_str(&mut s, ":");
    push_chars(&mut s, zero_padded(min, 2).as_slice());
    push_str(&mut s, ":");
    push_chars(&mut s, zero_padded(sec, 2).as_slice());
    push_str(&mut s, " UTC");
    assert(s@ =~= timestamp_text(secs));
    s
}

/// A log line: `[{timestamp}] [{level}] {msg}`.
pub open spec fn log_line_text(timestamp: Seq<char>, level: Seq<char>, msg: Seq<char>) -> Seq<char> {
    "["@ + timestamp + "] ["@ + level + "] "@ + msg
}

/// Formats a log line.
pub fn log_line(timestamp: &str, level: &str, msg: &str) -> (s: String)
    ensures
        s@ == log_line_text(timestamp@, level@, msg@),
{
    let mut s = String::new();
    push_str(&mut s, "[");
    push_str(&mut s, timestamp);
    push_str(&mut s, "] [");
    push_str(&mut s, level);
    push_str(&mut s, "] ");
    push_str(&mut s, msg);
    assert(s@ =~= log_line_text(timestamp@, level@, msg@));
    s
}

} // verus!
