use vstd::prelude::*;
use vstd::string::StringExecFns;
use crate::numfmt::{spec_udec, u64_to_string};

verus! {

/// A calendar date in the proleptic Gregorian calendar, held as its day
/// number: day 1 is January 1st of year 1, so the day number of a date is
/// the count of days from the calendar's origin up to and including it.
/// Differences of day numbers are exact day distances.
#[derive(Clone, Copy, PartialEq, Eq, Structural, Debug)]
pub struct Date {
    pub days: i64,
}

/// Gregorian leap-year rule.
pub open spec fn spec_is_leap(y: int) -> bool {
    y % 4 == 0 && (y % 100 != 0 || y % 400 == 0)
}

/// Days in the months strictly before month `m` of a common year.
pub open spec fn spec_days_before_month_common(m: int) -> int {
    if m <= 1 { 0 }
    else if m == 2 { 31 }
    else if m == 3 { 59 }
    else if m == 4 { 90 }
    else if m == 5 { 120 }
    else if m == 6 { 151 }
    else if m == 7 { 181 }
    else if m == 8 { 212 }
    else if m == 9 { 243 }
    else if m == 10 { 273 }
    else if m == 11 { 304 }
    else { 334 }
}

/// Days in the months strictly before month `m` of year `y`.
pub open spec fn spec_days_before_month(y: int, m: int) -> int {
    spec_days_before_month_common(m) + if m > 2 && spec_is_leap(y) { 1int } else { 0int }
}

/// Length of month `m` of year `y`.
pub open spec fn spec_days_in_month(y: int, m: int) -> int {
    if m == 2 { if spec_is_leap(y) { 29int } else { 28int } }
    else if m == 4 || m == 6 || m == 9 || m == 11 { 30 }
    else { 31 }
}

/// A well-formed year/month/day triple, within the range the library
/// supports.
pub open spec fn spec_valid_ymd(y: int, m: int, d: int) -> bool {
    1 <= y <= 9999 && 1 <= m <= 12 && 1 <= d <= spec_days_in_month(y, m)
}

/// Day number of a date: 365 days for every complete year, one more for
/// each leap year among them, the days of the complete months of the
/// current year, and the day of the month.
pub open spec fn spec_day_number(y: int, m: int, d: int) -> int {
    365 * (y - 1) + (y - 1) / 4 - (y - 1) / 100 + (y - 1) / 400
        + spec_days_before_month(y, m) + d
}

fn days_before_month_common(m: u32) -> (r: u32)
    requires
        1 <= m <= 12,
    ensures
        r == spec_days_before_month_common(m as int),
{
    if m <= 1 { 0 }
    else if m == 2 { 31 }
    else if m == 3 { 59 }
    else if m == 4 { 90 }
    else if m == 5 { 120 }
    else if m == 6 { 151 }
    else if m == 7 { 181 }
    else if m == 8 { 212 }
    else if m == 9 { 243 }
    else if m == 10 { 273 }
    else if m == 11 { 304 }
    else { 334 }
}

fn is_leap(y: u32) -> (r: bool)
    ensures
        r == spec_is_leap(y as int),
{
    y % 4 == 0 && (y % 100 != 0 || y % 400 == 0)
}

/// Days in month `m` of year `y`; lets callers check a triple before
/// building a `Date` from it.
pub fn days_in_month(y: u32, m: u32) -> (r: u32)
    requires
        1 <= m <= 12,
    ensures
        r == spec_days_in_month(y as int, m as int),
{
    if m == 2 { if is_leap(y) { 29 } else { 28 } }
    else if m == 4 || m == 6 || m == 9 || m == 11 { 30 }
    else { 31 }
}

impl Date {
    /// The date of a year/month/day triple.
    pub fn from_ymd(y: u32, m: u32, d: u32) -> (r: Date)
        requires
            spec_valid_ymd(y as int, m as int, d as int),
        ensures
            r.days == spec_day_number(y as int, m as int, d as int),
            1 <= r.days,
    {
        let years: u64 = (y - 1) as u64;
        let mut days: u64 = 365 * years + years / 4 - years / 100 + years / 400;
        days = days + days_before_month_common(m) as u64;
        if m > 2 && is_leap(y) {
            days = days + 1;
        }
        days = days + d as u64;
        Date { days: days as i64 }
    }

    /// The date `n` days earlier (or later, for negative `n`).
    pub fn minus_days(&self, n: i64) -> (r: Date)
        requires
            -1000000000 <= self.days <= 1000000000,
            -1000000000 <= n <= 1000000000,
        ensures
            r.days == self.days - n,
    {
        Date { days: self.days - n }
    }

    /// Signed day distance from `self` to `later`: positive when `later`
    /// is after `self`.
    pub fn days_until(&self, later: &Date) -> (r: i64)
        requires
            -1000000000 <= self.days <= 1000000000,
            -1000000000 <= later.days <= 1000000000,
        ensures
            r == later.days - self.days,
    {
        later.days - self.days
    }
}

/// The phrase describing a signed day distance `d` from a past date to the
/// current date: the magnitude, "day" or "days", then "ago" — or "AHEAD"
/// when the distance is negative (the past date lies in the future).
pub open spec fn spec_ago(d: int) -> Seq<char> {
    let mag = if d < 0 { -d } else { d };
    spec_udec(mag as nat) + seq![' ', 'd', 'a', 'y']
        + (if mag == 1 { Seq::<char>::empty() } else { seq!['s'] })
        + (if d < 0 { seq![' ', 'A', 'H', 'E', 'A', 'D'] } else { seq![' ', 'a', 'g', 'o'] })
}

/// "N day(s) ago" for a session `then` seen from `now`, with the plural "s"
/// dropped exactly at distance one and an "AHEAD" marker with positive
/// magnitude when `then` is later than `now`.
pub fn ago_string(then: &Date, now: &Date) -> (s: String)
    requires
        -1000000000 <= then.days <= 1000000000,
        -1000000000 <= now.days <= 1000000000,
    ensures
        s@ == spec_ago(now.days - then.days),
{
    let diff: i64 = now.days - then.days;
    let mag: u64 = if diff < 0 { (-diff) as u64 } else { diff as u64 };
    let mut s = u64_to_string(mag);
    proof {
        reveal_strlit(" day");
        reveal_strlit("s");
        reveal_strlit(" AHEAD");
        reveal_strlit(" ago");
    }
    s.append(" day");
    if mag != 1 {
        s.append("s");
    }
    if diff < 0 {
        s.append(" AHEAD");
    } else {
        s.append(" ago");
    }
    proof {
        assert(s@ =~= spec_ago(now.days - then.days));
    }
    s
}

} // verus!
