//! Calendar arithmetic used by the timer: day keys and chunk durations.

use vstd::prelude::*;

verus! {

/// A local wall-clock reading together with the UTC instant it denotes.
///
/// `utc_ns` is the number of nanoseconds since the Unix epoch; the other
/// fields are the local calendar date and time of that instant.
#[derive(Debug, Clone, PartialEq, Eq)]
pub struct LocalDateTime {
    pub year: i32,
    pub month: u32,
    pub day: u32,
    pub hour: u32,
    pub minute: u32,
    pub second: u32,
    pub utc_ns: i64,
}

/// Nanoseconds in one second: instants are Unix nanoseconds, the full
/// precision of the clock readings, so that a span counts only the seconds
/// that truly elapsed.
pub const NANOS_PER_SEC: i64 = 1_000_000_000;

/// Gregorian leap-year rule.
pub open spec fn is_leap_year(year: int) -> bool {
    year % 4 == 0 && (year % 100 != 0 || year % 400 == 0)
}

/// Number of days in `month` (1-based) of `year`.
pub open spec fn days_in_month(year: int, month: int) -> int {
    if month == 2 {
        if is_leap_year(year) { 29 } else { 28 }
    } else if month == 4 || month == 6 || month == 9 || month == 11 {
        30
    } else {
        31
    }
}

/// Days of `year` that precede the first day of `month` (1-based).
pub open spec fn days_before_month(year: int, month: int) -> int
    decreases month,
{
    if month <= 1 {
        0
    } else {
        days_before_month(year, month - 1) + days_in_month(year, month - 1)
    }
}

/// A date that exists in the proleptic Gregorian calendar.
pub open spec fn valid_date(year: int, month: int, day: int) -> bool {
    1 <= month <= 12 && 1 <= day <= days_in_month(year, month)
}

/// Day of the year, starting from 1 on January 1st.
pub open spec fn spec_ordinal(year: int, month: int, day: int) -> int {
    days_before_month(year, month) + day
}

impl LocalDateTime {
    /// The reading names an existing calendar date and a valid time of day.
    pub open spec fn wf(&self) -> bool {
        &&& valid_date(self.year as int, self.month as int, self.day as int)
        &&& self.hour < 24
        &&& self.minute < 60
        &&& self.second < 60
    }
}

proof fn lemma_days_before_month_values(year: int)
    ensures
        days_before_month(year, 1) == 0,
        days_before_month(year, 2) == 31,
        days_before_month(year, 3) == 59 + (if is_leap_year(year) { 1int } else { 0 }),
        days_before_month(year, 4) == 90 + (if is_leap_year(year) { 1int } else { 0 }),
        days_before_month(year, 5) == 120 + (if is_leap_year(year) { 1int } else { 0 }),
        days_before_month(year, 6) == 151 + (if is_leap_year(year) { 1int } else { 0 }),
        days_before_month(year, 7) == 181 + (if is_leap_year(year) { 1int } else { 0 }),
        days_before_month(year, 8) == 212 + (if is_leap_year(year) { 1int } else { 0 }),
        days_before_month(year, 9) == 243 + (if is_leap_year(year) { 1int } else { 0 }),
        days_before_month(year, 10) == 273 + (if is_leap_year(year) { 1int } else { 0 }),
        days_before_month(year, 11) == 304 + (if is_leap_year(year) { 1int } else { 0 }),
        days_before_month(year, 12) == 334 + (if is_leap_year(year) { 1int } else { 0 }),
        days_before_month(year, 13) == 365 + (if is_leap_year(year) { 1int } else { 0 }),
{
    reveal_with_fuel(days_before_month, 14);
}

fn is_leap(year: i32) -> (r: bool)
    ensures
        r == is_leap_year(year as int),
{
    year % 4 == 0 && (year % 100 != 0 || year % 400 == 0)
}

/// Day of the year of a valid date, January 1st being day 1.
pub fn ordinal(year: i32, month: u32, day: u32) -> (r: u32)
    requires
        valid_date(year as int, month as int, day as int),
    ensures
        r as int == spec_ordinal(year as int, month as int, day as int),
        1 <= r <= 366,
{
    proof {
        lemma_days_before_month_values(year as int);
    }
    let leap: u32 = if is_leap(year) { 1 } else { 0 };
    let before: u32 = if month == 1 {
        0
    } else if month == 2 {
        31
    } else if month == 3 {
        59 + leap
    } else if month == 4 {
        90 + leap
    } else if month == 5 {
        120 + leap
    } else if month == 6 {
        151 + leap
    } else if month == 7 {
        181 + leap
    } else if month == 8 {
        212 + leap
    } else if month == 9 {
        243 + leap
    } else if month == 10 {
        273 + leap
    } else if month == 11 {
        304 + leap
    } else {
        334 + leap
    };
    before + day
}

/// The key of the local day a reading belongs to: the year and the day of
/// that year.  Pairing the year with the ordinal keeps December 31st and the
/// following January 1st apart even though the ordinal wraps from 365/366 to 1.
pub fn day_key(dt: &LocalDateTime) -> (r: (i32, u32))
    requires
        dt.wf(),
    ensures
        r.0 == dt.year,
        r.1 as int == spec_ordinal(dt.year as int, dt.month as int, dt.day as int),
{
    (dt.year, ordinal(dt.year, dt.month, dt.day))
}


/// Ordinal of a valid date lies strictly after the days of the earlier months
/// and no later than the last day of its own month.
proof fn lemma_ordinal_within_month(year: int, month: int, day: int)
    requires
        valid_date(year, month, day),
    ensures
        days_before_month(year, month) < spec_ordinal(year, month, day),
        spec_ordinal(year, month, day) <= days_before_month(year, month + 1),
{
    lemma_days_before_month_values(year);
}

/// Two valid dates of the same year with the same ordinal are the same date.
proof fn lemma_ordinal_injective(year: int, m1: int, d1: int, m2: int, d2: int)
    requires
        valid_date(year, m1, d1),
        valid_date(year, m2, d2),
        spec_ordinal(year, m1, d1) == spec_ordinal(year, m2, d2),
    ensures
        m1 == m2,
        d1 == d2,
{
    lemma_days_before_month_values(year);
    lemma_ordinal_within_month(year, m1, d1);
    lemma_ordinal_within_month(year, m2, d2);
    if m1 < m2 {
        assert(days_before_month(year, m1 + 1) <= days_before_month(year, m2));
    } else if m2 < m1 {
        assert(days_before_month(year, m2 + 1) <= days_before_month(year, m1));
    }
}

/// Day keys identify local days: two valid readings get the same key
/// exactly when they fall on the same calendar date.  In particular the
/// last day of a year and the first day of the next one never share a key,
/// and neither do days with the same ordinal in different years.
pub proof fn day_key_identifies_date(a: LocalDateTime, b: LocalDateTime)
    requires
        a.wf(),
        b.wf(),
    ensures
        ((a.year, spec_ordinal(a.year as int, a.month as int, a.day as int))
            == (b.year, spec_ordinal(b.year as int, b.month as int, b.day as int)))
            <==> (a.year == b.year && a.month == b.month && a.day == b.day),
{
    if a.year == b.year && spec_ordinal(a.year as int, a.month as int, a.day as int)
        == spec_ordinal(b.year as int, b.month as int, b.day as int) {
        lemma_ordinal_injective(a.year as int, a.month as int, a.day as int, b.month as int, b.day as int);
    }
}

/// The UTC instant at which the local day of `dt` began.
///
/// `resolved_midnight_ns` is that instant as the machine's time zone resolves
/// local 00:00:00 of the reading's date; it is `None` when the zone has no
/// single such instant (a daylight-saving change that skips or repeats
/// midnight), and then the reading's own instant is used instead.
pub fn midnight_utc_of(dt: &LocalDateTime, resolved_midnight_ns: Option<i64>) -> (r: i64)
    ensures
        r == match resolved_midnight_ns {
            Some(m) => m,
            None => dt.utc_ns,
        },
{
    match resolved_midnight_ns {
        Some(m) => m,
        None => dt.utc_ns,
    }
}

/// Whole seconds in the span from `start_ns` to `end_ns`, truncated toward
/// zero (negative when the span runs backwards).
pub open spec fn spec_whole_secs(start_ns: int, end_ns: int) -> int {
    if end_ns >= start_ns {
        (end_ns - start_ns) / NANOS_PER_SEC as int
    } else {
        -((start_ns - end_ns) / NANOS_PER_SEC as int)
    }
}

/// Whole seconds between two instants given in nanoseconds, truncated
/// toward zero.
pub fn whole_secs_between(start_ns: i64, end_ns: i64) -> (r: i64)
    ensures
        r as int == spec_whole_secs(start_ns as int, end_ns as int),
{
    let diff: i128 = end_ns as i128 - start_ns as i128;
    if diff >= 0 {
        (diff / NANOS_PER_SEC as i128) as i64
    } else {
        let back: i128 = start_ns as i128 - end_ns as i128;
        -((back / NANOS_PER_SEC as i128) as i64)
    }
}

/// Whole seconds between two instants, never negative: the duration that is
/// recorded for a time slot running from `start_ns` to `end_ns`.
pub fn duration_secs(start_ns: i64, end_ns: i64) -> (r: i64)
    ensures
        r >= 0,
        r as int == if spec_whole_secs(start_ns as int, end_ns as int) > 0 {
            spec_whole_secs(start_ns as int, end_ns as int)
        } else {
            0
        },
{
    let s = whole_secs_between(start_ns, end_ns);
    if s > 0 { s } else { 0 }
}

} // verus!
