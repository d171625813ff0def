//! Timestamps: seconds since 1970 written as a date and time of day in UTC.

use vstd::prelude::*;
use vstd::string::*;
use crate::text::{decimal, decimal_string};

verus! {

/// Whether `year` of the Gregorian calendar has a 29th of February.
pub open spec fn is_leap_year(year: int) -> bool {
    (year % 4 == 0 && year % 100 != 0) || year % 400 == 0
}

/// The number of days of `year`.
pub open spec fn days_in_year(year: int) -> int {
    if is_leap_year(year) {
        366
    } else {
        365
    }
}

/// The number of days of month `month` (1 to 12) of `year`.
pub open spec fn days_in_month(year: int, month: int) -> int {
    if month == 2 {
        if is_leap_year(year) {
            29
        } else {
            28
        }
    } else if month == 4 || month == 6 || month == 9 || month == 11 {
        30
    } else {
        31
    }
}

/// The number of days from the first of January 1970 to the first of January of `year`.
pub open spec fn days_before_year(year: int) -> int
    decreases year - 1970,
{
    if year <= 1970 {
        0
    } else {
        days_before_year(year - 1) + days_in_year(year - 1)
    }
}

/// The number of days from the first of January of `year` to the first of `month`.
pub open spec fn days_before_month(year: int, month: int) -> int
    decreases month,
{
    if month <= 1 {
        0
    } else {
        days_before_month(year, month - 1) + days_in_month(year, month - 1)
    }
}

/// A date and a time of day.
pub struct CivilTime {
    pub year: u64,
    pub month: u64,
    pub day: u64,
    pub hour: u64,
    pub minute: u64,
    pub second: u64,
}

impl CivilTime {
    /// Whether this is a date of the calendar, from 1970 on, and a time of day.
    pub open spec fn is_valid(self) -> bool {
        &&& 1970 <= self.year
        &&& 1 <= self.month <= 12
        &&& 1 <= self.day <= days_in_month(self.year as int, self.month as int)
        &&& self.hour < 24
        &&& self.minute < 60
        &&& self.second < 60
    }

    /// The seconds from the start of 1970 to this moment.
    pub open spec fn unix_seconds(self) -> int {
        let days = days_before_year(self.year as int) + days_before_month(
            self.year as int,
            self.month as int,
        ) + self.day - 1;
        days * 86400 + self.hour * 3600 + self.minute * 60 + self.second
    }

    /// This moment written as `YYYY-MM-DDTHH:MM:SSZ`.
    pub open spec fn iso8601(self) -> Seq<char> {
        decimal(self.year as nat, 4) + seq!['-'] + decimal(self.month as nat, 2) + seq!['-']
            + decimal(self.day as nat, 2) + seq!['T'] + decimal(self.hour as nat, 2) + seq![':']
            + decimal(self.minute as nat, 2) + seq![':'] + decimal(self.second as nat, 2) + seq![
            'Z',
        ]
    }
}

/// Whether `y` has a 29th of February.
pub fn is_leap(y: i64) -> (leap: bool)
    ensures
        leap == is_leap_year(y as int),
{
    (y % 4 == 0 && y % 100 != 0) || y % 400 == 0
}

/// The number of days of 400 years in a row.
pub const DAYS_IN_400_YEARS: u64 = 146097;

/// The days before a year, counted at once: 365 for each year since 1970, and
/// one more for each leap year among them.
pub proof fn lemma_days_before_year(year: int)
    requires
        1970 <= year,
    ensures
        days_before_year(year) == 365 * (year - 1970) + (year - 1) / 4 - (year - 1) / 100 + (year
            - 1) / 400 - 477,
        (year - 1970) % 400 == 0 ==> days_before_year(year) == ((year - 1970) / 400)
            * DAYS_IN_400_YEARS,
    decreases year - 1970,
{
    if year > 1970 {
        lemma_days_before_year(year - 1);
    }
}

/// The start of a later year is at least one year's length away.
pub proof fn lemma_years_grow(earlier: int, later: int)
    requires
        1970 <= earlier < later,
    ensures
        days_before_year(earlier) + days_in_year(earlier) <= days_before_year(later),
        0 <= days_before_year(earlier),
    decreases later - earlier,
{
    if earlier + 1 < later {
        lemma_years_grow(earlier, later - 1);
    }
    lemma_year_starts(earlier);
}

/// No year starts before 1970 does, and a year ends where the next one starts.
pub proof fn lemma_year_starts(year: int)
    requires
        1970 <= year,
    ensures
        0 <= days_before_year(year),
        days_before_year(year + 1) == days_before_year(year) + days_in_year(year),
    decreases year - 1970,
{
    if year > 1970 {
        lemma_year_starts(year - 1);
    }
}

/// Where each month starts within its year.
pub proof fn lemma_month_starts(year: int)
    ensures
        days_before_month(year, 1) == 0,
        days_before_month(year, 2) == 31,
        days_before_month(year, 3) == 31 + days_in_month(year, 2),
        days_before_month(year, 4) == 62 + days_in_month(year, 2),
        days_before_month(year, 5) == 92 + days_in_month(year, 2),
        days_before_month(year, 6) == 123 + days_in_month(year, 2),
        days_before_month(year, 7) == 153 + days_in_month(year, 2),
        days_before_month(year, 8) == 184 + days_in_month(year, 2),
        days_before_month(year, 9) == 215 + days_in_month(year, 2),
        days_before_month(year, 10) == 245 + days_in_month(year, 2),
        days_before_month(year, 11) == 276 + days_in_month(year, 2),
        days_before_month(year, 12) == 306 + days_in_month(year, 2),
        days_in_year(year) == 337 + days_in_month(year, 2),
{
    reveal_with_fuel(days_before_month, 13);
}

/// A moment has one date and time of day only.
pub proof fn lemma_civil_time_is_unique(a: CivilTime, b: CivilTime)
    requires
        a.is_valid(),
        b.is_valid(),
        a.unix_seconds() == b.unix_seconds(),
    ensures
        a == b,
{
    lemma_month_starts(a.year as int);
    lemma_month_starts(b.year as int);
    let day_a = days_before_year(a.year as int) + days_before_month(a.year as int, a.month as int)
        + a.day - 1;
    let day_b = days_before_year(b.year as int) + days_before_month(b.year as int, b.month as int)
        + b.day - 1;
    lemma_year_starts(a.year as int);
    lemma_year_starts(b.year as int);
    assert(day_a == day_b);
    if a.year < b.year {
        lemma_years_grow(a.year as int, b.year as int);
    }
    if b.year < a.year {
        lemma_years_grow(b.year as int, a.year as int);
    }
    assert(a.year == b.year);
    assert(a.month == b.month);
}

/// The date and time of day that lie `secs` seconds after the start of 1970.
pub open spec fn civil_time_of(secs: nat) -> CivilTime {
    choose|t: CivilTime| t.is_valid() && t.unix_seconds() == secs
}

fn year_length(year: u64) -> (days: u64)
    requires
        year <= i64::MAX,
    ensures
        days == days_in_year(year as int),
{
    if is_leap(year as i64) {
        366
    } else {
        365
    }
}

fn month_length(year: u64, month: u64) -> (days: u64)
    requires
        year <= i64::MAX,
    ensures
        days == days_in_month(year as int, month as int),
{
    if month == 2 {
        if is_leap(year as i64) {
            29
        } else {
            28
        }
    } else if month == 4 || month == 6 || month == 9 || month == 11 {
        30
    } else {
        31
    }
}

/// Splits a count of seconds since the start of 1970 into a date and a time of day.
pub fn civil_time(secs: u64) -> (t: CivilTime)
    ensures
        t.is_valid(),
        t.unix_seconds() == secs,
        t == civil_time_of(secs as nat),
{
    let days = secs / 86400;
    let time_secs = secs % 86400;
    let hour = time_secs / 3600;
    let minute = (time_secs % 3600) / 60;
    let second = time_secs % 60;

    // Whole cycles of 400 years are taken off at once; less than one is left.
    let cycles = days / DAYS_IN_400_YEARS;
    let mut year: u64 = 1970 + 400 * cycles;
    let mut remaining: u64 = days % DAYS_IN_400_YEARS;
    proof {
        lemma_days_before_year(year as int);
    }
    while remaining >= year_length(year)
        invariant
            1970 <= year,
            (year - 1970) * 365 + remaining <= days,
            days <= u64::MAX / 86400,
            days == days_before_year(year as int) + remaining,
        decreases remaining,
    {
        proof {
            lemma_year_starts(year as int);
        }
        remaining -= year_length(year);
        year += 1;
    }
    let day_of_year = remaining;
    let mut month: u64 = 1;
    proof {
        lemma_month_starts(year as int);
    }
    while month < 12 && remaining >= month_length(year, month)
        invariant
            1 <= month <= 12,
            year <= i64::MAX,
            day_of_year == days_before_month(year as int, month as int) + remaining,
            day_of_year < days_in_year(year as int),
        decreases 12 - month,
    {
        proof {
            lemma_month_starts(year as int);
        }
        remaining -= month_length(year, month);
        month += 1;
    }
    proof {
        lemma_month_starts(year as int);
    }
    let t = CivilTime { year, month, day: remaining + 1, hour, minute, second };
    proof {
        let other = civil_time_of(secs as nat);
        assert(t.is_valid() && t.unix_seconds() == secs);
        lemma_civil_time_is_unique(t, other);
    }
    t
}

/// Writes the moment `secs` seconds after the start of 1970 as `YYYY-MM-DDTHH:MM:SSZ`.
pub fn format_iso8601(secs: u64) -> (text: String)
    ensures
        text@ == civil_time_of(secs as nat).iso8601(),
{
    let t = civil_time(secs);
    proof {
        reveal_strlit("-");
        reveal_strlit("T");
        reveal_strlit(":");
        reveal_strlit("Z");
    }
    let mut text = decimal_string(t.year, 4);
    text.append("-");
    text.append(decimal_string(t.month, 2).as_str());
    text.append("-");
    text.append(decimal_string(t.day, 2).as_str());
    text.append("T");
    text.append(decimal_string(t.hour, 2).as_str());
    text.append(":");
    text.append(decimal_string(t.minute, 2).as_str());
    text.append(":");
    text.append(decimal_string(t.second, 2).as_str());
    text.append("Z");
    assert("-"@ =~= seq!['-']);
    assert("T"@ =~= seq!['T']);
    assert(":"@ =~= seq![':']);
    assert("Z"@ =~= seq!['Z']);
    text
}

/// The reading of the system clock: nanoseconds since the start of 1970, and
/// zero where the clock stands before that. Calls `std::time::SystemTime::now`
/// and measures from `std::time::UNIX_EPOCH`; nothing is claimed of the value.
#[verifier::external_body]
pub(crate) fn unix_time_nanos() -> (nanos: u128) {
    std::time::SystemTime::now().duration_since(std::time::UNIX_EPOCH).unwrap_or_default().as_nanos()
}

/// The whole seconds of a count of nanoseconds (the largest count of seconds, if there are more).
pub open spec fn whole_seconds(nanos: u128) -> nat {
    if nanos / 1_000_000_000 > u64::MAX {
        u64::MAX as nat
    } else {
        (nanos / 1_000_000_000) as nat
    }
}

/// The timestamp of the moment `nanos` nanoseconds after the start of 1970.
pub fn timestamp_at(nanos: u128) -> (text: String)
    ensures
        text@ == civil_time_of(whole_seconds(nanos)).iso8601(),
{
    let quotient = nanos / 1_000_000_000;
    let secs: u64 = if quotient > u64::MAX as u128 {
        u64::MAX
    } else {
        quotient as u64
    };
    format_iso8601(secs)
}

/// The current time in UTC as `YYYY-MM-DDTHH:MM:SSZ`.
pub fn now_iso8601() -> (text: String)
    ensures
        exists|nanos: u128| text@ == civil_time_of(whole_seconds(nanos)).iso8601(),
{
    timestamp_at(unix_time_nanos())
}

/// The current time in UTC as `YYYY-MM-DDTHH:MM:SSZ`, for callers outside the registry.
pub fn now_iso8601_pub() -> (text: String)
    ensures
        exists|nanos: u128| text@ == civil_time_of(whole_seconds(nanos)).iso8601(),
{
    now_iso8601()
}

} // verus!
