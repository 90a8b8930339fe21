//! Calendar dates, timestamps and the clock, held as plain numbers.
//!
//! A [`Date`] is the day number in the proleptic Gregorian calendar with
//! January 1 of year 1 as day 1 (chrono's `num_days_from_ce`); a [`Timestamp`] is a
//! UTC instant as seconds and nanoseconds since the Unix epoch.

use crate::text::two_digits;
use chrono::Datelike;
use vstd::prelude::*;

verus! {

/// Day number of the first date chrono can represent (-262143-01-01).
pub const MIN_DAY: i32 = -95746129;

/// Day number of the last date chrono can represent (+262142-12-31).
pub const MAX_DAY: i32 = 95745399;

/// Whether a day number lies in chrono's calendar range.
pub open spec fn day_in_range(d: int) -> bool {
    MIN_DAY <= d && d <= MAX_DAY
}

/// A calendar date without time zone, within chrono's calendar range.
#[derive(Debug, Clone, Copy, PartialEq, Eq, Structural)]
pub struct Date {
    /// Day number, January 1 of year 1 being day 1.
    days: i32,
}

impl View for Date {
    type V = int;

    /// The day number.
    closed spec fn view(&self) -> int {
        self.days as int
    }
}

/// The date with day number `d`, as a value for specifications.
pub closed spec fn date_of(d: int) -> Date {
    Date { days: d as i32 }
}

/// The day number of the date built from `d` is `d`, for day numbers in range.
pub broadcast proof fn lemma_date_of_view(d: int)
    requires
        day_in_range(d),
    ensures
        #[trigger] date_of(d)@ == d,
{
}

/// Dates are equal exactly when their day numbers are.
pub broadcast proof fn lemma_date_view_eq(a: Date, b: Date)
    ensures
        (#[trigger] a@ == #[trigger] b@) <==> a == b,
{
}

/// A UTC instant.
#[derive(Debug, Clone, Copy, PartialEq, Eq, Structural)]
pub struct Timestamp {
    /// Whole seconds since 1970-01-01T00:00:00Z.
    pub secs: i64,
    /// Nanoseconds within the second.
    pub nanos: u32,
}

/// Whether `year` is a leap year of the proleptic Gregorian calendar.
pub open spec fn is_leap_year(year: int) -> bool {
    year % 4 == 0 && (year % 100 != 0 || year % 400 == 0)
}

/// The number of days of `month` (1 to 12) in `year`.
pub open spec fn month_length(year: int, month: int) -> int {
    if month == 2 {
        if is_leap_year(year) { 29 } else { 28 }
    } else if month == 4 || month == 6 || month == 9 || month == 11 {
        30
    } else {
        31
    }
}

/// The day number of a valid date, counting January 1 of year 1 as day 1: years are
/// counted from March so that the leap day comes last, in eras of 400 years of
/// 146097 days.
pub open spec fn civil_day(year: int, month: int, day: int) -> int {
    let y = if month <= 2 { year - 1 } else { year };
    let era = y / 400;
    let yoe = y - era * 400;
    let mp = if month > 2 { month - 3 } else { month + 9 };
    let doy = (153 * mp + 2) / 5 + day - 1;
    let doe = yoe * 365 + yoe / 4 - yoe / 100 + doy;
    era * 146097 + doe - 305
}

/// Day number of the date `year-month-day` (chrono's `NaiveDate::from_ymd_opt`
/// followed by `num_days_from_ce`): `None` unless the month is 1 to 12, the day lies in
/// that month and the year in chrono's range (-262143 to 262142).
pub open spec fn spec_ymd_days(year: i32, month: u32, day: u32) -> Option<i32> {
    if -262143 <= year <= 262142 && 1 <= month <= 12 && 1 <= day <= month_length(year as int, month as int) {
        Some(civil_day(year as int, month as int, day as int) as i32)
    } else {
        None
    }
}

/// The `YYYY-MM-DD` text of a day number (chrono's `Display` for `NaiveDate`).
pub uninterp spec fn spec_date_text(days: i32) -> Seq<char>;

/// `YYYY-MM-DD` with a four-digit year and two-digit month and day, zero-padded, for a
/// year from 0 to 9999.
pub open spec fn iso_date_text(year: int, month: int, day: int) -> Seq<char> {
    two_digits((year / 100) as nat) + two_digits((year % 100) as nat) + "-"@ + two_digits(month as nat) + "-"@
        + two_digits(day as nat)
}

/// The day number that chrono reads from a `YYYY-MM-DD` text, if it is a valid date.
pub uninterp spec fn spec_parse_date(text: Seq<char>) -> Option<i32>;

/// The RFC 3339 text of a UTC instant (chrono's `DateTime::<Utc>::to_rfc3339`).
pub uninterp spec fn spec_rfc3339(secs: i64, nanos: u32) -> Seq<char>;

/// `NaiveDate::from_ymd_opt(year, month, day)` mapped to its day number (see
/// `spec_ymd_days`).
#[verifier::external_body]
fn ymd_days(year: i32, month: u32, day: u32) -> (r: Option<i32>)
    ensures
        r == spec_ymd_days(year, month, day),
{
    chrono::NaiveDate::from_ymd_opt(year, month, day).map(|d| d.num_days_from_ce())
}

/// `NaiveDate::from_num_days_from_ce_opt(days)` formatted with `Display`; the empty
/// text where chrono has no such date. The result is named; for a date whose year lies
/// from 0 to 9999 it is the zero-padded `YYYY-MM-DD` (chrono's `Debug` for `NaiveDate`,
/// which `Display` calls, writes the year as two pairs of digits there, and with a sign
/// outside that range, which is left unsaid).
#[verifier::external_body]
fn date_text(days: i32) -> (r: String)
    ensures
        r@ == spec_date_text(days),
        forall|y: i32, m: u32, d: u32|
            0 <= y <= 9999 && #[trigger] spec_ymd_days(y, m, d) == Some(days) ==> r@ == iso_date_text(y as int, m as int, d as int),
{
    match chrono::NaiveDate::from_num_days_from_ce_opt(days) {
        Some(d) => d.to_string(),
        None => String::new(),
    }
}

/// `NaiveDate::parse_from_str(text, "%Y-%m-%d")` mapped to its day number. The result
/// is named; chrono's parsing rules are not restated.
#[verifier::external_body]
fn parse_date_days(text: &str) -> (r: Option<i32>)
    ensures
        r == spec_parse_date(text@),
{
    chrono::NaiveDate::parse_from_str(text, "%Y-%m-%d").ok().map(|d| d.num_days_from_ce())
}

/// `DateTime::<Utc>::from_timestamp(secs, nanos)` formatted with `to_rfc3339`; the empty
/// text where chrono has no such instant. The result is named.
#[verifier::external_body]
fn rfc3339_text(secs: i64, nanos: u32) -> (r: String)
    ensures
        r@ == spec_rfc3339(secs, nanos),
{
    match chrono::DateTime::from_timestamp(secs, nanos) {
        Some(t) => t.to_rfc3339(),
        None => String::new(),
    }
}

/// Nanoseconds since the Unix epoch on the system clock (`SystemTime::now()`), zero if
/// the clock reads earlier than the epoch. It depends on the clock, so nothing is promised
/// of it.
#[verifier::external_body]
pub(crate) fn clock_nanos() -> (r: u128) {
    std::time::SystemTime::now()
        .duration_since(std::time::UNIX_EPOCH)
        .map(|d| d.as_nanos())
        .unwrap_or(0)
}

/// Day number of 1970-01-01, the Unix epoch.
pub const EPOCH_DAY: i32 = 719163;

/// Nanoseconds in a day.
pub const NANOS_PER_DAY: u128 = 86_400_000_000_000;

/// Nanoseconds in a second.
pub const NANOS_PER_SEC: u128 = 1_000_000_000;

/// The date of a clock reading of `nanos` nanoseconds since the Unix epoch, held at
/// the last date of the calendar for readings beyond it.
pub open spec fn date_of_clock(nanos: u128) -> int {
    let d = EPOCH_DAY + nanos / NANOS_PER_DAY;
    if d <= MAX_DAY { d } else { MAX_DAY as int }
}

/// The UTC instant of a clock reading of `nanos` nanoseconds since the Unix epoch: the
/// whole seconds (held at `i64::MAX` beyond it) and the nanoseconds within the second.
pub open spec fn timestamp_of_clock(nanos: u128) -> Timestamp {
    let s = nanos / NANOS_PER_SEC;
    Timestamp {
        secs: if s <= i64::MAX { s as i64 } else { i64::MAX },
        nanos: (nanos % NANOS_PER_SEC) as u32,
    }
}

/// Milliseconds since the Unix epoch on the system clock.
pub fn clock_millis() -> (r: u64) {
    let n = clock_nanos();
    let ms = n / 1_000_000;
    if ms > 0xffff_ffff_ffff_ffff {
        0xffff_ffff_ffff_ffff
    } else {
        ms as u64
    }
}

/// The date a text names in the form `YYYY-MM-DD`, as chrono parses it, if it lies in
/// the calendar's range.
pub open spec fn parsed_date(text: Seq<char>) -> Option<Date> {
    match spec_parse_date(text) {
        Some(d) => if day_in_range(d as int) { Some(date_of(d as int)) } else { None::<Date> },
        None => None::<Date>,
    }
}

impl Date {
    #[verifier::type_invariant]
    spec fn in_range(self) -> bool {
        day_in_range(self.days as int)
    }

    /// The date `year-month-day`, if it exists in the calendar.
    pub fn from_ymd_opt(year: i32, month: u32, day: u32) -> (r: Option<Date>)
        ensures
            r == (match spec_ymd_days(year, month, day) {
                Some(d) => if day_in_range(d as int) { Some(date_of(d as int)) } else { None::<Date> },
                None => None::<Date>,
            }),
    {
        match ymd_days(year, month, day) {
            Some(d) => Date::checked(d),
            None => None,
        }
    }

    /// The date with day number `d`, if that lies in the calendar's range.
    pub fn checked(d: i32) -> (r: Option<Date>)
        ensures
            r == (if day_in_range(d as int) { Some(date_of(d as int)) } else { None::<Date> }),
    {
        if MIN_DAY <= d && d <= MAX_DAY {
            Some(Date { days: d })
        } else {
            None
        }
    }

    /// The day number of the date.
    pub fn days(&self) -> (r: i32)
        ensures
            r == self@,
            day_in_range(r as int),
    {
        proof {
            use_type_invariant(self);
        }
        self.days
    }

    /// Today's date in UTC: the date of the system clock's reading (see
    /// `date_of_clock`); a clock before the Unix epoch reads as the epoch.
    pub fn today() -> (r: Date)
        ensures
            exists|nanos: u128| r@ == #[trigger] date_of_clock(nanos),
    {
        let nanos = clock_nanos();
        let days = nanos / NANOS_PER_DAY;
        let d: i32 = if days <= (MAX_DAY - EPOCH_DAY) as u128 { EPOCH_DAY + days as i32 } else { MAX_DAY };
        let r = Date { days: d };
        assert(r@ == date_of_clock(nanos));
        r
    }

    /// Reads a `YYYY-MM-DD` date.
    pub fn parse(text: &str) -> (r: Option<Date>)
        ensures
            r == parsed_date(text@),
    {
        match parse_date_days(text) {
            Some(d) => Date::checked(d),
            None => None,
        }
    }

    /// The date as `YYYY-MM-DD` (zero-padded for years 0 to 9999).
    pub fn to_text(&self) -> (r: String)
        ensures
            r@ == spec_date_text(self@ as i32),
            forall|y: i32, m: u32, d: u32|
                0 <= y <= 9999 && #[trigger] spec_ymd_days(y, m, d) == Some(self@ as i32) ==> r@ == iso_date_text(y as int, m as int, d as int),
    {
        date_text(self.days)
    }

    /// The date `n` days later (earlier for negative `n`), or `None` when that leaves
    /// the calendar's range.
    pub fn add_days(self, n: i64) -> (r: Option<Date>)
        ensures
            r == (if day_in_range(self@ + n) {
                Some(date_of(self@ + n))
            } else {
                None::<Date>
            }),
    {
        match (self.days as i64).checked_add(n) {
            Some(t) => {
                if t < MIN_DAY as i64 || t > MAX_DAY as i64 {
                    None
                } else {
                    Some(Date { days: t as i32 })
                }
            },
            None => None,
        }
    }

    /// The number of days from `other` to `self`.
    pub fn days_since(self, other: Date) -> (r: i64)
        ensures
            r == self@ - other@,
    {
        proof {
            use_type_invariant(&self);
            use_type_invariant(&other);
        }
        self.days as i64 - other.days as i64
    }
}

impl Timestamp {
    /// The current UTC instant.
    pub fn now() -> (r: Timestamp)
        ensures
            exists|nanos: u128| r == #[trigger] timestamp_of_clock(nanos),
            r.nanos < 1_000_000_000,
    {
        let nanos = clock_nanos();
        let s = nanos / NANOS_PER_SEC;
        let secs: i64 = if s <= 0x7fff_ffff_ffff_ffff { s as i64 } else { 0x7fff_ffff_ffff_ffff };
        let r = Timestamp { secs, nanos: (nanos % NANOS_PER_SEC) as u32 };
        assert(r == timestamp_of_clock(nanos));
        r
    }

    /// The instant as RFC 3339 text.
    pub fn to_rfc3339(&self) -> (r: String)
        ensures
            r@ == spec_rfc3339(self.secs, self.nanos),
    {
        rfc3339_text(self.secs, self.nanos)
    }
}

} // verus!
