//! Calendar dates of readings and the day of the year.
use vstd::prelude::*;

use vstd::string::*;

verus! {

/// The earliest year that a date may hold.
pub const MIN_YEAR: i32 = -262143;

/// The latest year that a date may hold.
pub const MAX_YEAR: i32 = 262142;

/// A leap year of the proleptic Gregorian calendar.
pub open spec fn is_leap_year(year: int) -> bool {
    year % 4 == 0 && (year % 100 != 0 || year % 400 == 0)
}

pub open spec fn days_in_month(year: int, month: int) -> int {
    if month == 2 {
        if is_leap_year(year) {
            29
        } else {
            28
        }
    } else if month == 4 || month == 6 || month == 9 || month == 11 {
        30
    } else {
        31
    }
}

/// The number of days of `year` that come before the first of `month`.
pub open spec fn days_before_month(year: int, month: int) -> int
    decreases month,
{
    if month <= 1 {
        0
    } else {
        days_before_month(year, month - 1) + days_in_month(year, month - 1)
    }
}

/// The year, month and day name an existing day within the supported years.
pub open spec fn valid_ymd(year: i32, month: u32, day: u32) -> bool {
    &&& MIN_YEAR <= year <= MAX_YEAR
    &&& 1 <= month <= 12
    &&& 1 <= day <= days_in_month(year as int, month as int)
}

/// The position of a day within its year, counting the first of January as 1.
pub open spec fn ordinal_of(year: i32, month: u32, day: u32) -> int {
    days_before_month(year as int, month as int) + day
}

/// What parsing `text` as a `year-month-day` date yields, as year, month and day.
pub uninterp spec fn parsed_ymd(text: Seq<char>) -> Option<(i32, u32, u32)>;

/// Relies on chrono's `NaiveDate::from_ymd_opt`: it succeeds exactly on the
/// existing days of the supported years.
#[verifier::external_body]
fn calendar_has_day(year: i32, month: u32, day: u32) -> (r: bool)
    ensures
        r == valid_ymd(year, month, day),
{
    chrono::NaiveDate::from_ymd_opt(year, month, day).is_some()
}

/// Relies on chrono's `Datelike::ordinal` of `NaiveDate`: the day of the year,
/// starting at 1.
#[verifier::external_body]
fn calendar_ordinal(year: i32, month: u32, day: u32) -> (r: u32)
    requires
        valid_ymd(year, month, day),
    ensures
        r == ordinal_of(year, month, day),
{
    chrono::Datelike::ordinal(&chrono::NaiveDate::from_ymd_opt(year, month, day).unwrap())
}

/// Relies on chrono's `NaiveTime::from_hms_opt`: it succeeds exactly when the
/// hour, minute and second are in range (no leap second).
#[verifier::external_body]
fn clock_has_time(hour: u32, minute: u32, second: u32) -> (r: bool)
    ensures
        r == (hour < 24 && minute < 60 && second < 60),
{
    chrono::NaiveTime::from_hms_opt(hour, minute, second).is_some()
}

/// Relies on chrono's `NaiveDate::parse_from_str` with the format `%Y-%m-%d`;
/// a date it returns is one that exists.
#[verifier::external_body]
fn parse_year_month_day(text: &str) -> (r: Option<(i32, u32, u32)>)
    ensures
        r == parsed_ymd(text@),
        r matches Some(t) ==> valid_ymd(t.0, t.1, t.2),
{
    chrono::NaiveDate::parse_from_str(text, "%Y-%m-%d").ok().map(
        |d| (chrono::Datelike::year(&d), chrono::Datelike::month(&d), chrono::Datelike::day(&d)),
    )
}

/// A calendar day.
#[derive(Clone, Copy, Debug, PartialEq, Eq, Structural)]
pub struct Date {
    pub year: i32,
    pub month: u32,
    pub day: u32,
}

impl Date {
    pub open spec fn wf(&self) -> bool {
        valid_ymd(self.year, self.month, self.day)
    }

    /// The date of the given year, month and day, if that day exists.
    pub fn from_ymd_opt(year: i32, month: u32, day: u32) -> (r: Option<Date>)
        ensures
            r is Some <==> valid_ymd(year, month, day),
            r is Some ==> r->0 == (Date { year, month, day }),
    {
        if calendar_has_day(year, month, day) {
            Some(Date { year, month, day })
        } else {
            None
        }
    }

    /// This date at the given time of day.
    pub fn and_hms_opt(&self, hour: u32, minute: u32, second: u32) -> (r: Option<UtcDateTime>)
        ensures
            r is Some <==> (hour < 24 && minute < 60 && second < 60),
            r is Some ==> r->0 == (UtcDateTime { date: *self, hour, minute, second }),
    {
        if clock_has_time(hour, minute, second) {
            Some(UtcDateTime { date: *self, hour, minute, second })
        } else {
            None
        }
    }
}

/// A moment in UTC: a date and a time of day.
#[derive(Clone, Copy, Debug, PartialEq, Eq, Structural)]
pub struct UtcDateTime {
    pub date: Date,
    pub hour: u32,
    pub minute: u32,
    pub second: u32,
}

/// The day of the year of a moment's date.
pub fn day_of_year(date: &UtcDateTime) -> (r: Result<u32, String>)
    requires
        date.date.wf(),
    ensures
        r == Ok::<u32, String>(ordinal_of(date.date.year, date.date.month, date.date.day) as u32),
{
    let d = date.date;
    Ok(calendar_ordinal(d.year, d.month, d.day))
}

/// The day of the year of a date written `year-month-day`.
pub fn day_of_year_str(date_str: &str) -> (r: Result<u32, String>)
    ensures
        parsed_ymd(date_str@) matches Some(t) ==> r == Ok::<u32, String>(
            ordinal_of(t.0, t.1, t.2) as u32,
        ),
        parsed_ymd(date_str@) is None ==> r is Err && r->Err_0@ == "Invalid date format"@,
{
    match parse_year_month_day(date_str) {
        Some(t) => Ok(calendar_ordinal(t.0, t.1, t.2)),
        None => Err(String::from_str("Invalid date format")),
    }
}

} // verus!
