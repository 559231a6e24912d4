//! Calendar dates and times of day as plain numbers. The texts come from
//! `chrono`, so that they read as the driver's users have always seen them.

use vstd::prelude::*;
use crate::text::digits;

verus! {

/// The first year that a date can lie in.
pub const MIN_YEAR: i32 = -262143;

/// The last year that a date can lie in.
pub const MAX_YEAR: i32 = 262142;

/// Whether `year` is a leap year of the proleptic Gregorian calendar.
pub open spec fn is_leap_year(year: int) -> bool {
    year % 4 == 0 && (year % 100 != 0 || year % 400 == 0)
}

/// The number of days of `month` in `year`.
pub open spec fn days_in_month(year: int, month: int) -> int {
    if month == 2 {
        if is_leap_year(year) {
            29
        } else {
            28
        }
    } else if month == 4 || month == 6 || month == 9 || month == 11 {
        30
    } else {
        31
    }
}

/// Whether year, month and day name a day of the calendar.
pub open spec fn valid_date(year: int, month: int, day: int) -> bool {
    &&& MIN_YEAR <= year <= MAX_YEAR
    &&& 1 <= month <= 12
    &&& 1 <= day <= days_in_month(year, month)
}

/// Whether the four numbers name a time of day. A count of nanoseconds of a
/// billion or more stands for a leap second, and only the last second of a
/// minute can be one.
pub open spec fn valid_time(hour: int, minute: int, second: int, nanos: int) -> bool {
    &&& 0 <= hour < 24
    &&& 0 <= minute < 60
    &&& 0 <= second < 60
    &&& 0 <= nanos < 2_000_000_000
    &&& nanos >= 1_000_000_000 ==> second == 59
}

/// What a `Date` stands for.
pub struct DateView {
    pub year: int,
    pub month: int,
    pub day: int,
}

/// What a `Datetime` stands for.
pub struct DatetimeView {
    pub date: DateView,
    pub hour: int,
    pub minute: int,
    pub second: int,
    pub nanos: int,
}

/// What a `DatetimeTZ` stands for: an instant counted from the start of 1970
/// in UTC, and the name of the time zone it is read in.
pub struct DatetimeTZView {
    pub seconds: int,
    pub nanos: int,
    pub zone: Seq<char>,
}

/// The text of a year: four digits from 0 to 9999, and a sign in front of at
/// least four digits for any other.
pub open spec fn year_text(year: int) -> Seq<char> {
    if year < 0 {
        seq!['-'] + digits((-year) as nat, 4)
    } else if year > 9999 {
        seq!['+'] + digits(year as nat, 4)
    } else {
        digits(year as nat, 4)
    }
}

/// The text of a date: `YYYY-MM-DD`.
pub open spec fn date_text(date: DateView) -> Seq<char> {
    year_text(date.year) + seq!['-'] + digits(date.month as nat, 2) + seq!['-'] + digits(
        date.day as nat,
        2,
    )
}

/// The text of a date and time: `YYYY-MM-DDTHH:MM:SS.mmm`. A leap second
/// reads as second 60, and the milliseconds are cut off, not rounded.
pub open spec fn datetime_text(datetime: DatetimeView) -> Seq<char> {
    date_text(datetime.date) + seq!['T'] + digits(datetime.hour as nat, 2) + seq![':'] + digits(
        datetime.minute as nat,
        2,
    ) + seq![':'] + digits((datetime.second + datetime.nanos / 1_000_000_000) as nat, 2)
        + seq!['.'] + digits((datetime.nanos / 1_000_000 % 1000) as nat, 3)
}

/// The text that `chrono` gives an instant read in a time zone of the IANA
/// database, or `None` where it knows no such zone or cannot hold the instant.
pub uninterp spec fn zoned_datetime_text(seconds: int, nanos: int, zone: Seq<char>) -> Option<Seq<char>>;

/// What an optional text stands for.
pub open spec fn optional_text_view(text: Option<String>) -> Option<Seq<char>> {
    match text {
        Some(text) => Some(text@),
        None => None,
    }
}

/// Calls `chrono::NaiveDate::from_ymd_opt` and formats the date with
/// `NaiveDate::format` and the pattern `%Y-%m-%d`. The contract claims what
/// chrono's documentation of the three specifiers says: the year padded with
/// zeros to four digits, with a sign in front where it lies outside 0..=9999,
/// and month and day as two digits each.
#[verifier::external_body]
fn chrono_date_text(year: i32, month: u32, day: u32) -> (text: String)
    requires
        valid_date(year as int, month as int, day as int),
    ensures
        text@ == date_text(DateView { year: year as int, month: month as int, day: day as int }),
{
    chrono::NaiveDate::from_ymd_opt(year, month, day).unwrap().format("%Y-%m-%d").to_string()
}

/// Calls `chrono::NaiveDate::and_hms_nano_opt` on the date and formats the
/// result with `NaiveDateTime::format` and the pattern `%FT%T%.3f`. The
/// contract claims what chrono's documentation says of it: `%F` is the date as
/// above, `%T` is hour, minute and second as two digits each (the second one
/// higher during a leap second), and `%.3f` is a point and the first three
/// digits of the fraction of the second.
#[verifier::external_body]
fn chrono_datetime_text(
    year: i32,
    month: u32,
    day: u32,
    hour: u32,
    minute: u32,
    second: u32,
    nanos: u32,
) -> (text: String)
    requires
        valid_date(year as int, month as int, day as int),
        valid_time(hour as int, minute as int, second as int, nanos as int),
    ensures
        text@ == datetime_text(
            DatetimeView {
                date: DateView { year: year as int, month: month as int, day: day as int },
                hour: hour as int,
                minute: minute as int,
                second: second as int,
                nanos: nanos as int,
            },
        ),
{
    chrono::NaiveDate::from_ymd_opt(year, month, day).unwrap().and_hms_nano_opt(
        hour,
        minute,
        second,
        nanos,
    ).unwrap().format("%FT%T%.3f").to_string()
}

/// Parses the zone's name with `chrono_tz::Tz::from_str`, makes the instant
/// with `chrono::DateTime::from_timestamp`, moves it into the zone with
/// `DateTime::with_timezone` and takes its `to_string`. The contract only
/// names the outcome: it is the same for the same three arguments.
#[verifier::external_body]
fn chrono_zoned_text(seconds: i64, nanos: u32, zone: &str) -> (text: Option<String>)
    ensures
        optional_text_view(text) == zoned_datetime_text(seconds as int, nanos as int, zone@),
{
    let tz = zone.parse::<chrono_tz::Tz>().ok()?;
    let utc = chrono::DateTime::from_timestamp(seconds, nanos)?;
    Some(utc.with_timezone(&tz).to_string())
}

/// A day of the proleptic Gregorian calendar.
#[derive(Clone, Copy, Debug, PartialEq, Eq)]
pub struct Date {
    year: i32,
    month: u32,
    day: u32,
}

/// Whether `year` is a leap year.
pub fn leap_year(year: i32) -> (leap: bool)
    requires
        MIN_YEAR <= year <= MAX_YEAR,
    ensures
        leap == is_leap_year(year as int),
{
    // 262400 is a multiple of 400 above every year's distance from zero.
    let shifted: u32 = (year + 262400) as u32;
    assert(shifted as int % 4 == 0 <==> year as int % 4 == 0);
    assert(shifted as int % 100 == 0 <==> year as int % 100 == 0);
    assert(shifted as int % 400 == 0 <==> year as int % 400 == 0);
    shifted % 4 == 0 && (shifted % 100 != 0 || shifted % 400 == 0)
}

impl View for Date {
    type V = DateView;

    closed spec fn view(&self) -> DateView {
        DateView { year: self.year as int, month: self.month as int, day: self.day as int }
    }
}

impl Date {
    #[verifier::type_invariant]
    spec fn well_formed(self) -> bool {
        valid_date(self.year as int, self.month as int, self.day as int)
    }

    /// The date of the given year, month and day, where the calendar has it.
    pub fn new(year: i32, month: u32, day: u32) -> (date: Option<Date>)
        ensures
            date is Some == valid_date(year as int, month as int, day as int),
            date matches Some(d) ==> d@ == (DateView {
                year: year as int,
                month: month as int,
                day: day as int,
            }),
    {
        if year < MIN_YEAR || year > MAX_YEAR || month < 1 || month > 12 || day < 1 {
            return None;
        }
        let last: u32 = if month == 2 {
            if leap_year(year) {
                29
            } else {
                28
            }
        } else if month == 4 || month == 6 || month == 9 || month == 11 {
            30
        } else {
            31
        };
        if day > last {
            return None;
        }
        Some(Date { year, month, day })
    }

    pub fn year(&self) -> (year: i32)
        ensures
            year == self@.year,
    {
        self.year
    }

    pub fn month(&self) -> (month: u32)
        ensures
            month == self@.month,
    {
        self.month
    }

    pub fn day(&self) -> (day: u32)
        ensures
            day == self@.day,
    {
        self.day
    }

    /// The text of this date, `YYYY-MM-DD`.
    pub fn to_text(&self) -> (text: String)
        ensures
            text@ == date_text(self@),
    {
        proof {
            use_type_invariant(self);
        }
        chrono_date_text(self.year, self.month, self.day)
    }
}

/// A day and a time of day, with no time zone.
#[derive(Clone, Copy, Debug, PartialEq, Eq)]
pub struct Datetime {
    date: Date,
    hour: u32,
    minute: u32,
    second: u32,
    nanos: u32,
}

impl View for Datetime {
    type V = DatetimeView;

    closed spec fn view(&self) -> DatetimeView {
        DatetimeView {
            date: self.date@,
            hour: self.hour as int,
            minute: self.minute as int,
            second: self.second as int,
            nanos: self.nanos as int,
        }
    }
}

impl Datetime {
    #[verifier::type_invariant]
    spec fn well_formed(self) -> bool {
        &&& valid_date(self.date.year as int, self.date.month as int, self.date.day as int)
        &&& valid_time(self.hour as int, self.minute as int, self.second as int, self.nanos as int)
    }

    /// The given time of day on the given date, where the four numbers name
    /// one.
    pub fn new(date: Date, hour: u32, minute: u32, second: u32, nanos: u32) -> (datetime: Option<
        Datetime,
    >)
        ensures
            datetime is Some == valid_time(hour as int, minute as int, second as int, nanos as int),
            datetime matches Some(d) ==> d@ == (DatetimeView {
                date: date@,
                hour: hour as int,
                minute: minute as int,
                second: second as int,
                nanos: nanos as int,
            }),
    {
        if hour >= 24 || minute >= 60 || second >= 60 || nanos >= 2_000_000_000 {
            return None;
        }
        if nanos >= 1_000_000_000 && second != 59 {
            return None;
        }
        proof {
            use_type_invariant(&date);
        }
        Some(Datetime { date, hour, minute, second, nanos })
    }

    pub fn date(&self) -> (date: Date)
        ensures
            date@ == self@.date,
    {
        self.date
    }

    pub fn hour(&self) -> (hour: u32)
        ensures
            hour == self@.hour,
    {
        self.hour
    }

    pub fn minute(&self) -> (minute: u32)
        ensures
            minute == self@.minute,
    {
        self.minute
    }

    pub fn second(&self) -> (second: u32)
        ensures
            second == self@.second,
    {
        self.second
    }

    pub fn nanos(&self) -> (nanos: u32)
        ensures
            nanos == self@.nanos,
    {
        self.nanos
    }

    /// The text of this date and time, `YYYY-MM-DDTHH:MM:SS.mmm`.
    pub fn to_text(&self) -> (text: String)
        ensures
            text@ == datetime_text(self@),
    {
        proof {
            use_type_invariant(self);
        }
        chrono_datetime_text(
            self.date.year,
            self.date.month,
            self.date.day,
            self.hour,
            self.minute,
            self.second,
            self.nanos,
        )
    }
}

/// An instant read in a time zone of the IANA database. Only instants and
/// zones that `chrono` can write out exist as values.
#[derive(Debug, PartialEq, Eq)]
pub struct DatetimeTZ {
    seconds: i64,
    nanos: u32,
    zone: String,
}

impl View for DatetimeTZ {
    type V = DatetimeTZView;

    closed spec fn view(&self) -> DatetimeTZView {
        DatetimeTZView { seconds: self.seconds as int, nanos: self.nanos as int, zone: self.zone@ }
    }
}

/// The text of an instant read in its zone.
pub open spec fn zoned_text(datetime: DatetimeTZView) -> Seq<char> {
    zoned_datetime_text(datetime.seconds, datetime.nanos, datetime.zone).unwrap()
}

impl DatetimeTZ {
    #[verifier::type_invariant]
    spec fn well_formed(self) -> bool {
        zoned_datetime_text(self.seconds as int, self.nanos as int, self.zone@) is Some
    }

    /// The instant `seconds` and `nanos` after the start of 1970 in UTC, read
    /// in the zone of the given name, where there is a text for it.
    pub fn new(seconds: i64, nanos: u32, zone: String) -> (datetime: Option<DatetimeTZ>)
        ensures
            datetime is Some == zoned_datetime_text(seconds as int, nanos as int, zone@) is Some,
            datetime matches Some(d) ==> d@ == (DatetimeTZView {
                seconds: seconds as int,
                nanos: nanos as int,
                zone: zone@,
            }),
    {
        match chrono_zoned_text(seconds, nanos, zone.as_str()) {
            Some(_) => Some(DatetimeTZ { seconds, nanos, zone }),
            None => None,
        }
    }

    pub fn seconds(&self) -> (seconds: i64)
        ensures
            seconds == self@.seconds,
    {
        self.seconds
    }

    pub fn nanos(&self) -> (nanos: u32)
        ensures
            nanos == self@.nanos,
    {
        self.nanos
    }

    pub fn zone(&self) -> (zone: &String)
        ensures
            zone@ == self@.zone,
    {
        &self.zone
    }

    /// The text of this instant in its zone, as `chrono` writes it.
    pub fn to_text(&self) -> (text: String)
        ensures
            text@ == zoned_text(self@),
    {
        proof {
            use_type_invariant(self);
        }
        match chrono_zoned_text(self.seconds, self.nanos, self.zone.as_str()) {
            Some(text) => text,
            None => unreached(),
        }
    }
}

impl Clone for DatetimeTZ {
    fn clone(&self) -> (copy: DatetimeTZ)
        ensures
            copy@ == self@,
    {
        proof {
            use_type_invariant(self);
        }
        DatetimeTZ { seconds: self.seconds, nanos: self.nanos, zone: self.zone.clone() }
    }
}

} // verus!
