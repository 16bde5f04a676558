//! Mission times as DCS reports them (a calendar date and the seconds elapsed
//! since midnight) turned into RFC 3339 date-time strings.
use time::format_description::well_known::Rfc3339;
use time::{Date, Duration, Month, PrimitiveDateTime, Time, UtcOffset};
use vstd::prelude::*;

verus! {

/// Whether `year` is a leap year of the proleptic Gregorian calendar.
pub open spec fn is_leap_year(year: int) -> bool {
    (year % 4 == 0 && year % 100 != 0) || year % 400 == 0
}

/// The number of days of `month` (1 to 12) in `year`.
pub open spec fn days_in_month(year: int, month: int) -> int {
    if month == 2 {
        if is_leap_year(year) {
            29
        } else {
            28
        }
    } else if month == 4 || month == 6 || month == 9 || month == 11 {
        30
    } else {
        31
    }
}

/// The years that a calendar date of the `time` crate can hold.
pub open spec fn year_in_range(year: int) -> bool {
    -9999 <= year <= 9999
}

/// Whether year, month and day name a day of the calendar that `time` can hold.
pub open spec fn is_valid_calendar_date(year: int, month: int, day: int) -> bool {
    &&& year_in_range(year)
    &&& 1 <= month <= 12
    &&& 1 <= day <= days_in_month(year, month)
}

/// The text with which `time` refuses a month number.
pub open spec fn month_range_text() -> Seq<char> {
    "month was not in range"@
}

/// The text with which `time` refuses a calendar date whose month is valid.
pub open spec fn date_range_text(year: int) -> Seq<char> {
    if year_in_range(year) {
        "day was not in range"@
    } else {
        "year was not in range"@
    }
}

/// The text with which `time` refuses to write a year in RFC 3339.
pub open spec fn year_format_text() -> Seq<char> {
    "The year component cannot be formatted into the requested format."@
}

/// The decimal digit `d` (0 to 9) as a character.
pub open spec fn digit_char(d: int) -> char {
    (48 + d) as char
}

/// `n` (0 to 99) written with two digits.
pub open spec fn two_digits(n: int) -> Seq<char> {
    seq![digit_char(n / 10), digit_char(n % 10)]
}

/// `n` (0 to 9999) written with four digits.
pub open spec fn four_digits(n: int) -> Seq<char> {
    seq![digit_char(n / 1000), digit_char((n / 100) % 10), digit_char((n / 10) % 10), digit_char(n % 10)]
}

/// A moment of UTC in the RFC 3339 form `YYYY-MM-DDTHH:MM:SSZ`.
pub open spec fn rfc3339_utc_text(year: int, month: int, day: int, hour: int, minute: int, second: int) -> Seq<char> {
    four_digits(year) + seq!['-'] + two_digits(month) + seq!['-'] + two_digits(day) + seq!['T']
        + two_digits(hour) + seq![':'] + two_digits(minute) + seq![':'] + two_digits(second) + seq!['Z']
}

/// The second of the day that lies `seconds` after midnight, the time wrapping around
/// at the end of each day (and before its start, for negative `seconds`).
pub open spec fn second_of_day(seconds: int) -> int {
    seconds % 86400
}

/// The RFC 3339 text of the moment `seconds` after midnight of the given day, in UTC.
pub open spec fn mission_time_text(year: int, month: int, day: int, seconds: int) -> Seq<char> {
    let s = second_of_day(seconds);
    rfc3339_utc_text(year, month, day, s / 3600, (s % 3600) / 60, s % 60)
}

/// Whole days added to or taken from the seconds since midnight do not change
/// the date-time written: the time wraps around and the date stays.
pub proof fn lemma_whole_days_wrap(year: int, month: int, day: int, seconds: int, days: int)
    ensures
        mission_time_text(year, month, day, seconds + 86400 * days) == mission_time_text(year, month, day, seconds),
{
    assert((seconds + 86400 * days) % 86400 == seconds % 86400) by (nonlinear_arith);
}

/// The text of std's `TryFromIntError` when `u8::try_from` refuses `value`.
pub uninterp spec fn u8_conversion_error_text(value: u32) -> Seq<char>;

/// The step of the conversion that refused a mission time.
#[derive(Debug, Clone, Copy, PartialEq, Eq, Structural)]
pub enum DateTimeStep {
    Month,
    Day,
    Date,
    Format,
}

/// What `to_datetime` gives for the mission time: the RFC 3339 text, or the
/// step that refused it with the text of the error it reported. The checks come
/// in this order: month number, month, day number, calendar date, year written.
pub open spec fn mission_time_outcome(year: i32, month: u32, day: u32, seconds: int) -> Result<Seq<char>, (DateTimeStep, Seq<char>)> {
    if month > 255 {
        Err((DateTimeStep::Month, u8_conversion_error_text(month)))
    } else if !(1 <= month <= 12) {
        Err((DateTimeStep::Month, month_range_text()))
    } else if day > 255 {
        Err((DateTimeStep::Day, u8_conversion_error_text(day)))
    } else if !is_valid_calendar_date(year as int, month as int, day as int) {
        Err((DateTimeStep::Date, date_range_text(year as int)))
    } else if year < 0 {
        Err((DateTimeStep::Format, year_format_text()))
    } else {
        Ok(mission_time_text(year as int, month as int, day as int, seconds))
    }
}

/// The text reported to a client of the service when `step` refused a mission
/// time with the error text `detail`.
pub open spec fn failure_message(step: DateTimeStep, detail: Seq<char>) -> Seq<char> {
    match step {
        DateTimeStep::Month => "received invalid month: "@ + detail,
        DateTimeStep::Day => "received invalid day: "@ + detail,
        DateTimeStep::Date => "received invalid date: "@ + detail,
        DateTimeStep::Format => "failed to format date as ISO 8601 string: "@ + detail,
    }
}

/// Only the time of day that `seconds` lands on counts: two numbers of seconds
/// that differ by whole days give the same outcome, text or error alike, and
/// the date is never carried forward or back.
pub proof fn lemma_only_time_of_day_matters(year: i32, month: u32, day: u32, first: int, second: int)
    requires
        second_of_day(first) == second_of_day(second),
    ensures
        mission_time_outcome(year, month, day, first) == mission_time_outcome(year, month, day, second),
{
}

/// Every day of the Gregorian calendar from year 0 to 9999 is written, at
/// any number of seconds: months 1, 3, 5, 7, 8, 10 and 12 have 31 days, months
/// 4, 6, 9 and 11 have 30, and February has 29 in years divisible by 4 but not
/// by 100, or by 400, and 28 otherwise. The hour, minute and second written are
/// the ones that add up to the seconds since midnight, modulo one day.
pub proof fn lemma_gregorian_dates_are_written(
    year: i32,
    month: u32,
    day: u32,
    seconds: int,
    hour: int,
    minute: int,
    second: int,
)
    requires
        0 <= year <= 9999,
        1 <= month <= 12,
        1 <= day,
        day <= 28
            || (day <= 30 && month != 2)
            || (day == 31 && (month == 1 || month == 3 || month == 5 || month == 7 || month == 8
                || month == 10 || month == 12))
            || (day == 29 && month == 2 && year % 4 == 0 && (year % 100 != 0 || year % 400 == 0)),
        0 <= hour < 24,
        0 <= minute < 60,
        0 <= second < 60,
        hour * 3600 + minute * 60 + second == seconds % 86400,
    ensures
        mission_time_outcome(year, month, day, seconds) == Ok::<Seq<char>, (DateTimeStep, Seq<char>)>(
            rfc3339_utc_text(year as int, month as int, day as int, hour, minute, second),
        ),
{
    let s = seconds % 86400;
    assert(s / 3600 == hour && (s % 3600) / 60 == minute && s % 60 == second) by (nonlinear_arith)
        requires
            s == hour * 3600 + minute * 60 + second,
            0 <= hour < 24,
            0 <= minute < 60,
            0 <= second < 60,
    ;
    assert(second_of_day(seconds) == s);
}

/// Whether `outcome` is a refusal by `step`.
pub open spec fn refused_at(outcome: Result<Seq<char>, (DateTimeStep, Seq<char>)>, step: DateTimeStep) -> bool {
    match outcome {
        Ok(_) => false,
        Err((by, _)) => by == step,
    }
}

/// A mission time is written only for a day of the Gregorian calendar with a
/// year from 0 to 9999; a month outside 1 to 12 is refused as a bad month, a
/// day number above 255 as a bad day, a day missing from its month (or a year
/// beyond 9999 or below -9999) as a bad date, and a negative year as unwritable.
pub proof fn lemma_written_only_for_gregorian_dates(year: i32, month: u32, day: u32, seconds: int)
    ensures
        mission_time_outcome(year, month, day, seconds) is Ok ==> {
            &&& 0 <= year <= 9999
            &&& 1 <= month <= 12
            &&& 1 <= day
            &&& day <= 28
                || (day <= 30 && month != 2)
                || (day == 31 && (month == 1 || month == 3 || month == 5 || month == 7 || month == 8
                    || month == 10 || month == 12))
                || (day == 29 && month == 2 && year % 4 == 0 && (year % 100 != 0 || year % 400 == 0))
        },
        (month == 0 || month > 12) ==> refused_at(mission_time_outcome(year, month, day, seconds), DateTimeStep::Month),
        (1 <= month <= 12 && day > 255) ==> refused_at(mission_time_outcome(year, month, day, seconds), DateTimeStep::Day),
        (1 <= month <= 12 && day <= 255 && (day == 0 || day == 32 || (day == 31 && (month == 4 || month == 6
            || month == 9 || month == 11)) || (month == 2 && day >= 30) || year > 9999 || year < -9999))
            ==> refused_at(mission_time_outcome(year, month, day, seconds), DateTimeStep::Date),
        (1 <= month <= 12 && 1 <= day <= 28 && -9999 <= year < 0)
            ==> refused_at(mission_time_outcome(year, month, day, seconds), DateTimeStep::Format),
{
}

/// The RFC 3339 text is 20 characters: the four digits of the year, `-`, two
/// digits of the month, `-`, two of the day, `T`, two each of hour, minute and
/// second separated by `:`, and `Z`.
pub proof fn lemma_rfc3339_layout(year: int, month: int, day: int, hour: int, minute: int, second: int)
    requires
        0 <= year <= 9999,
        1 <= month <= 12,
        1 <= day <= 31,
        0 <= hour < 24,
        0 <= minute < 60,
        0 <= second < 60,
    ensures
        ({
            let text = rfc3339_utc_text(year, month, day, hour, minute, second);
            &&& text.len() == 20
            &&& text[0] as int == 48 + year / 1000
            &&& text[1] as int == 48 + (year / 100) % 10
            &&& text[2] as int == 48 + (year / 10) % 10
            &&& text[3] as int == 48 + year % 10
            &&& text[4] == '-'
            &&& text[5] as int == 48 + month / 10
            &&& text[6] as int == 48 + month % 10
            &&& text[7] == '-'
            &&& text[8] as int == 48 + day / 10
            &&& text[9] as int == 48 + day % 10
            &&& text[10] == 'T'
            &&& text[11] as int == 48 + hour / 10
            &&& text[12] as int == 48 + hour % 10
            &&& text[13] == ':'
            &&& text[14] as int == 48 + minute / 10
            &&& text[15] as int == 48 + minute % 10
            &&& text[16] == ':'
            &&& text[17] as int == 48 + second / 10
            &&& text[18] as int == 48 + second % 10
            &&& text[19] == 'Z'
        }),
{
}

/// A day of the calendar, as plain numbers.
#[derive(Debug, Clone, Copy, PartialEq, Eq, Structural)]
pub struct CalendarDate {
    pub year: i32,
    pub month: u8,
    pub day: u8,
}

impl CalendarDate {
    /// Whether the numbers name a day that `time` can hold.
    pub open spec fn is_valid(self) -> bool {
        is_valid_calendar_date(self.year as int, self.month as int, self.day as int)
    }
}

/// A time of day to the second, as plain numbers.
#[derive(Debug, Clone, Copy, PartialEq, Eq, Structural)]
pub struct TimeOfDay {
    pub hour: u8,
    pub minute: u8,
    pub second: u8,
}

impl TimeOfDay {
    /// Whether the numbers name a time of day.
    pub open spec fn is_valid(self) -> bool {
        self.hour < 24 && self.minute < 60 && self.second < 60
    }

    /// The number of seconds from midnight to this time.
    pub open spec fn seconds_since_midnight(self) -> int {
        self.hour * 3600 + self.minute * 60 + self.second
    }
}

/// Why a mission time could not be written as a date-time string. Each variant
/// carries the text of the error that the conversion reported.
#[derive(Debug, PartialEq, Eq)]
pub enum DateTimeError {
    InvalidMonth(String),
    InvalidDay(String),
    InvalidDate(String),
    Format(String),
}

/// A result of `to_datetime` as plain values: the text, or the step that
/// refused the mission time with the error's text.
pub open spec fn outcome_view(r: Result<String, DateTimeError>) -> Result<Seq<char>, (DateTimeStep, Seq<char>)> {
    match r {
        Ok(text) => Ok(text@),
        Err(e) => Err((e.step(), e.detail())),
    }
}

impl DateTimeError {
    /// The step that the error comes from.
    pub open spec fn step(self) -> DateTimeStep {
        match self {
            DateTimeError::InvalidMonth(_) => DateTimeStep::Month,
            DateTimeError::InvalidDay(_) => DateTimeStep::Day,
            DateTimeError::InvalidDate(_) => DateTimeStep::Date,
            DateTimeError::Format(_) => DateTimeStep::Format,
        }
    }

    /// The text of the error that the step reported.
    pub open spec fn detail(self) -> Seq<char> {
        match self {
            DateTimeError::InvalidMonth(detail) => detail@,
            DateTimeError::InvalidDay(detail) => detail@,
            DateTimeError::InvalidDate(detail) => detail@,
            DateTimeError::Format(detail) => detail@,
        }
    }

    /// The text that the error reports to a client of the service.
    pub open spec fn message_text(self) -> Seq<char> {
        failure_message(self.step(), self.detail())
    }

    /// Returns the text that the error reports to a client of the service.
    pub fn message(&self) -> (text: String)
        ensures
            text@ == self.message_text(),
    {
        let (prefix, detail) = match self {
            DateTimeError::InvalidMonth(detail) => ("received invalid month: ", detail),
            DateTimeError::InvalidDay(detail) => ("received invalid day: ", detail),
            DateTimeError::InvalidDate(detail) => ("received invalid date: ", detail),
            DateTimeError::Format(detail) => ("failed to format date as ISO 8601 string: ", detail),
        };
        let mut text = String::from_str(prefix);
        text.append(detail.as_str());
        text
    }
}

/// The outcome of a call into `time`: its result, or the text of its error.
pub type TextResult<T> = Result<T, String>;

/// Calls std's `u8::try_from` on a `u32` and, where it refuses the value, gives
/// back the text (`Display`) of the `TryFromIntError`. std documents that the
/// conversion fails exactly outside the range of `u8`; it does not document the
/// text, which is therefore named, not stated: a function of the value alone.
#[verifier::external_body]
fn u8_from_u32(value: u32) -> (r: TextResult<u8>)
    ensures
        r is Ok == (value <= 255),
        r matches Ok(n) ==> n == value,
        r matches Err(text) ==> text@ == u8_conversion_error_text(value),
{
    match u8::try_from(value) {
        Ok(n) => Ok(n),
        Err(e) => Err(e.to_string()),
    }
}

/// Calls `time::Month::try_from` on `number` and gives back the number of the
/// month it made, or the text (`Display`) of the error it returned. The source
/// of `time` accepts exactly 1 to 12 and otherwise reports the component
/// "month" as out of range.
#[verifier::external_body]
fn month_number(number: u8) -> (r: TextResult<u8>)
    ensures
        r is Ok == (1 <= number && number <= 12),
        r matches Ok(n) ==> n == number,
        r matches Err(text) ==> text@ == month_range_text(),
{
    match Month::try_from(number) {
        Ok(month) => Ok(u8::from(month)),
        Err(e) => Err(e.to_string()),
    }
}

/// Calls `time::Date::from_calendar_date` (the month converted to `time::Month`
/// by `Month::try_from`) and gives back the date's year, month and day, or the
/// text (`Display`) of the error. The source checks the year against -9999 to
/// 9999 first ("year"), then the day against the length of the month in the
/// Gregorian calendar ("day").
#[verifier::external_body]
fn calendar_date(year: i32, month: u8, day: u8) -> (r: TextResult<CalendarDate>)
    requires
        1 <= month <= 12,
    ensures
        r is Ok == is_valid_calendar_date(year as int, month as int, day as int),
        r matches Ok(date) ==> date.year == year && date.month == month && date.day == day,
        r matches Err(text) ==> text@ == date_range_text(year as int),
{
    let month = match Month::try_from(month) {
        Ok(month) => month,
        Err(e) => return Err(e.to_string()),
    };
    match Date::from_calendar_date(year, month, day) {
        Ok(date) => Ok(CalendarDate { year: date.year(), month: u8::from(date.month()), day: date.day() }),
        Err(e) => Err(e.to_string()),
    }
}

/// Adds `time::Duration::seconds(seconds)` to `time::Time::MIDNIGHT` and gives
/// back the hour, minute and second of the result. By the source of `time`,
/// adding a duration to a time wraps around the day in both directions, so the
/// result lies `seconds` modulo one day after midnight.
#[verifier::external_body]
fn time_after_midnight(seconds: i64) -> (t: TimeOfDay)
    ensures
        t.is_valid(),
        t.seconds_since_midnight() == second_of_day(seconds as int),
{
    let time = Time::MIDNIGHT + Duration::seconds(seconds);
    TimeOfDay { hour: time.hour(), minute: time.minute(), second: time.second() }
}

/// Builds the `time::OffsetDateTime` of the given date and time in UTC
/// (`Date::from_calendar_date`, `Time::from_hms`, `PrimitiveDateTime::new`,
/// `assume_offset(UtcOffset::UTC)`; none of them fails on what `requires`
/// admits) and calls its `format(&Rfc3339)`, giving back the text or the text
/// (`Display`) of the error. The source writes the four-digit year, month, day,
/// `T`, hour, minute, second and `Z` for UTC with no fraction when the
/// nanoseconds are zero, and refuses a year outside 0 to 9999.
#[verifier::external_body]
fn format_rfc3339_utc(date: &CalendarDate, time: &TimeOfDay) -> (r: TextResult<String>)
    requires
        date.is_valid(),
        time.is_valid(),
    ensures
        r is Ok == (0 <= date.year),
        r matches Ok(text) ==> text@ == rfc3339_utc_text(
            date.year as int,
            date.month as int,
            date.day as int,
            time.hour as int,
            time.minute as int,
            time.second as int,
        ),
        r matches Err(text) ==> text@ == year_format_text(),
{
    let month = Month::try_from(date.month).unwrap();
    let day = Date::from_calendar_date(date.year, month, date.day).unwrap();
    let clock = Time::from_hms(time.hour, time.minute, time.second).unwrap();
    let moment = PrimitiveDateTime::new(day, clock).assume_offset(UtcOffset::UTC);
    match moment.format(&Rfc3339) {
        Ok(text) => Ok(text),
        Err(e) => Err(e.to_string()),
    }
}

/// Writes the moment `seconds` after midnight of the day given by `year`,
/// `month` and `day` as an RFC 3339 string in UTC. The time of day wraps around
/// the day; the date stays the one given.
pub fn to_datetime(year: i32, month: u32, day: u32, seconds: i64) -> (r: Result<String, DateTimeError>)
    ensures
        outcome_view(r) == mission_time_outcome(year, month, day, seconds as int),
{
    let month: u8 = match u8_from_u32(month) {
        Ok(month) => month,
        Err(text) => return Err(DateTimeError::InvalidMonth(text)),
    };
    let month: u8 = match month_number(month) {
        Ok(month) => month,
        Err(text) => return Err(DateTimeError::InvalidMonth(text)),
    };
    let day: u8 = match u8_from_u32(day) {
        Ok(day) => day,
        Err(text) => return Err(DateTimeError::InvalidDay(text)),
    };
    let date = match calendar_date(year, month, day) {
        Ok(date) => date,
        Err(text) => return Err(DateTimeError::InvalidDate(text)),
    };
    let clock = time_after_midnight(seconds);
    proof {
        let s = second_of_day(seconds as int);
        assert(clock.hour as int == s / 3600);
        assert(clock.minute as int == (s % 3600) / 60);
        assert(clock.second as int == s % 60);
    }
    match format_rfc3339_utc(&date, &clock) {
        Ok(text) => Ok(text),
        Err(text) => Err(DateTimeError::Format(text)),
    }
}

} // verus!
