//! Dates as the service writes them: `DD.MM.YYYY`.
//!
//! The grammar is checked here; whether the day exists is asked of the
//! `time` crate, which also reads the three numbers.

use vstd::prelude::*;
use vstd::string::*;

verus! {

/// The error of the `time` crate: carried, never looked into.
#[verifier::external_type_specification]
#[verifier::external_body]
pub struct ExTimeError(time::Error);

/// The description, in the notation of `time`, of how the service writes a
/// date.
pub const DATE_FORMAT: &'static str = "[day].[month].[year]";

/// A day of the proleptic Gregorian calendar, by its numbers.
#[derive(Debug, Clone, Copy, PartialEq, Eq, Structural)]
pub struct CalendarDate {
    pub year: i32,
    pub month: u8,
    pub day: u8,
}

/// Whether the character is one of the ten decimal digits.
pub open spec fn is_digit(c: char) -> bool {
    '0' <= c && c <= '9'
}

/// The number that a decimal digit stands for.
pub open spec fn digit_value(c: char) -> int {
    c as int - '0' as int
}

/// Two digits, a dot, two digits, a dot, four digits, and nothing else.
pub open spec fn has_date_shape(text: Seq<char>) -> bool {
    &&& text.len() == 10
    &&& is_digit(text[0]) && is_digit(text[1])
    &&& text[2] == '.'
    &&& is_digit(text[3]) && is_digit(text[4])
    &&& text[5] == '.'
    &&& is_digit(text[6]) && is_digit(text[7]) && is_digit(text[8]) && is_digit(text[9])
}

/// The number written by the two digits of the day.
pub open spec fn written_day(text: Seq<char>) -> int {
    10 * digit_value(text[0]) + digit_value(text[1])
}

/// The number written by the two digits of the month.
pub open spec fn written_month(text: Seq<char>) -> int {
    10 * digit_value(text[3]) + digit_value(text[4])
}

/// The number written by the four digits of the year.
pub open spec fn written_year(text: Seq<char>) -> int {
    1000 * digit_value(text[6]) + 100 * digit_value(text[7]) + 10 * digit_value(text[8])
        + digit_value(text[9])
}

/// Whether the year has a 29th of February: every fourth year, but of the
/// years that end a century only every fourth.
pub open spec fn is_leap_year(year: int) -> bool {
    year % 4 == 0 && (year % 100 != 0 || year % 400 == 0)
}

/// How many days the month has in that year; `month` is 1 to 12.
pub open spec fn days_in_month(year: int, month: int) -> int {
    if month == 2 {
        if is_leap_year(year) {
            29
        } else {
            28
        }
    } else if month == 4 || month == 6 || month == 9 || month == 11 {
        30
    } else {
        31
    }
}

/// Whether the calendar has such a day.
pub open spec fn is_calendar_date(year: int, month: int, day: int) -> bool {
    1 <= month <= 12 && 1 <= day <= days_in_month(year, month)
}

/// Whether the text is a date of the service: it has the shape and the day
/// that it writes exists.
pub open spec fn denotes_date(text: Seq<char>) -> bool {
    has_date_shape(text) && is_calendar_date(
        written_year(text),
        written_month(text),
        written_day(text),
    )
}

/// The day that a date of the service writes.
pub open spec fn denoted_date(text: Seq<char>) -> CalendarDate {
    CalendarDate {
        year: written_year(text) as i32,
        month: written_month(text) as u8,
        day: written_day(text) as u8,
    }
}

/// Whether the character is one of the ten decimal digits.
fn is_digit_char(c: char) -> (b: bool)
    ensures
        b == is_digit(c),
{
    '0' <= c && c <= '9'
}

/// Whether the text has the shape `DD.MM.YYYY`.
fn check_date_shape(text: &str) -> (b: bool)
    ensures
        b == has_date_shape(text@),
{
    if text.unicode_len() != 10 {
        return false;
    }
    let day = is_digit_char(text.get_char(0)) && is_digit_char(text.get_char(1));
    let month = is_digit_char(text.get_char(3)) && is_digit_char(text.get_char(4));
    let year = is_digit_char(text.get_char(6)) && is_digit_char(text.get_char(7))
        && is_digit_char(text.get_char(8)) && is_digit_char(text.get_char(9));
    let dots = text.get_char(2) == '.' && text.get_char(5) == '.';
    day && month && year && dots
}

/// `time::Date::parse` under the description that
/// `time::format_description::parse_borrowed` compiles from `description`,
/// with the year, month and day of the date it gives.
///
/// Trusted, for a text of the shape `DD.MM.YYYY` and the description
/// `[day].[month].[year]` only: `time` then accepts the text exactly when the
/// proleptic Gregorian calendar has the day that the digits write, and the
/// date it returns has those numbers.
#[verifier::external_body]
fn parse_with_time(text: &str, description: &str) -> (r: Result<CalendarDate, time::Error>)
    requires
        description@ == DATE_FORMAT@,
        has_date_shape(text@),
    ensures
        r is Ok <==> denotes_date(text@),
        r matches Ok(date) ==> date == denoted_date(text@),
{
    let format = time::format_description::parse_borrowed::<1>(description)?;
    let date = time::Date::parse(text, &format)?;
    Ok(CalendarDate { year: date.year(), month: date.month().into(), day: date.day() })
}

/// Reads a date of the service. The text must be written as `DD.MM.YYYY`
/// and name a day that exists; anything else is refused.
pub fn parse_date(text: &str) -> (r: Option<CalendarDate>)
    ensures
        r == if denotes_date(text@) {
            Some(denoted_date(text@))
        } else {
            None
        },
{
    if !check_date_shape(text) {
        return None;
    }
    match parse_with_time(text, DATE_FORMAT) {
        Ok(date) => Some(date),
        Err(_) => None,
    }
}

} // verus!
