//! Calendar dates, and how far ahead of today a date lies.

use vstd::prelude::*;
use chrono::Datelike;
use crate::error::ServiceError;
use crate::text::chars_of;

verus! {

/// The format in which a request names a date: year, month and day.
pub const DATE_FORMAT: &'static str = "%Y-%m-%d";

/// The furthest day ahead of today for which a forecast is given.
pub const MAX_DAYS_AHEAD: usize = 5;

/// A date of the proleptic Gregorian calendar, held as the number of its day:
/// January 1 of the year 1 is day 1.
#[derive(Clone, Copy, Debug, PartialEq, Eq, Structural)]
pub struct Date {
    pub day: i32,
}

/// `chrono::format::ParseError`: why a text is no date. Nothing of it is read.
#[verifier::external_type_specification]
#[verifier::external_body]
pub struct ExParseError(chrono::format::ParseError);

/// The day number of the date that `chrono` reads from `text` under `format`,
/// if it reads one.
pub uninterp spec fn parsed_day_number(text: Seq<char>, format: Seq<char>) -> Option<i32>;

/// `chrono::NaiveDate::parse_from_str`, with the date it found given as its
/// day number (`Datelike::num_days_from_ce`). The outcome depends on the two
/// texts alone.
#[verifier::external_body]
fn parse_from_str(text: &str, format: &str) -> (parsed: Result<i32, chrono::format::ParseError>)
    ensures
        match parsed {
            Ok(day) => parsed_day_number(text@, format@) == Some(day),
            Err(_) => parsed_day_number(text@, format@) is None,
        },
{
    chrono::NaiveDate::parse_from_str(text, format).map(|date| date.num_days_from_ce())
}

/// `chrono::Local::now`, cut down to the day number of the local calendar
/// date. It reads the clock and the time zone of the machine, so nothing is
/// known of the day that comes back.
#[verifier::external_body]
fn local_day() -> (day: i32) {
    chrono::Local::now().naive_local().date().num_days_from_ce()
}

/// A decimal digit.
pub open spec fn is_digit(c: char) -> bool {
    '0' <= c <= '9'
}

/// The text is written `YYYY-MM-DD`: four digits, two digits and two digits
/// with a hyphen between them, and nothing else.
pub open spec fn is_iso_date(text: Seq<char>) -> bool {
    &&& text.len() == 10
    &&& forall|i: int| 0 <= i < 10 && i != 4 && i != 7 ==> is_digit(#[trigger] text[i])
    &&& text[4] == '-'
    &&& text[7] == '-'
}

/// The date that a text names: the text is written `YYYY-MM-DD` and names a
/// date of the calendar.
pub open spec fn named_day(text: Seq<char>) -> Option<Date> {
    if is_iso_date(text) {
        match parsed_day_number(text, DATE_FORMAT@) {
            Some(day) => Some(Date { day }),
            None => None,
        }
    } else {
        None
    }
}

/// How many days `date` lies ahead of `today`, if a forecast is given for it:
/// not for a day before today, and not for one more than five days ahead.
pub open spec fn days_ahead(date: Date, today: Date) -> Result<usize, ServiceError> {
    if date.day - today.day < 0 {
        Err(ServiceError::DateInPast)
    } else if date.day - today.day > 5 {
        Err(ServiceError::DateTooFar)
    } else {
        Ok((date.day - today.day) as usize)
    }
}

/// Whether the text is written `YYYY-MM-DD`.
pub fn iso_date(text: &str) -> (yes: bool)
    ensures
        yes == is_iso_date(text@),
{
    let chars = chars_of(text);
    if chars.len() != 10 {
        return false;
    }
    let mut i: usize = 0;
    while i < 10
        invariant
            i <= 10,
            chars@ == text@,
            chars@.len() == 10,
            forall|k: int| 0 <= k < i && k != 4 && k != 7 ==> is_digit(#[trigger] chars@[k]),
            4 < i ==> chars@[4] == '-',
            7 < i ==> chars@[7] == '-',
        decreases 10 - i,
    {
        let c = chars[i];
        if i == 4 || i == 7 {
            if c != '-' {
                return false;
            }
        } else if !('0' <= c && c <= '9') {
            return false;
        }
        i += 1;
    }
    true
}

/// Reads a date written `YYYY-MM-DD`. Any other text, and a text that names
/// no date of the calendar, has an invalid format.
pub fn parse_date(date_str: &str) -> (parsed: Result<Date, ServiceError>)
    ensures
        parsed == match named_day(date_str@) {
            Some(date) => Ok::<Date, ServiceError>(date),
            None => Err(ServiceError::InvalidDateFormat),
        },
{
    if !iso_date(date_str) {
        return Err(ServiceError::InvalidDateFormat);
    }
    match parse_from_str(date_str, DATE_FORMAT) {
        Ok(day) => Ok(Date { day }),
        Err(_) => Err(ServiceError::InvalidDateFormat),
    }
}

/// Counts the days from `today` to `date`, if a forecast is given for that
/// day.
pub fn days_since(date: Date, today: Date) -> (days: Result<usize, ServiceError>)
    ensures
        days == days_ahead(date, today),
{
    let ahead: i64 = date.day as i64 - today.day as i64;
    if ahead < 0 {
        Err(ServiceError::DateInPast)
    } else if ahead > MAX_DAYS_AHEAD as i64 {
        Err(ServiceError::DateTooFar)
    } else {
        Ok(ahead as usize)
    }
}

/// Today's date on this machine.
pub(crate) fn today() -> Date {
    Date { day: local_day() }
}

} // verus!
