//! Dates and times: the calendar fields that a bind parameter carries, read by
//! the `chrono` crate, and the date-time text of a cell, read by `rbdc`.

use vstd::prelude::*;
use chrono::{Datelike, NaiveDate, NaiveDateTime, Timelike};
use rbdc::types::datetime::DateTime;
use std::str::FromStr;
use vstd::utf8::is_ascii_chars;

verus! {

/// A calendar date.
#[derive(Debug, Clone, Copy, PartialEq, Eq, Structural)]
pub struct Date {
    pub year: i32,
    pub month: u32,
    pub day: u32,
}

/// A date with the time of day.
#[derive(Debug, Clone, Copy, PartialEq, Eq, Structural)]
pub struct Timestamp {
    pub date: Date,
    pub hour: u32,
    pub minute: u32,
    pub second: u32,
    pub nanosecond: u32,
}

/// The date that `NaiveDate::parse_from_str` reads the text as, with the format
/// `%Y-%m-%d`; `None` where it refuses the text.
pub uninterp spec fn date_of(s: Seq<char>) -> Option<Date>;

/// The text that `ParseError`'s `Display` gives the error with which
/// `NaiveDate::parse_from_str` refuses the text, with the format `%Y-%m-%d`.
pub uninterp spec fn date_fault(s: Seq<char>) -> Seq<char>;

/// The date and time that `NaiveDateTime::parse_from_str` reads the text as, with
/// the format `%Y-%m-%d %H:%M:%S`; `None` where it refuses the text.
pub uninterp spec fn timestamp_of(s: Seq<char>) -> Option<Timestamp>;

/// The text that `ParseError`'s `Display` gives the error with which
/// `NaiveDateTime::parse_from_str` refuses the text, with the format
/// `%Y-%m-%d %H:%M:%S`.
pub uninterp spec fn timestamp_fault(s: Seq<char>) -> Seq<char>;

/// Parses the text with `NaiveDate::parse_from_str` and the format `%Y-%m-%d`, and
/// hands out the year, month and day of the date, or the error's `Display` text.
/// The contract claims that both are functions of the text alone.
#[verifier::external_body]
pub(crate) fn parse_date(text: &str) -> (r: Result<Date, String>)
    ensures
        r is Ok <==> date_of(text@) is Some,
        r matches Ok(d) ==> date_of(text@) == Some(d),
        r matches Err(e) ==> e@ == date_fault(text@),
{
    match NaiveDate::parse_from_str(text, "%Y-%m-%d") {
        Ok(d) => Ok(Date { year: d.year(), month: d.month(), day: d.day() }),
        Err(e) => Err(e.to_string()),
    }
}

/// Parses the text with `NaiveDateTime::parse_from_str` and the format
/// `%Y-%m-%d %H:%M:%S`, and hands out the calendar and clock fields of the result,
/// or the error's `Display` text. The contract claims that both are functions of
/// the text alone.
#[verifier::external_body]
pub(crate) fn parse_timestamp(text: &str) -> (r: Result<Timestamp, String>)
    ensures
        r is Ok <==> timestamp_of(text@) is Some,
        r matches Ok(t) ==> timestamp_of(text@) == Some(t),
        r matches Err(e) ==> e@ == timestamp_fault(text@),
{
    match NaiveDateTime::parse_from_str(text, "%Y-%m-%d %H:%M:%S") {
        Ok(t) => Ok(
            Timestamp {
                date: Date { year: t.year(), month: t.month(), day: t.day() },
                hour: t.hour(),
                minute: t.minute(),
                second: t.second(),
                nanosecond: t.nanosecond(),
            },
        ),
        Err(e) => Err(e.to_string()),
    }
}

/// Parses the engine's date-time text with `rbdc`'s `DateTime::from_str` and hands
/// out the `Display` text of the result, or that of the error. A text without a
/// zone is read in the zone of the machine, so nothing is claimed of the result.
/// A text that is not ASCII is left out: the parser slices the text at fixed byte
/// offsets.
#[verifier::external_body]
pub(crate) fn parse_datetime_text(text: &str) -> (r: Result<String, String>)
    requires
        is_ascii_chars(text@),
{
    match DateTime::from_str(text) {
        Ok(d) => Ok(d.0.to_string()),
        Err(e) => Err(e.to_string()),
    }
}

} // verus!
