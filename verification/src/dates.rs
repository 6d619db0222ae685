//! Calendar dates, read and written through `chrono`.
//!
//! What a format means is the crate's business. Here a date is known by its
//! year, month and day, reading by the date that a text stands for under a
//! format, and writing by the text that a date gives under a format.

use std::fmt::Write;
use chrono::Datelike;
use vstd::prelude::*;

verus! {

/// A day of the calendar.
#[derive(Clone, Copy, Debug, PartialEq, Eq, Structural)]
pub struct CalendarDate {
    pub year: i32,
    pub month: u32,
    pub day: u32,
}

/// The date that `text` stands for under `format`, where it stands for one.
pub uninterp spec fn parsed_date(text: Seq<char>, format: Seq<char>) -> Option<CalendarDate>;

/// The text of `date` under `format`, where the date exists and the format
/// can be written.
pub uninterp spec fn formatted_date(date: CalendarDate, format: Seq<char>) -> Option<Seq<char>>;

/// Whether `text` stands for a date with a time of day under `format`.
pub uninterp spec fn reads_as_datetime(text: Seq<char>, format: Seq<char>) -> bool;

/// What `text`, read under the format `from`, gives under the format `to`.
pub open spec fn reformatted(text: Seq<char>, from: Seq<char>, to: Seq<char>) -> Option<Seq<char>> {
    match parsed_date(text, from) {
        Some(date) => formatted_date(date, to),
        None => None,
    }
}

/// `chrono::NaiveDate::parse_from_str`: the date read from a text under a
/// format, which depends on the two alone; its year, month and day are
/// handed out.
#[verifier::external_body]
pub(crate) fn parse_date(text: &str, format: &str) -> (r: Option<CalendarDate>)
    ensures
        r == parsed_date(text@, format@),
{
    chrono::NaiveDate::parse_from_str(text, format).ok().map(
        |d| CalendarDate { year: d.year(), month: d.month(), day: d.day() },
    )
}

/// `chrono::NaiveDate::format`, on the date that `NaiveDate::from_ymd_opt`
/// makes of the year, month and day: the text depends on the date and the
/// format alone. A format that cannot be written gives nothing.
#[verifier::external_body]
pub(crate) fn format_date(date: CalendarDate, format: &str) -> (r: Option<String>)
    ensures
        r.deep_view() == formatted_date(date, format@),
{
    let d = chrono::NaiveDate::from_ymd_opt(date.year, date.month, date.day)?;
    let mut out = String::new();
    write!(out, "{}", d.format(format)).ok().map(|_| out)
}

/// `chrono::NaiveDateTime::parse_from_str`: whether a text can be read as a
/// date with a time of day under a format, which depends on the two alone.
#[verifier::external_body]
pub(crate) fn parses_as_datetime(text: &str, format: &str) -> (b: bool)
    ensures
        b == reads_as_datetime(text@, format@),
{
    chrono::NaiveDateTime::parse_from_str(text, format).is_ok()
}

/// Whether `text` stands for a date under `format`.
pub fn is_date(text: &str, format: &str) -> (b: bool)
    ensures
        b == (parsed_date(text@, format@) is Some),
{
    parse_date(text, format).is_some()
}

/// Whether `text` stands for a date with a time of day under `format`.
pub fn is_datetime(text: &str, format: &str) -> (b: bool)
    ensures
        b == reads_as_datetime(text@, format@),
{
    parses_as_datetime(text, format)
}

/// Reads `text` as a date under the format `from` and writes the date under
/// the format `to`.
pub fn reformat(text: &str, from: &str, to: &str) -> (r: Option<String>)
    ensures
        r.deep_view() == reformatted(text@, from@, to@),
{
    match parse_date(text, from) {
        Some(date) => format_date(date, to),
        None => None,
    }
}

} // verus!
