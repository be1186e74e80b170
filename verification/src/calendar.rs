//! Calendar dates and times of day, read and written by `chrono`.
//!
//! Nothing here is proved: each function hands plain text or a number to
//! `chrono` and names what comes back, so that the rest of the library can
//! speak of it.

use chrono::{DateTime, NaiveDate, NaiveDateTime, NaiveTime, ParseError};
use vstd::prelude::*;

verus! {

/// `chrono`'s error for text that is no date or time.
#[verifier::external_type_specification]
#[verifier::external_body]
pub struct ExParseError(ParseError);

/// Seconds from 1 January 1970, 00:00:00 UTC, to the date and time that
/// `text` writes in the layout `format`, taken as UTC; `None` for text that
/// `chrono` does not accept in that layout.
pub uninterp spec fn utc_seconds(text: Seq<char>, format: Seq<char>) -> Option<i64>;

/// The date and time, in UTC, that lie `seconds` seconds after 1 January 1970,
/// 00:00:00 UTC, written as `chrono` displays them; `None` for an instant
/// outside the years that `chrono` covers.
pub uninterp spec fn utc_text(seconds: i64) -> Option<Seq<char>>;

/// The calendar date that `text` writes in the layout `format`, written as
/// `chrono` displays it; `None` for text that `chrono` does not accept.
pub uninterp spec fn date_text(text: Seq<char>, format: Seq<char>) -> Option<Seq<char>>;

/// The time of day that `text` writes as hours, minutes and optional seconds,
/// written as `chrono` displays it; `None` for text that `chrono` does not
/// accept.
pub uninterp spec fn time_text(text: Seq<char>) -> Option<Seq<char>>;

/// Calls `NaiveDateTime::parse_from_str`, then `and_utc` and `timestamp` on
/// what it parsed. Claimed: the outcome depends on the two texts alone, and
/// it is an error exactly where no instant is named for them.
#[verifier::external_body]
pub(crate) fn parse_utc_seconds(text: &str, format: &str) -> (parsed: Result<i64, ParseError>)
    ensures
        match parsed {
            Ok(seconds) => utc_seconds(text@, format@) == Some(seconds),
            Err(_) => utc_seconds(text@, format@) is None,
        },
{
    match NaiveDateTime::parse_from_str(text, format) {
        Ok(moment) => Ok(moment.and_utc().timestamp()),
        Err(error) => Err(error),
    }
}

/// Calls `DateTime::from_timestamp` with no nanoseconds and displays the
/// result's `naive_utc`. Claimed: the text depends on `seconds` alone.
#[verifier::external_body]
pub(crate) fn format_utc_seconds(seconds: i64) -> (text: Option<String>)
    ensures
        match text {
            Some(text) => utc_text(seconds) == Some(text@),
            None => utc_text(seconds) is None,
        },
{
    match DateTime::from_timestamp(seconds, 0) {
        Some(moment) => Some(moment.naive_utc().to_string()),
        None => None,
    }
}

/// Calls `NaiveDate::parse_from_str` and displays what it parsed. Claimed:
/// the outcome depends on the two texts alone.
#[verifier::external_body]
pub(crate) fn normalize_date(text: &str, format: &str) -> (date: Option<String>)
    ensures
        match date {
            Some(date) => date_text(text@, format@) == Some(date@),
            None => date_text(text@, format@) is None,
        },
{
    match NaiveDate::parse_from_str(text, format) {
        Ok(date) => Some(date.to_string()),
        Err(_) => None,
    }
}

/// Calls `NaiveTime`'s `from_str` and displays what it parsed. Claimed: the
/// outcome depends on the text alone.
#[verifier::external_body]
pub(crate) fn normalize_time(text: &str) -> (time: Option<String>)
    ensures
        match time {
            Some(time) => time_text(text@) == Some(time@),
            None => time_text(text@) is None,
        },
{
    match text.parse::<NaiveTime>() {
        Ok(time) => Some(time.to_string()),
        Err(_) => None,
    }
}

} // verus!
