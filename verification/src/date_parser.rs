//! Modification times, written as RFC 2822 dates on the wire.
//!
//! `chrono` reads and writes the dates. The library keeps an instant as the
//! number of seconds since 1970-01-01T00:00:00Z, which is all that an
//! RFC 2822 date can tell.

use crate::error::ErrorKind;
use chrono::DateTime;
use vstd::prelude::*;

verus! {

/// The instant that `chrono::DateTime::parse_from_rfc2822` reads from `text`,
/// in seconds since the epoch, or nothing where it rejects the text.
pub uninterp spec fn rfc2822_timestamp(text: Seq<char>) -> Option<i64>;

/// The text that `chrono::DateTime::to_rfc2822` writes for the instant
/// `seconds` after the epoch, in UTC.
pub uninterp spec fn rfc2822_text(seconds: i64) -> Seq<char>;

/// 0000-01-01T00:00:00Z, the first instant that RFC 2822 can write.
pub const FIRST_SECOND: i64 = -62_167_219_200;

/// 9999-12-31T23:59:59Z, the last instant that RFC 2822 can write.
pub const LAST_SECOND: i64 = 253_402_300_799;

/// RFC 2822 has four digits for the year.
pub open spec fn writable(seconds: i64) -> bool {
    FIRST_SECOND <= seconds <= LAST_SECOND
}

/// `chrono::DateTime::parse_from_rfc2822`, then `DateTime::timestamp`, an
/// error turned into nothing. The contract gives the result a name and says
/// no more.
#[verifier::external_body]
pub(crate) fn parse_rfc2822(text: &str) -> (seconds: Option<i64>)
    ensures
        seconds == rfc2822_timestamp(text@),
{
    DateTime::parse_from_rfc2822(text).ok().map(|at| at.timestamp())
}

/// `chrono::DateTime::from_timestamp`, then `DateTime::to_rfc2822`, which
/// panics outside the years 0 to 9999: hence the `requires`.
///
/// The first clause gives the text a name. The second claims that
/// `parse_from_rfc2822` reads the text back as the same instant. Within
/// those years `chrono` writes the week day, the day, the month, a
/// four-digit year, the time and `+0000`; its parser takes a year of four
/// digits as it stands and rejects a week day that does not fit the date.
/// Nothing here proves the claim.
#[verifier::external_body]
pub(crate) fn format_rfc2822(seconds: i64) -> (text: String)
    requires
        writable(seconds),
    ensures
        text@ == rfc2822_text(seconds),
        rfc2822_timestamp(text@) == Some(seconds),
{
    DateTime::from_timestamp(seconds, 0).unwrap_or_default().to_rfc2822()
}

/// When a record was last modified.
#[derive(Clone, Copy, Debug, PartialEq, Eq, Structural)]
pub struct LastModified {
    /// Seconds since 1970-01-01T00:00:00Z.
    pub value: i64,
}

/// What `deserialize` makes of a date.
pub open spec fn date_of(text: Seq<char>) -> Result<LastModified, ErrorKind> {
    match rfc2822_timestamp(text) {
        Some(seconds) => Ok(LastModified { value: seconds }),
        None => Err(ErrorKind::DateParse),
    }
}

/// The instant that a parsed date stands for: a date that did not parse is
/// an error, never a default.
pub fn instant(parsed: Option<i64>) -> (r: Result<LastModified, ErrorKind>)
    ensures
        r == match parsed {
            Some(seconds) => Ok::<LastModified, ErrorKind>(LastModified { value: seconds }),
            None => Err(ErrorKind::DateParse),
        },
{
    match parsed {
        Some(seconds) => Ok(LastModified { value: seconds }),
        None => Err(ErrorKind::DateParse),
    }
}

/// Reads an RFC 2822 date.
pub fn deserialize(text: &str) -> (r: Result<LastModified, ErrorKind>)
    ensures
        r == date_of(text@),
{
    instant(parse_rfc2822(text))
}

impl LastModified {
    /// Writes the instant as an RFC 2822 date in UTC, where the format has
    /// room for its year. What it writes, `deserialize` reads back as the
    /// same instant.
    pub fn to_rfc2822(&self) -> (text: Option<String>)
        ensures
            text is Some <==> writable(self.value),
            text matches Some(t) ==> t@ == rfc2822_text(self.value) && date_of(t@) == Ok::<
                LastModified,
                ErrorKind,
            >(*self),
    {
        if FIRST_SECOND <= self.value && self.value <= LAST_SECOND {
            Some(format_rfc2822(self.value))
        } else {
            None
        }
    }
}

} // verus!
