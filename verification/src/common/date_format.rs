//! Dates and times written and read as `YYYY-MM-DD HH:MM:SS`, through `chrono`.
use std::fmt::Write;

use vstd::prelude::*;

verus! {

/// The layout in which dates and times are written and read.
pub const FORMAT: &'static str = "%Y-%m-%d %H:%M:%S";

/// A date and time without a time zone: the whole seconds since 1970-01-01 00:00:00 and the
/// nanoseconds past them, which reach 1 000 000 000 or more only within a leap second.
#[derive(Debug, Clone, Copy, PartialEq, Eq)]
pub struct NaiveTimestamp {
    pub secs: i64,
    pub nanos: u32,
}

/// The first second of year 0, as seconds since 1970-01-01 00:00:00.
pub const FIRST_FOUR_DIGIT_SECOND: i64 = -62167219200;

/// The last second of year 9999, as seconds since 1970-01-01 00:00:00.
pub const LAST_FOUR_DIGIT_SECOND: i64 = 253402300799;

/// Whether the moment `secs` lies in a year from 0 to 9999, whose number `%Y` writes with four
/// digits and no sign.
pub open spec fn in_four_digit_years(secs: i64) -> bool {
    FIRST_FOUR_DIGIT_SECOND <= secs <= LAST_FOUR_DIGIT_SECOND
}

/// The text that `chrono` writes for the date and time `secs` seconds and `nanos` nanoseconds
/// after 1970-01-01 00:00:00 in the layout `format`; `None` where `chrono` has no such moment
/// or the layout cannot be written.
pub uninterp spec fn datetime_text(format: Seq<char>, secs: i64, nanos: u32) -> Option<Seq<char>>;

/// What `chrono::NaiveDateTime::parse_from_str` reads from `text` in the layout `format`, as
/// seconds since 1970-01-01 00:00:00 and nanoseconds past them; `None` where it refuses the text.
pub uninterp spec fn parsed_datetime(text: Seq<char>, format: Seq<char>) -> Option<(i64, u32)>;

/// Writes the moment `secs` seconds and `nanos` nanoseconds after 1970-01-01 00:00:00 (no time
/// zone) in the layout `format`, with `chrono::DateTime::from_timestamp`, `naive_utc` and
/// `format`.
///
/// Trusted: the result is named by `datetime_text`; with no time zone or locale involved it
/// depends on the arguments alone. In the layout `%Y-%m-%d %H:%M:%S`, a whole second of a year
/// from 0 to 9999 is written (the year with four digits and no sign, the other fields with two),
/// and `chrono::NaiveDateTime::parse_from_str` reads that text back as the same second, as the
/// crate's writing of `%Y` and reading of signed and unsigned year numbers show.
#[verifier::external_body]
fn format_datetime(format: &str, secs: i64, nanos: u32) -> (text: Option<String>)
    ensures
        text matches Some(t) ==> datetime_text(format@, secs, nanos) == Some(t@),
        text is None ==> datetime_text(format@, secs, nanos) is None,
        text is None ==> !(format@ == FORMAT@ && in_four_digit_years(secs) && nanos == 0),
        text matches Some(t) ==> (format@ == FORMAT@ && in_four_digit_years(secs) && nanos == 0
            ==> parsed_datetime(t@, format@) == Some((secs, 0u32))),
{
    match chrono::DateTime::from_timestamp(secs, nanos) {
        Some(moment) => {
            let mut text = String::new();
            match write!(text, "{}", moment.naive_utc().format(format)) {
                Ok(()) => Some(text),
                Err(_) => None,
            }
        },
        None => None,
    }
}

/// Reads `text` in the layout `format` with `chrono::NaiveDateTime::parse_from_str`, giving
/// the seconds since 1970-01-01 00:00:00 and the nanoseconds past them.
///
/// Trusted: the result is named by `parsed_datetime`; it depends on the two arguments alone.
#[verifier::external_body]
fn parse_datetime(text: &str, format: &str) -> (moment: Option<(i64, u32)>)
    ensures
        moment == parsed_datetime(text@, format@),
{
    match chrono::NaiveDateTime::parse_from_str(text, format) {
        Ok(moment) => Some((moment.and_utc().timestamp(), moment.and_utc().timestamp_subsec_nanos())),
        Err(_) => None,
    }
}

/// The date and time that the text `text` gives in the layout `YYYY-MM-DD HH:MM:SS`, as
/// `chrono` reads it; `None` when the text does not follow the layout.
pub open spec fn read_date(text: Seq<char>) -> Option<NaiveTimestamp> {
    match parsed_datetime(text, FORMAT@) {
        Some((secs, nanos)) => Some(NaiveTimestamp { secs, nanos }),
        None => None,
    }
}

/// The text of `date` in the layout `YYYY-MM-DD HH:MM:SS` (a leap second as `:60`, any other
/// part of a second left out); `None` for a moment that `chrono` does not have. A whole second
/// of a year from 0 to 9999 is always written, and reading its text gives it back.
pub fn serialize(date: &NaiveTimestamp) -> (text: Option<String>)
    ensures
        text matches Some(t) ==> datetime_text(FORMAT@, date.secs, date.nanos) == Some(t@),
        text is None ==> datetime_text(FORMAT@, date.secs, date.nanos) is None,
        in_four_digit_years(date.secs) && date.nanos == 0 ==>
            (text matches Some(t) && read_date(t@) == Some(*date)),
{
    format_datetime(FORMAT, date.secs, date.nanos)
}

/// The date and time that `text` gives in the layout `YYYY-MM-DD HH:MM:SS`; `None` when the
/// text does not follow the layout.
pub fn deserialize(text: &str) -> (date: Option<NaiveTimestamp>)
    ensures
        date == read_date(text@),
{
    match parse_datetime(text, FORMAT) {
        Some((secs, nanos)) => Some(NaiveTimestamp { secs, nanos }),
        None => None,
    }
}

} // verus!
