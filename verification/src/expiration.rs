//! Parsing of expiration dates.
//!
//! An expiration value is optional text. Absent text means the key never
//! expires. Present text is tried, in order, against four layouts: an RFC
//! 3339 timestamp, a timezone-naive timestamp with a `T` separator
//! (assumed UTC), the same with a space separator, and a bare calendar
//! date (assumed UTC midnight). The first layout that parses wins. The
//! parsed instant must then be strictly in the future; otherwise the
//! input is rejected with the same error as an unparseable string.
//!
//! Instants are carried as nanoseconds since the Unix epoch, the form in
//! which the rest of the library compares and stamps them.

use vstd::prelude::*;

use crate::errors::ParseOffsetDateTimeError;

verus! {

pub uninterp spec fn rfc3339_nanos_of(s: Seq<char>) -> Option<i128>;

pub uninterp spec fn datetime_t_nanos_of(s: Seq<char>) -> Option<i128>;

pub uninterp spec fn datetime_space_nanos_of(s: Seq<char>) -> Option<i128>;

pub uninterp spec fn date_midnight_nanos_of(s: Seq<char>) -> Option<i128>;

/// Relies on `time::OffsetDateTime::parse` with the well-known RFC 3339
/// format, and on `unix_timestamp_nanos`: whether a string parses, and to
/// which instant, depends on its characters alone.
#[verifier::external_body]
fn parse_rfc3339_nanos(s: &str) -> (r: Option<i128>)
    ensures
        r == rfc3339_nanos_of(s@),
{
    time::OffsetDateTime::parse(s, &time::format_description::well_known::Rfc3339)
        .ok()
        .map(|d| d.unix_timestamp_nanos())
}

/// Relies on `time::PrimitiveDateTime::parse` with a fixed
/// year-month-day `T` hour-minute-second format (built once with
/// `time::format_description::parse`), `assume_utc`, and
/// `unix_timestamp_nanos`: the result depends on the characters alone.
#[verifier::external_body]
fn parse_datetime_t_nanos(s: &str) -> (r: Option<i128>)
    ensures
        r == datetime_t_nanos_of(s@),
{
    let format = time::format_description::parse(
        "[year repr:full base:calendar]-[month repr:numerical]-[day]T[hour]:[minute]:[second]",
    )
    .ok()?;
    time::PrimitiveDateTime::parse(s, &format)
        .ok()
        .map(|d| d.assume_utc().unix_timestamp_nanos())
}

/// Relies on `time::PrimitiveDateTime::parse` with the same fixed format
/// as above but a space separator, `assume_utc`, and
/// `unix_timestamp_nanos`: the result depends on the characters alone.
#[verifier::external_body]
fn parse_datetime_space_nanos(s: &str) -> (r: Option<i128>)
    ensures
        r == datetime_space_nanos_of(s@),
{
    let format = time::format_description::parse(
        "[year repr:full base:calendar]-[month repr:numerical]-[day] [hour]:[minute]:[second]",
    )
    .ok()?;
    time::PrimitiveDateTime::parse(s, &format)
        .ok()
        .map(|d| d.assume_utc().unix_timestamp_nanos())
}

/// Relies on `time::Date::parse` with a fixed year-month-day format
/// (built once with `time::format_description::parse`), `midnight`,
/// `assume_utc`, and `unix_timestamp_nanos`: the result depends on the
/// characters alone.
#[verifier::external_body]
fn parse_date_midnight_nanos(s: &str) -> (r: Option<i128>)
    ensures
        r == date_midnight_nanos_of(s@),
{
    let format = time::format_description::parse(
        "[year repr:full base:calendar]-[month repr:numerical]-[day]",
    )
    .ok()?;
    time::Date::parse(s, &format)
        .ok()
        .map(|d| d.midnight().assume_utc().unix_timestamp_nanos())
}

/// Relies on `time::OffsetDateTime::now_utc` and `unix_timestamp_nanos`:
/// the clock is an outside input, so nothing is stated of the result.
#[verifier::external_body]
pub(crate) fn now_unix_nanos() -> i128 {
    time::OffsetDateTime::now_utc().unix_timestamp_nanos()
}

/// The instant a string denotes, under the first of the four accepted
/// layouts that parses it, or `None` when none does.
pub open spec fn spec_parse_datetime(s: Seq<char>) -> Option<i128> {
    if rfc3339_nanos_of(s) is Some {
        rfc3339_nanos_of(s)
    } else if datetime_t_nanos_of(s) is Some {
        datetime_t_nanos_of(s)
    } else if datetime_space_nanos_of(s) is Some {
        datetime_space_nanos_of(s)
    } else {
        date_midnight_nanos_of(s)
    }
}

/// What the expiration parser returns: absent input is a non-expiring
/// key; present input must denote an instant strictly after `now`, and is
/// otherwise rejected with the input itself.
pub open spec fn spec_parse_expiration(input: Option<Seq<char>>, now: i128) -> Result<
    Option<i128>,
    Seq<char>,
> {
    match input {
        None => Ok(None),
        Some(s) => match spec_parse_datetime(s) {
            Some(t) => if t > now {
                Ok(Some(t))
            } else {
                Err(s)
            },
            None => Err(s),
        },
    }
}

/// Parses an optional expiration string against the four accepted
/// layouts and rejects instants that are not strictly after `now`. The
/// error carries the rejected input; a malformed string and an already
/// past instant are deliberately indistinguishable.
pub fn parse_expiration_date(string: Option<String>, now: i128) -> (r: Result<
    Option<i128>,
    ParseOffsetDateTimeError,
>)
    ensures
        match (r, spec_parse_expiration(string.deep_view(), now)) {
            (Ok(v), Ok(sv)) => v == sv,
            (Err(e), Err(s)) => e.0@ == s,
            _ => false,
        },
{
    let Some(string) = string else { return Ok(None) };
    let parsed: Option<i128> = if let Some(t) = parse_rfc3339_nanos(string.as_str()) {
        Some(t)
    } else if let Some(t) = parse_datetime_t_nanos(string.as_str()) {
        Some(t)
    } else if let Some(t) = parse_datetime_space_nanos(string.as_str()) {
        Some(t)
    } else if let Some(t) = parse_date_midnight_nanos(string.as_str()) {
        Some(t)
    } else {
        None
    };
    match parsed {
        Some(t) => if t > now {
            Ok(Some(t))
        } else {
            Err(ParseOffsetDateTimeError(string))
        },
        None => Err(ParseOffsetDateTimeError(string)),
    }
}

} // verus!
