//! Kubernetes `MicroTime`: instants written as ISO 8601 text with six decimal
//! digits of the second. Reading and writing the text is the work of the
//! `time` crate; an instant is held here as nanoseconds since the Unix epoch.

use vstd::prelude::*;
use time::format_description::well_known::Iso8601;
use time::OffsetDateTime;

verus! {

/// The ISO 8601 configuration of `MicroTime`, in the form that `Iso8601`
/// takes as its parameter: date, time and offset, with separators, a
/// four-digit calendar year, seconds with six decimal digits, and the offset
/// to the minute.
pub const MICRO_TIME_CONFIG: u128 = 0x0501_0000_0206_0100_0000_0000_0000_0000;

#[verifier::external_type_specification]
#[verifier::external_body]
pub struct ExParse(time::error::Parse);

#[verifier::external_type_specification]
#[verifier::external_body]
pub struct ExFormat(time::error::Format);

/// An instant: nanoseconds since 1970-01-01T00:00:00Z.
#[derive(Clone, Copy, PartialEq, Eq, Structural, Debug)]
pub struct MicroTime {
    pub unix_nanos: i128,
}

/// Why a text or an instant was not converted.
#[derive(Clone, Copy, PartialEq, Eq, Structural, Debug)]
pub enum TimeError {
    /// The text is not an ISO 8601 date and time with an offset.
    Parse,
    /// The instant cannot be written with a four-digit year.
    Format,
}

/// The instant that an ISO 8601 text denotes, in nanoseconds since the Unix
/// epoch, or `None` where the `time` crate does not read the text as a date
/// and time with an offset.
pub uninterp spec fn iso8601_instant(text: Seq<char>) -> Option<int>;

/// The ISO 8601 text, in UTC and with six decimal digits of the second, of
/// the instant `unix_nanos`, or `None` where the `time` crate does not write
/// that instant.
pub uninterp spec fn iso8601_text(unix_nanos: int) -> Option<Seq<char>>;

/// Calls `OffsetDateTime::parse` with the `MicroTime` configuration and
/// hands out the instant of what was read as `unix_timestamp_nanos` gives it.
/// Whether the text is read, and as which instant, depends on the text alone.
#[verifier::external_body]
fn parse_unix_nanos(input: &str) -> (r: Result<i128, time::error::Parse>)
    ensures
        r is Ok <==> iso8601_instant(input@) is Some,
        r is Ok ==> r->Ok_0 == iso8601_instant(input@)->0,
{
    match OffsetDateTime::parse(input, &Iso8601::<MICRO_TIME_CONFIG>) {
        Ok(t) => Ok(t.unix_timestamp_nanos()),
        Err(e) => Err(e),
    }
}

/// Makes the UTC date and time of `unix_nanos` with
/// `OffsetDateTime::from_unix_timestamp_nanos` and calls
/// `OffsetDateTime::format` on it with the `MicroTime` configuration. Whether
/// the instant is written, and as which text, depends on the instant alone.
#[verifier::external_body]
fn format_unix_nanos(unix_nanos: i128) -> (r: Result<String, time::error::Format>)
    ensures
        r is Ok <==> iso8601_text(unix_nanos as int) is Some,
        r is Ok ==> r->Ok_0@ == iso8601_text(unix_nanos as int)->0,
{
    match OffsetDateTime::from_unix_timestamp_nanos(unix_nanos) {
        Ok(t) => t.format(&Iso8601::<MICRO_TIME_CONFIG>),
        Err(e) => Err(time::error::Format::from(e)),
    }
}

/// Calls `OffsetDateTime::now_utc` and hands out the instant as
/// `unix_timestamp_nanos` gives it. Nothing is claimed of the instant: it is
/// whatever the system clock says.
#[verifier::external_body]
fn clock_unix_nanos() -> (r: i128) {
    OffsetDateTime::now_utc().unix_timestamp_nanos()
}

/// What [`parse`] returns for `text`.
pub open spec fn parsed(text: Seq<char>) -> Result<MicroTime, TimeError> {
    match iso8601_instant(text) {
        Some(n) => Ok(MicroTime { unix_nanos: n as i128 }),
        None => Err(TimeError::Parse),
    }
}

/// What [`format`] returns for `datetime`, by view.
pub open spec fn formatted(datetime: MicroTime) -> Result<Seq<char>, TimeError> {
    match iso8601_text(datetime.unix_nanos as int) {
        Some(s) => Ok(s),
        None => Err(TimeError::Format),
    }
}

/// `text` is what [`format`] writes for some instant.
pub open spec fn is_time_text(text: Seq<char>) -> bool {
    exists|t: MicroTime| #[trigger] formatted(t) == Ok::<Seq<char>, TimeError>(text)
}

/// Reads an ISO 8601 date and time with an offset as an instant.
pub fn parse(input: &str) -> (r: Result<MicroTime, TimeError>)
    ensures
        r == parsed(input@),
{
    match parse_unix_nanos(input) {
        Ok(n) => Ok(MicroTime { unix_nanos: n }),
        Err(_) => Err(TimeError::Parse),
    }
}

/// Writes an instant as ISO 8601 text in UTC, with six decimal digits of the
/// second.
pub fn format(datetime: MicroTime) -> (r: Result<String, TimeError>)
    ensures
        r is Ok <==> formatted(datetime) is Ok,
        r is Ok ==> r->Ok_0@ == formatted(datetime)->Ok_0,
        r is Err ==> r->Err_0 == TimeError::Format,
{
    match format_unix_nanos(datetime.unix_nanos) {
        Ok(s) => Ok(s),
        Err(_) => Err(TimeError::Format),
    }
}

/// The present instant, by the system clock.
pub fn now_utc() -> MicroTime {
    MicroTime { unix_nanos: clock_unix_nanos() }
}

} // verus!
