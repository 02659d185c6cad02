//! Points in time, held as plain numbers, and their RFC 3339 text as the
//! `time` crate writes and reads it.

use vstd::prelude::*;

verus! {

/// A point in time with the offset from UTC under which it is shown.
#[derive(Clone, Copy, Debug, PartialEq, Eq)]
pub struct Timestamp {
    /// Nanoseconds since 1970-01-01T00:00:00Z.
    pub unix_nanos: i128,
    /// Offset from UTC in seconds, east positive.
    pub offset_seconds: i32,
}

impl Timestamp {
    /// 1970-01-01T00:00:00Z.
    pub fn unix_epoch() -> (t: Timestamp)
        ensures
            t == (Timestamp { unix_nanos: 0, offset_seconds: 0 }),
    {
        Timestamp { unix_nanos: 0, offset_seconds: 0 }
    }
}

/// The RFC 3339 text of a point in time, where it has one.
pub uninterp spec fn rfc3339_text(unix_nanos: int, offset_seconds: int) -> Option<Seq<char>>;

/// The point in time that an RFC 3339 text stands for: nanoseconds since the
/// epoch and offset in seconds.
pub uninterp spec fn rfc3339_instant(text: Seq<char>) -> Option<(int, int)>;

/// Calls `OffsetDateTime::now_utc` and hands out the instant as numbers
/// (`unix_timestamp_nanos`, `offset().whole_seconds()`). The clock decides the
/// instant; the offset is that of UTC.
#[verifier::external_body]
pub(crate) fn now_utc() -> (t: Timestamp)
    ensures
        t.offset_seconds == 0,
{
    let now = time::OffsetDateTime::now_utc();
    Timestamp { unix_nanos: now.unix_timestamp_nanos(), offset_seconds: now.offset().whole_seconds() }
}

/// Builds the `OffsetDateTime` for `t` (`from_unix_timestamp_nanos`,
/// `UtcOffset::from_whole_seconds`, `checked_to_offset`) and calls `format`
/// with `Rfc3339`. The contract names the text; there is none where any of
/// the four calls refuses.
#[verifier::external_body]
pub(crate) fn format_rfc3339(t: Timestamp) -> (text: Option<String>)
    ensures
        match text {
            Some(s) => rfc3339_text(t.unix_nanos as int, t.offset_seconds as int) == Some(s@),
            None => rfc3339_text(t.unix_nanos as int, t.offset_seconds as int) is None,
        },
{
    let utc = time::OffsetDateTime::from_unix_timestamp_nanos(t.unix_nanos).ok()?;
    let offset = time::UtcOffset::from_whole_seconds(t.offset_seconds).ok()?;
    let local = utc.checked_to_offset(offset)?;
    local.format(&time::format_description::well_known::Rfc3339).ok()
}

/// Calls `OffsetDateTime::parse` with `Rfc3339` and hands out the instant as
/// numbers. The contract names the outcome.
#[verifier::external_body]
pub(crate) fn parse_rfc3339(text: &str) -> (t: Option<Timestamp>)
    ensures
        match t {
            Some(t) => rfc3339_instant(text@) == Some((t.unix_nanos as int, t.offset_seconds as int)),
            None => rfc3339_instant(text@) is None,
        },
{
    match time::OffsetDateTime::parse(text, &time::format_description::well_known::Rfc3339) {
        Ok(at) => Some(
            Timestamp {
                unix_nanos: at.unix_timestamp_nanos(),
                offset_seconds: at.offset().whole_seconds(),
            },
        ),
        Err(_) => None,
    }
}

} // verus!
