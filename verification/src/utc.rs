//! UTC instants as RFC 3339 text.

use crate::model::UtcTime;
use time::format_description::well_known::Rfc3339;
use time::OffsetDateTime;
use vstd::prelude::*;
use vstd::utf8::{encode_utf8, is_ascii_chars, is_ascii_chars_encode_utf8};

verus! {

/// Errors of reading an instant.
#[derive(Debug, Clone)]
pub enum Error {
    /// The text is not an RFC 3339 instant; the text.
    FailToDateParse(String),
}

/// The instants that RFC 3339 can write in UTC: years 0 to 9999, in
/// nanoseconds since the Unix epoch.
pub open spec fn rfc3339_writable(unix_nanos: int) -> bool {
    -62_167_219_200_000_000_000 <= unix_nanos < 253_402_300_800_000_000_000
}

/// Whether RFC 3339 can write the instant (see `rfc3339_writable`).
pub fn is_rfc3339_writable(unix_nanos: i128) -> (r: bool)
    ensures
        r == rfc3339_writable(unix_nanos as int),
{
    -62_167_219_200_000_000_000 <= unix_nanos && unix_nanos < 253_402_300_800_000_000_000
}

/// The RFC 3339 text (UTC, `Z`, fractional seconds only when not zero)
/// of the instant.
pub uninterp spec fn rfc3339_text(unix_nanos: int) -> Seq<char>;

/// The instant, in nanoseconds since the Unix epoch, that an RFC 3339 text
/// names, or `None` when it is not RFC 3339.
pub uninterp spec fn rfc3339_instant(text: Seq<char>) -> Option<int>;

/// Writes the instant as RFC 3339 text.
///
/// Calls `OffsetDateTime::from_unix_timestamp_nanos` and `format(&Rfc3339)`
/// of the `time` crate. The text is named `rfc3339_text`; the contract
/// claims what the source shows: formatting fails exactly for years outside
/// 0 to 9999, the text keeps every nanosecond, so reading it back gives the
/// same instant, and it is at most 30 ASCII characters
/// (`YYYY-MM-DDTHH:MM:SS.fffffffffZ`).
#[verifier::external_body]
fn format_rfc3339(unix_nanos: i128) -> (r: Option<String>)
    ensures
        r is Some <==> rfc3339_writable(unix_nanos as int),
        r matches Some(s) ==> s@ == rfc3339_text(unix_nanos as int),
        r matches Some(s) ==> rfc3339_instant(s@) == Some(unix_nanos as int),
        r matches Some(s) ==> s@.len() <= 30 && is_ascii_chars(s@),
{
    let time = OffsetDateTime::from_unix_timestamp_nanos(unix_nanos).ok()?;
    time.format(&Rfc3339).ok()
}

/// Reads an RFC 3339 instant.
///
/// Calls `OffsetDateTime::parse(text, &Rfc3339)` and `unix_timestamp_nanos`
/// of the `time` crate; the result is named `rfc3339_instant`.
#[verifier::external_body]
fn parse_rfc3339(text: &str) -> (r: Option<i128>)
    ensures
        r matches Some(n) ==> rfc3339_instant(text@) == Some(n as int),
        r is None ==> rfc3339_instant(text@) is None,
{
    OffsetDateTime::parse(text, &Rfc3339).ok().map(|t| t.unix_timestamp_nanos())
}

/// The RFC 3339 text of a UTC instant.
pub fn format_time(time: UtcTime) -> (s: String)
    requires
        rfc3339_writable(time.unix_nanos as int),
    ensures
        s@ == rfc3339_text(time.unix_nanos as int),
        rfc3339_instant(s@) == Some(time.unix_nanos as int),
        encode_utf8(s@).len() <= 30,
{
    match format_rfc3339(time.unix_nanos) {
        Some(s) => {
            proof {
                is_ascii_chars_encode_utf8(s@);
            }
            s
        },
        None => {
            assert(false);
            String::new()
        },
    }
}

/// The instant that an RFC 3339 text names, or `FailToDateParse` with the
/// text.
pub fn parse_utc(moment: &str) -> (r: Result<UtcTime, Error>)
    ensures
        rfc3339_instant(moment@) matches Some(n) ==> (r matches Ok(t) && t.unix_nanos == n),
        rfc3339_instant(moment@) is None ==> (r matches Err(Error::FailToDateParse(m)) && m@
            == moment@),
{
    match parse_rfc3339(moment) {
        Some(n) => Ok(UtcTime { unix_nanos: n }),
        None => Err(Error::FailToDateParse(moment.to_owned())),
    }
}

} // verus!
