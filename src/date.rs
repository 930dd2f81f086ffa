//! Publication dates of feed items.

use vstd::prelude::*;

verus! {

/// A point in time with the UTC offset it was written in.
#[derive(Clone, Copy, Debug, PartialEq, Eq, Structural)]
pub struct FeedDate {
    /// Seconds since the Unix epoch.
    pub timestamp: i64,
    /// Nanoseconds past `timestamp`.
    pub nanos: u32,
    /// Offset from UTC, in seconds east.
    pub offset: i32,
}

/// The format tried when a date is not in RFC 2822 form: day, abbreviated
/// month, year, hour:minute:second with fraction, and a numeric offset.
pub const FALLBACK_DATE_FORMAT: &'static str = "%d %b %Y %k:%M:%S%.3f %z";

/// The date that chrono reads from an RFC 2822 text, if any.
pub uninterp spec fn rfc2822_date_of(s: Seq<char>) -> Option<FeedDate>;

/// The date that chrono reads from a text by a format, if any.
pub uninterp spec fn formatted_date_of(s: Seq<char>, format: Seq<char>) -> Option<FeedDate>;

/// chrono's parse error, carried as an opaque value.
#[verifier::external_type_specification]
#[verifier::external_body]
pub struct ExDateParseError(chrono::ParseError);

/// Relies on `chrono::DateTime::parse_from_rfc2822`: the result depends on
/// the text alone.
#[verifier::external_body]
fn read_rfc2822(s: &str) -> (r: Result<FeedDate, chrono::ParseError>)
    ensures
        r is Ok <==> rfc2822_date_of(s@) is Some,
        r is Ok ==> rfc2822_date_of(s@) == Some(r->Ok_0),
{
    let d = chrono::DateTime::parse_from_rfc2822(s)?;
    Ok(FeedDate {
        timestamp: d.timestamp(),
        nanos: d.timestamp_subsec_nanos(),
        offset: d.offset().local_minus_utc(),
    })
}

/// Relies on `chrono::DateTime::parse_from_str`: the result depends on the
/// text and the format alone.
#[verifier::external_body]
fn read_formatted(s: &str, format: &str) -> (r: Result<FeedDate, chrono::ParseError>)
    ensures
        r is Ok <==> formatted_date_of(s@, format@) is Some,
        r is Ok ==> formatted_date_of(s@, format@) == Some(r->Ok_0),
{
    let d = chrono::DateTime::parse_from_str(s, format)?;
    Ok(FeedDate {
        timestamp: d.timestamp(),
        nanos: d.timestamp_subsec_nanos(),
        offset: d.offset().local_minus_utc(),
    })
}

/// A publication date: RFC 2822 first, the fallback format after.
pub open spec fn date_of(s: Seq<char>) -> Option<FeedDate> {
    match rfc2822_date_of(s) {
        Some(d) => Some(d),
        None => formatted_date_of(s, FALLBACK_DATE_FORMAT@),
    }
}

/// Reads a publication date, trying RFC 2822 and then the fallback format.
pub fn parse_date(s: &str) -> (r: Option<FeedDate>)
    ensures
        r == date_of(s@),
{
    match read_rfc2822(s) {
        Ok(d) => Some(d),
        Err(_) => match read_formatted(s, FALLBACK_DATE_FORMAT) {
            Ok(d) => Some(d),
            Err(_) => None,
        },
    }
}

/// A text that is no RFC 2822 date but matches the fallback format is read
/// by the fallback; one that matches neither is no date.
pub proof fn lemma_date_fallback(s: Seq<char>)
    requires
        rfc2822_date_of(s) is None,
    ensures
        date_of(s) == formatted_date_of(s, FALLBACK_DATE_FORMAT@),
        formatted_date_of(s, FALLBACK_DATE_FORMAT@) is None ==> date_of(s) is None,
{
}

} // verus!
