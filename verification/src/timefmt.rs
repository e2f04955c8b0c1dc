//! Timestamps as plain epoch nanoseconds, with the RFC 3339 text form
//! delegated to the time library behind named, trusted conversions.
use vstd::prelude::*;

verus! {

/// A point in time, held as nanoseconds since the Unix epoch.
#[derive(Clone, Copy, Debug, PartialEq, Eq, Structural)]
pub struct Timestamp {
    pub unix_nanos: i128,
}

impl Timestamp {
    /// A timestamp from its epoch-nanosecond count.
    pub fn from_unix_nanos(unix_nanos: i128) -> (r: Self)
        ensures
            r.unix_nanos == unix_nanos,
    {
        Timestamp { unix_nanos }
    }
}

/// The instant that an RFC 3339 text denotes, in epoch nanoseconds; absent
/// when the text is not a valid RFC 3339 date-time.
pub uninterp spec fn rfc3339_nanos_of(s: Seq<char>) -> Option<i128>;

/// The RFC 3339 rendering of an instant given in epoch nanoseconds; absent
/// when the instant lies outside the renderable range.
pub uninterp spec fn rfc3339_text_of(n: i128) -> Option<Seq<char>>;

/// Relies on time::OffsetDateTime::parse with the RFC 3339 well-known
/// format: whether the text is valid, and the instant it denotes, depend on
/// the text alone; unix_timestamp_nanos turns the result into plain nanoseconds.
#[verifier::external_body]
pub fn parse_rfc3339(s: &str) -> (r: Option<i128>)
    ensures
        r == rfc3339_nanos_of(s@),
{
    match time::OffsetDateTime::parse(s, &time::format_description::well_known::Rfc3339) {
        Ok(d) => Some(d.unix_timestamp_nanos()),
        Err(_) => None,
    }
}

/// Relies on time::OffsetDateTime::from_unix_timestamp_nanos and format with
/// the RFC 3339 well-known format: the rendered text depends on the instant
/// alone, and rendering fails only outside the representable range.
#[verifier::external_body]
pub fn format_rfc3339(n: i128) -> (r: Option<String>)
    ensures
        match r {
            Option::Some(t) => rfc3339_text_of(n) == Option::Some(t@),
            Option::None => rfc3339_text_of(n) is None,
        },
{
    match time::OffsetDateTime::from_unix_timestamp_nanos(n) {
        Ok(d) => d.format(&time::format_description::well_known::Rfc3339).ok(),
        Err(_) => None,
    }
}

} // verus!
