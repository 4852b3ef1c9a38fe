use vstd::prelude::*;

verus! {

/// An absolute instant with its UTC offset resolved: seconds and subsecond
/// nanoseconds since the Unix epoch.
#[derive(Debug, Clone, Copy, PartialEq, Eq, Structural, Hash)]
pub struct Timestamp {
    pub secs: i64,
    pub nanos: u32,
}

/// What chrono's flexible `FromStr` parser for `DateTime<Utc>` yields on a
/// given text, as seconds and nanoseconds; the result depends on the text alone.
pub uninterp spec fn flexible_time_of(s: Seq<char>) -> Option<Timestamp>;

/// What `DateTime::parse_from_rfc3339` yields on a given text, normalized to
/// UTC; the result depends on the text alone.
pub uninterp spec fn rfc3339_time_of(s: Seq<char>) -> Option<Timestamp>;

/// What `DateTime::parse_from_rfc2822` yields on a given text, normalized to
/// UTC; the result depends on the text alone.
pub uninterp spec fn rfc2822_time_of(s: Seq<char>) -> Option<Timestamp>;

/// Relies on chrono's `impl FromStr for DateTime<Utc>`: parsing is a pure
/// function of the text, reported here as Unix seconds and nanoseconds.
#[verifier::external_body]
fn parse_flexible(s: &str) -> (r: Option<Timestamp>)
    ensures
        r == flexible_time_of(s@),
{
    s.parse::<chrono::DateTime<chrono::Utc>>()
        .ok()
        .map(|d| Timestamp { secs: d.timestamp(), nanos: d.timestamp_subsec_nanos() })
}

/// Relies on chrono's `DateTime::parse_from_rfc3339`: parsing is a pure
/// function of the text; `timestamp` resolves the parsed offset to UTC.
#[verifier::external_body]
fn parse_rfc3339(s: &str) -> (r: Option<Timestamp>)
    ensures
        r == rfc3339_time_of(s@),
{
    chrono::DateTime::parse_from_rfc3339(s)
        .ok()
        .map(|d| Timestamp { secs: d.timestamp(), nanos: d.timestamp_subsec_nanos() })
}

/// Relies on chrono's `DateTime::parse_from_rfc2822`: parsing is a pure
/// function of the text; `timestamp` resolves the parsed offset to UTC.
#[verifier::external_body]
fn parse_rfc2822(s: &str) -> (r: Option<Timestamp>)
    ensures
        r == rfc2822_time_of(s@),
{
    chrono::DateTime::parse_from_rfc2822(s)
        .ok()
        .map(|d| Timestamp { secs: d.timestamp(), nanos: d.timestamp_subsec_nanos() })
}

/// The normalizer's fallback chain: the flexible parse first, then strict
/// RFC 3339, then strict RFC 2822; the first success wins.
pub open spec fn spec_convert_datetime(s: Seq<char>) -> Option<Timestamp> {
    if flexible_time_of(s) is Some {
        flexible_time_of(s)
    } else if rfc3339_time_of(s) is Some {
        rfc3339_time_of(s)
    } else {
        rfc2822_time_of(s)
    }
}

/// Normalizes a date text to an absolute UTC instant, trying the three
/// formats in their fixed order; `None` when none of them accepts the text.
pub fn convert_datetime(s: &str) -> (r: Option<Timestamp>)
    ensures
        r == spec_convert_datetime(s@),
{
    let first = parse_flexible(s);
    if first.is_some() {
        return first;
    }
    let second = parse_rfc3339(s);
    if second.is_some() {
        return second;
    }
    parse_rfc2822(s)
}

} // verus!
