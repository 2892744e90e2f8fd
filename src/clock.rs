use vstd::prelude::*;

verus! {

/// An instant in UTC: whole seconds since the Unix epoch and the
/// nanoseconds past that second (above 999,999,999 only within a leap
/// second).
#[derive(Clone, Copy, Debug, PartialEq, Eq, Structural)]
pub struct UtcTime {
    pub secs: i64,
    pub nanos: u32,
}

/// The RFC 3339 text that chrono writes for an instant, or nothing when the
/// instant lies outside chrono's range.
pub uninterp spec fn rfc3339_text(secs: int, nanos: int) -> Option<Seq<char>>;

/// The instant, as seconds and nanoseconds, that chrono reads from an
/// RFC 3339 text, or nothing when the text is not RFC 3339.
pub uninterp spec fn rfc3339_instant(s: Seq<char>) -> Option<(int, int)>;

/// Relies on `chrono::Utc::now`: the system clock, as seconds after the
/// epoch and nanoseconds below a second. chrono builds the value with
/// `DateTime::from_timestamp` from those two numbers, so they lie in its
/// range. It panics when the clock stands before the epoch.
#[verifier::external_body]
pub(crate) fn utc_now() -> (t: UtcTime)
    ensures
        t.secs >= 0,
        t.nanos < 1_000_000_000,
        rfc3339_text(t.secs as int, t.nanos as int) is Some,
{
    let now = chrono::Utc::now();
    UtcTime { secs: now.timestamp(), nanos: now.timestamp_subsec_nanos() }
}

/// Relies on `chrono::DateTime::to_rfc3339`, applied to the instant that
/// `DateTime::from_timestamp` makes of the two numbers; `None` when they are
/// out of chrono's range.
#[verifier::external_body]
pub(crate) fn format_rfc3339(t: UtcTime) -> (r: Option<String>)
    ensures
        match r {
            Some(s) => rfc3339_text(t.secs as int, t.nanos as int) == Some(s@),
            None => rfc3339_text(t.secs as int, t.nanos as int) is None,
        },
{
    match chrono::DateTime::from_timestamp(t.secs, t.nanos) {
        Some(d) => Some(d.to_rfc3339()),
        None => None,
    }
}

/// Relies on `chrono::DateTime::parse_from_rfc3339`: the instant an RFC 3339
/// text stands for, whatever offset it is written in; `None` when the text
/// does not parse.
#[verifier::external_body]
pub(crate) fn parse_rfc3339(s: &str) -> (r: Option<UtcTime>)
    ensures
        match r {
            Some(t) => rfc3339_instant(s@) == Some((t.secs as int, t.nanos as int)),
            None => rfc3339_instant(s@) is None,
        },
{
    match chrono::DateTime::parse_from_rfc3339(s) {
        Ok(d) => Some(UtcTime { secs: d.timestamp(), nanos: d.timestamp_subsec_nanos() }),
        Err(_) => None,
    }
}

} // verus!
