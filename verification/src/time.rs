//! Instants and spans of time as chrono represents them, and chrono's
//! arithmetic on them.
use vstd::prelude::*;
use chrono::{DateTime, TimeDelta, Utc};

verus! {

/// An instant in UTC: whole seconds since 1970-01-01T00:00:00Z and the
/// nanoseconds past them (a leap second shows as nanoseconds of 1e9 and more).
#[derive(Debug, Clone, Copy, PartialEq, Eq, Structural)]
pub struct Timestamp {
    pub secs: i64,
    pub nanos: u32,
}

/// A signed span of time: whole seconds and the nanoseconds added to them.
#[derive(Debug, Clone, Copy, PartialEq, Eq, Structural)]
pub struct Span {
    pub secs: i64,
    pub nanos: u32,
}

/// An unsigned duration (`std::time::Duration`): whole seconds and nanoseconds.
#[derive(Debug, Clone, Copy, PartialEq, Eq, Structural)]
pub struct StdDuration {
    pub secs: u64,
    pub nanos: u32,
}

/// The instants that `DateTime<Utc>` can hold: from -262143-01-01T00:00:00Z to
/// 262142-12-31T23:59:59Z, with leap-second nanoseconds only in a minute's last second.
pub open spec fn valid_timestamp(t: Timestamp) -> bool {
    &&& -8334601228800 <= t.secs <= 8210266876799
    &&& t.nanos < 2_000_000_000
    &&& t.nanos >= 1_000_000_000 ==> t.secs % 60 == 59
}

/// The spans that `TimeDelta` can hold: at most `i64::MAX` milliseconds either way.
pub open spec fn valid_span(d: Span) -> bool {
    &&& -9223372036854776 <= d.secs <= 9223372036854775
    &&& d.nanos < 1_000_000_000
    &&& d.secs == 9223372036854775 ==> d.nanos <= 807_000_000
    &&& d.secs == -9223372036854776 ==> d.nanos >= 193_000_000
}

/// `t` comes strictly before `u`.
pub open spec fn before(t: Timestamp, u: Timestamp) -> bool {
    t.secs < u.secs || (t.secs == u.secs && t.nanos < u.nanos)
}

pub fn is_before(t: Timestamp, u: Timestamp) -> (r: bool)
    ensures
        r == before(t, u),
{
    t.secs < u.secs || (t.secs == u.secs && t.nanos < u.nanos)
}

/// One hour.
pub open spec fn one_hour() -> Span {
    Span { secs: 3600, nanos: 0 }
}

pub fn hour_span() -> (r: Span)
    ensures
        r == one_hour(),
        valid_span(r),
{
    Span { secs: 3600, nanos: 0 }
}

/// The span for a duration, as `TimeDelta::from_std` gives it: none for a
/// duration longer than `i64::MAX` milliseconds.
pub open spec fn span_of(d: StdDuration) -> Option<Span> {
    if d.secs > 9223372036854775 || d.nanos >= 1_000_000_000 || (d.secs == 9223372036854775
        && d.nanos > 807_000_000) {
        None
    } else {
        Some(Span { secs: d.secs as i64, nanos: d.nanos })
    }
}

pub fn span_from_std(d: StdDuration) -> (r: Option<Span>)
    ensures
        r == span_of(d),
        r matches Some(s) ==> valid_span(s),
{
    if d.secs > 9223372036854775 || d.nanos >= 1_000_000_000 || (d.secs == 9223372036854775
        && d.nanos > 807_000_000) {
        None
    } else {
        Some(Span { secs: d.secs as i64, nanos: d.nanos })
    }
}

/// What `DateTime::<Utc>::checked_add_signed` gives for the instant
/// (`secs`, `nanos`) and the span (`delta_secs`, `delta_nanos`): the later
/// instant as (seconds, nanoseconds), or none when it falls outside the range.
pub uninterp spec fn chrono_checked_add(secs: i64, nanos: u32, delta_secs: i64, delta_nanos: u32) -> Option<(i64, u32)>;

/// The instant, as a `Timestamp`, that chrono gives for `t + d`: outside a leap
/// second the carried sum (`span_sum`); from inside one, chrono's own result.
pub open spec fn add_span(t: Timestamp, d: Span) -> Option<Timestamp> {
    if t.nanos < 1_000_000_000 {
        span_sum(t, d)
    } else {
        match chrono_checked_add(t.secs, t.nanos, d.secs, d.nanos) {
            Some(p) => Some(Timestamp { secs: p.0, nanos: p.1 }),
            None => None,
        }
    }
}

/// `t + d` counted in nanoseconds, carried into seconds: the instant, where
/// its seconds lie in the range `DateTime<Utc>` holds, else none.
pub open spec fn span_sum(t: Timestamp, d: Span) -> Option<Timestamp> {
    let nanos = t.nanos + d.nanos;
    let carry: int = if nanos >= 1_000_000_000 { 1 } else { 0 };
    let secs = t.secs + d.secs + carry;
    if -8334601228800 <= secs <= 8210266876799 {
        Some(Timestamp { secs: secs as i64, nanos: (nanos - carry * 1_000_000_000) as u32 })
    } else {
        None
    }
}

/// `DateTime::<Utc>::checked_add_signed` on `t` and `d`. Outside a leap second
/// chrono adds the seconds and nanoseconds with carry and fails only past the
/// range it holds (`span_sum`); from inside a leap second its handling is
/// chrono's own and is only named here. A result is again an instant chrono
/// can hold.
#[verifier::external_body]
pub(crate) fn checked_add(t: Timestamp, d: Span) -> (r: Option<Timestamp>)
    requires
        valid_timestamp(t),
        valid_span(d),
    ensures
        t.nanos >= 1_000_000_000 ==> (r is Some <==> chrono_checked_add(t.secs, t.nanos, d.secs, d.nanos) is Some),
        r matches Some(u) ==> (t.nanos >= 1_000_000_000 ==> chrono_checked_add(t.secs, t.nanos, d.secs, d.nanos) == Some(
            (u.secs, u.nanos),
        )),
        r == add_span(t, d),
        r matches Some(u) ==> valid_timestamp(u),
{
    let start = DateTime::<Utc>::from_timestamp(t.secs, t.nanos).unwrap();
    let delta = TimeDelta::new(d.secs, d.nanos).unwrap();
    match start.checked_add_signed(delta) {
        Some(u) => Some(Timestamp { secs: u.timestamp(), nanos: u.timestamp_subsec_nanos() }),
        None => None,
    }
}

/// The span of `secs` whole seconds, as `chrono::Duration::seconds` makes it.
pub open spec fn seconds_span(secs: i64) -> Span {
    Span { secs, nanos: 0 }
}

/// The seconds that `chrono::Duration::seconds` accepts: at most `i64::MAX`
/// milliseconds either way (outside them it panics).
pub open spec fn seconds_in_range(secs: i64) -> bool {
    -9223372036854775 <= secs <= 9223372036854775
}

/// When a claim taken at `now` for `claim_ttl_secs` seconds expires: `now`
/// plus that many seconds, or none where chrono cannot hold the sum.
pub fn claim_expiry(now: Timestamp, claim_ttl_secs: i64) -> (r: Option<Timestamp>)
    requires
        valid_timestamp(now),
        seconds_in_range(claim_ttl_secs),
    ensures
        r == add_span(now, seconds_span(claim_ttl_secs)),
        r matches Some(u) ==> valid_timestamp(u),
{
    checked_add(now, Span { secs: claim_ttl_secs, nanos: 0 })
}

/// What `DateTime::parse_from_rfc3339` gives for the text `s`, converted to UTC,
/// as (seconds, nanoseconds); none when the text is not RFC 3339.
pub uninterp spec fn rfc3339_utc(s: Seq<char>) -> Option<(i64, u32)>;

pub open spec fn parsed_rfc3339(s: Seq<char>) -> Option<Timestamp> {
    match rfc3339_utc(s) {
        Some(p) => Some(Timestamp { secs: p.0, nanos: p.1 }),
        None => None,
    }
}

/// `DateTime::parse_from_rfc3339` on `s`, taken to UTC. The contract names the
/// result; RFC 3339's grammar is chrono's.
#[verifier::external_body]
pub(crate) fn parse_rfc3339(s: &str) -> (r: Option<Timestamp>)
    ensures
        r is Some <==> rfc3339_utc(s@) is Some,
        r matches Some(u) ==> rfc3339_utc(s@) == Some((u.secs, u.nanos)),
        r == parsed_rfc3339(s@),
        r matches Some(u) ==> valid_timestamp(u),
{
    match DateTime::parse_from_rfc3339(s) {
        Ok(dt) => {
            let u = dt.with_timezone(&Utc);
            Some(Timestamp { secs: u.timestamp(), nanos: u.timestamp_subsec_nanos() })
        },
        Err(_) => None,
    }
}

} // verus!
