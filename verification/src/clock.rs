//! Instants in time.
use crate::origins;
use chrono::TimeZone;
use vstd::prelude::*;

verus! {

/// An instant: whole seconds since the Unix epoch, and the nanoseconds past that second.
#[derive(Debug, Clone, Copy, PartialEq, Eq, Structural)]
pub struct Timestamp {
    pub secs: i64,
    pub nanos: u32,
}

/// The first second that a calendar date can be given for, the start of the year -262143.
pub const MIN_SECS: i64 = -8_334_601_228_800;

/// The last second that a calendar date can be given for, the end of the year 262142.
pub const MAX_SECS: i64 = 8_210_266_876_799;

/// The instant of a whole second, where a calendar date can be given for it.
pub open spec fn instant(secs: i64) -> Option<Timestamp> {
    if MIN_SECS <= secs <= MAX_SECS {
        Some(Timestamp { secs, nanos: 0 })
    } else {
        None
    }
}

/// The instant of a whole second, or `now` where no calendar date can be given for it.
pub open spec fn instant_or(secs: i64, now: Timestamp) -> Timestamp {
    match instant(secs) {
        Some(t) => t,
        None => now,
    }
}

/// The instant, or `now` where none was reported.
pub open spec fn reported_or(t: Option<Timestamp>, now: Timestamp) -> Timestamp {
    match t {
        Some(t) => t,
        None => now,
    }
}

/// The instant that a text in RFC 3339 form denotes, as seconds and nanoseconds.
pub uninterp spec fn rfc3339(s: Seq<char>) -> Option<(i64, u32)>;

/// `chrono::TimeZone::timestamp_opt` on `Utc`: the instant of a whole second, exactly for the
/// seconds of the years -262143 to 262142.
#[verifier::external_body]
pub(crate) fn timestamp_opt(secs: i64) -> (r: Option<Timestamp>)
    ensures
        r == instant(secs),
{
    chrono::Utc.timestamp_opt(secs, 0).single().map(
        |t| Timestamp { secs: t.timestamp(), nanos: t.timestamp_subsec_nanos() },
    )
}

/// `chrono::DateTime::parse_from_rfc3339`: the instant that the text denotes, or `None` where the
/// text is not of that form. It depends on the text alone.
#[verifier::external_body]
pub(crate) fn parse_rfc3339(s: &str) -> (r: Option<Timestamp>)
    ensures
        match r {
            Some(t) => rfc3339(s@) == Some((t.secs, t.nanos)),
            None => rfc3339(s@) is None,
        },
{
    chrono::DateTime::parse_from_rfc3339(s).ok().map(
        |t| Timestamp { secs: t.timestamp(), nanos: t.timestamp_subsec_nanos() },
    )
}

/// Whether an instant can be the current one: one that the clock has given.
pub open spec fn can_be_now(t: Timestamp) -> bool {
    origins::is_clock_reading(t)
}

/// The current instant is at or after the Unix epoch, and within the calendar.
pub proof fn now_is_in_the_calendar(t: Timestamp)
    requires
        can_be_now(t),
    ensures
        0 <= t.secs <= MAX_SECS,
        t.nanos < 1_000_000_000,
{
    origins::clock_reading_is_in_the_calendar(t);
}

/// `chrono::Utc::now`: the current instant, at or after the Unix epoch and within the calendar. It
/// panics on a machine whose clock is set before the epoch.
#[verifier::external_body]
pub(crate) fn now() -> (r: Timestamp)
    ensures
        can_be_now(r),
        0 <= r.secs <= MAX_SECS,
        r.nanos < 1_000_000_000,
{
    let t = chrono::Utc::now();
    Timestamp { secs: t.timestamp(), nanos: t.timestamp_subsec_nanos() }
}

/// The instant of a whole second, or `now` where no calendar date can be given for it.
///
/// A gateway's timestamp is metadata on an operation that already succeeded, so one that cannot be
/// represented does not fail the operation.
pub fn timestamp_or(secs: i64, now: Timestamp) -> (r: Timestamp)
    ensures
        r == instant_or(secs, now),
{
    match timestamp_opt(secs) {
        Some(t) => t,
        None => now,
    }
}

/// The instant of a whole second, or the current instant where no calendar date can be given for
/// it.
pub fn timestamp_or_now(secs: i64) -> (r: Timestamp)
    ensures
        exists|now: Timestamp| #[trigger] can_be_now(now) && r == instant_or(secs, now),
{
    timestamp_or(secs, now())
}

/// `std::time::SystemTime::elapsed` since the Unix epoch: the nanoseconds past the last whole second,
/// or `None` where the machine's clock is set before the epoch.
#[verifier::external_body]
pub(crate) fn epoch_nanos() -> (r: Option<u32>)
    ensures
        r matches Some(n) ==> n < 1_000_000_000,
        origins::is_nanos_reading(r),
{
    std::time::UNIX_EPOCH.elapsed().ok().map(|d| d.subsec_nanos())
}

/// The instant that was reported, or `now`.
pub fn reported_at(t: Option<Timestamp>, now: Timestamp) -> (r: Timestamp)
    ensures
        r == reported_or(t, now),
{
    match t {
        Some(t) => t,
        None => now,
    }
}

/// A whole second of the years -262143 to 262142 is kept as it is; where no date can be given for
/// one, the current instant stands in.
pub proof fn dated_seconds_are_kept(secs: i64, now: Timestamp)
    ensures
        -8_334_601_228_800 <= secs <= 8_210_266_876_799 ==> instant_or(secs, now) == (Timestamp { secs, nanos: 0 })
            && instant(secs) == Some(Timestamp { secs, nanos: 0 }),
        !(-8_334_601_228_800 <= secs <= 8_210_266_876_799) ==> instant_or(secs, now) == now && instant(secs) is None,
        reported_or(None, now) == now,
        reported_or(instant(secs), now) == instant_or(secs, now),
{
}

} // verus!
