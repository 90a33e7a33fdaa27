use vstd::prelude::*;

verus! {

/// An instant in UTC: whole seconds since the Unix epoch and the nanoseconds
/// past that second.
#[derive(Clone, Copy, Debug, PartialEq, Eq, Structural)]
pub struct Timestamp {
    pub secs: i64,
    pub nanos: u32,
}

/// The first second of chrono's calendar, -262143-01-01T00:00:00 UTC, in
/// seconds since the epoch.
pub const CALENDAR_FIRST_SECOND: i64 = -8_334_601_228_800;

/// The last whole second of chrono's calendar, +262142-12-31T23:59:59 UTC
/// (`NaiveDate::MAX` is December 31 of the year 262142), in seconds since
/// the epoch.
pub const CALENDAR_LAST_SECOND: i64 = 8_210_266_876_799;

/// `t` is an instant as the clock gives it: not before the epoch, not after
/// the calendar's last second, with a fraction below one second. The
/// definition is closed and this module exports only the bounds it implies
/// (`lemma_clock_reading_bounds`), never the fact itself: outside this module
/// it is known only of the instants `now_utc` returns. So a function that
/// ensures it of an instant it gives back must have got that instant from
/// the clock, not made it up.
pub closed spec fn read_by_clock(t: Timestamp) -> bool {
    &&& 0 <= t.secs <= CALENDAR_LAST_SECOND
    &&& t.nanos < 1_000_000_000
}

/// An instant read from the clock lies between the epoch and the calendar's
/// last second, with a fraction below one second.
pub proof fn lemma_clock_reading_bounds(t: Timestamp)
    requires
        read_by_clock(t),
    ensures
        0 <= t.secs <= CALENDAR_LAST_SECOND,
        t.nanos < 1_000_000_000,
{
}

/// Reads the system clock through `chrono::Utc::now`. Which instant it
/// gives is whatever the clock says. Claimed: the instant is not before the
/// epoch, not after the calendar's last second, and its fraction is below
/// one second. chrono takes the time since the epoch as whole seconds and
/// sub-second nanoseconds, and does not return when the clock reads before
/// 1970 or when `DateTime::from_timestamp` finds no calendar date for the
/// reading (it unwraps that result).
#[verifier::external_body]
pub(crate) fn now_utc() -> (t: Timestamp)
    ensures
        0 <= t.secs <= CALENDAR_LAST_SECOND,
        t.nanos < 1_000_000_000,
        read_by_clock(t),
{
    let t = chrono::Utc::now();
    Timestamp { secs: t.timestamp(), nanos: t.timestamp_subsec_nanos() }
}

/// `DateTime::<Utc>::checked_add_signed` of `chrono::Duration::minutes(minutes)`
/// on the instant `t` (made with `DateTime::from_timestamp`), giving the
/// seconds of the result. Claimed: when the sum exists it lies exactly
/// `60 * minutes` seconds after `t` (chrono adds whole seconds and keeps the
/// fraction, a leap second counting as the second before it). For an
/// ordinary instant (fraction below one second) the sum exists exactly when
/// `t` and the sum lie within the calendar, from `CALENDAR_FIRST_SECOND` to
/// `CALENDAR_LAST_SECOND`: `from_timestamp` and the date arithmetic refuse a
/// year outside -262143..=262142 and nothing else. For a leap-second
/// fraction, when the sum exists is not stated.
#[verifier::external_body]
pub(crate) fn seconds_after_minutes(t: Timestamp, minutes: i64) -> (r: Option<i64>)
    requires
        0 <= minutes <= 1_000_000,
    ensures
        r matches Some(s) ==> s == t.secs + 60 * minutes,
        t.nanos < 1_000_000_000 ==> (r is Some <==> (CALENDAR_FIRST_SECOND <= t.secs && t.secs
            + 60 * minutes <= CALENDAR_LAST_SECOND)),
{
    match chrono::DateTime::from_timestamp(t.secs, t.nanos) {
        Some(d) => d.checked_add_signed(chrono::Duration::minutes(minutes)).map(|x| x.timestamp()),
        None => None,
    }
}

} // verus!
