//! The clocks that the actors read, and spans of time as plain numbers.

use std::time::Instant;
use std::time::SystemTime;
use vstd::prelude::*;

verus! {

/// `std::time::Instant`, carried through as it is.
#[verifier::external_type_specification]
#[verifier::external_body]
pub struct ExInstant(Instant);

/// `std::time::SystemTime`, carried through as it is.
#[verifier::external_type_specification]
#[verifier::external_body]
pub struct ExSystemTime(SystemTime);

/// `Instant::now`: a reading of the monotonic clock. Nothing is claimed of it.
pub assume_specification[ Instant::now ]() -> (now: Instant);

/// `SystemTime::now`: a reading of the system clock. Nothing is claimed of it.
pub assume_specification[ SystemTime::now ]() -> (now: SystemTime);

/// `Instant::elapsed`, in nanoseconds: how long ago `earlier` was read. The result is a matter
/// of the clock, so nothing is claimed of it.
#[verifier::external_body]
fn nanos_since_instant(earlier: &Instant) -> (nanos: u128) {
    earlier.elapsed().as_nanos()
}

/// `SystemTime::elapsed`, in nanoseconds: how long ago `earlier` was read, or `None` where the
/// system clock now stands before it. The result is a matter of the clock, so nothing is claimed
/// of it.
#[verifier::external_body]
fn nanos_since_system_time(earlier: &SystemTime) -> (nanos: Option<u128>) {
    earlier.elapsed().ok().map(|span| span.as_nanos())
}

/// `chrono::Local::now`, as its Unix timestamp: the seconds since 1970. Trusted: it is not
/// negative (a clock that stands before 1970 makes `chrono` panic).
#[verifier::external_body]
fn unix_seconds() -> (seconds: i64)
    ensures
        seconds >= 0,
{
    chrono::Local::now().timestamp()
}

/// Whether a reading of the monotonic clock may give this many nanoseconds since an earlier one:
/// what `Instant::elapsed` may return for it.
pub closed spec fn instant_reading(earlier: Instant, nanos: u128) -> bool {
    call_ensures(nanos_since_instant, (&earlier,), nanos)
}

/// Reads the monotonic clock: how many nanoseconds ago `earlier` was.
pub(crate) fn read_since_instant(earlier: &Instant) -> (nanos: u128)
    ensures
        instant_reading(*earlier, nanos),
{
    let clock = nanos_since_instant;
    clock(earlier)
}

/// Whether a reading of the system clock may give this many nanoseconds since an earlier one, or
/// `None` where it stands before it: what `SystemTime::elapsed` may return for it.
pub closed spec fn system_time_reading(earlier: SystemTime, nanos: Option<u128>) -> bool {
    call_ensures(nanos_since_system_time, (&earlier,), nanos)
}

/// Reads the system clock: how many nanoseconds ago `earlier` was, or `None` where the clock now
/// stands before it.
pub(crate) fn read_since_system_time(earlier: &SystemTime) -> (nanos: Option<u128>)
    ensures
        system_time_reading(*earlier, nanos),
{
    let clock = nanos_since_system_time;
    clock(earlier)
}

/// Whether a reading of the monotonic clock may give this instant: what `Instant::now` may return.
pub closed spec fn instant_now(now: Instant) -> bool {
    call_ensures(Instant::now, (), now)
}

/// Reads the monotonic clock.
pub(crate) fn read_instant() -> (now: Instant)
    ensures
        instant_now(now),
{
    let clock = Instant::now;
    clock()
}

/// Whether a reading of the system clock may give this time: what `SystemTime::now` may return.
pub closed spec fn system_now(now: SystemTime) -> bool {
    call_ensures(SystemTime::now, (), now)
}

/// Reads the system clock.
pub(crate) fn read_system_time() -> (now: SystemTime)
    ensures
        system_now(now),
{
    let clock = SystemTime::now;
    clock()
}

/// Whether a reading of the system clock may give this Unix timestamp: what the timestamp of
/// `chrono::Local::now` may be.
pub closed spec fn unix_reading(seconds: i64) -> bool {
    call_ensures(unix_seconds, (), seconds)
}

/// Reads the system clock, as a Unix timestamp.
pub(crate) fn read_unix_seconds() -> (seconds: i64)
    ensures
        unix_reading(seconds),
        seconds >= 0,
{
    let clock = unix_seconds;
    clock()
}

/// The number of nanoseconds in a second.
pub const NANOS_PER_SEC: u128 = 1_000_000_000;

/// The number of nanoseconds in a millisecond.
pub const NANOS_PER_MILLI: u128 = 1_000_000;

/// A span of time, in nanoseconds.
#[derive(Clone, Copy, Debug, PartialEq, Eq, Structural)]
pub struct Span {
    pub nanos: u128,
}

impl Span {
    /// A span of whole seconds.
    pub fn from_secs(secs: u64) -> (span: Span)
        ensures
            span.nanos == secs * NANOS_PER_SEC,
    {
        Span { nanos: secs as u128 * NANOS_PER_SEC }
    }

    /// A span of whole milliseconds.
    pub fn from_millis(millis: u64) -> (span: Span)
        ensures
            span.nanos == millis * NANOS_PER_MILLI,
    {
        Span { nanos: millis as u128 * NANOS_PER_MILLI }
    }
}

/// A second is a thousand milliseconds, and a millisecond a million nanoseconds.
pub proof fn law_units_of_time(secs: u64, by_secs: Span, millis: u64, by_millis: Span)
    requires
        call_ensures(Span::from_secs, (secs,), by_secs),
        call_ensures(Span::from_millis, (millis,), by_millis),
    ensures
        by_millis.nanos == millis * 1_000_000,
        by_secs.nanos == secs * 1_000_000_000,
        millis == 1000 * secs ==> by_millis == by_secs,
{
}

/// What counts as a reading of a clock is what the clock returned.
pub proof fn law_readings_come_from_the_clocks(instant: Instant, time: SystemTime, seconds: i64)
    ensures
        instant_now(instant) ==> call_ensures(Instant::now, (), instant),
        system_now(time) ==> call_ensures(SystemTime::now, (), time),
        unix_reading(seconds) ==> seconds >= 0,
{
}

/// What counts as a reading of a clock, in seconds or as the time since an earlier one, is what the
/// clock returned, for that earlier one.
proof fn law_spans_come_from_the_clocks(
    seconds: i64,
    earlier_instant: Instant,
    nanos: u128,
    earlier_time: SystemTime,
    elapsed: Option<u128>,
)
    ensures
        unix_reading(seconds) ==> call_ensures(unix_seconds, (), seconds),
        instant_reading(earlier_instant, nanos) ==> call_ensures(
            nanos_since_instant,
            (&earlier_instant,),
            nanos,
        ),
        system_time_reading(earlier_time, elapsed) ==> call_ensures(
            nanos_since_system_time,
            (&earlier_time,),
            elapsed,
        ),
{
}

} // verus!
