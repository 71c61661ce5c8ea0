//! Durations, and the monotonic clock.

use vstd::prelude::*;

verus! {

/// A span of time, in nanoseconds.
#[derive(Debug, Clone, Copy, PartialEq, Eq, Structural, PartialOrd, Ord)]
pub struct Duration {
    /// The number of nanoseconds.
    pub nanos: u128,
}

/// Nanoseconds in a millisecond.
pub const NANOS_PER_MILLI: u128 = 1_000_000;

/// Nanoseconds in a second.
pub const NANOS_PER_SEC: u128 = 1_000_000_000;

impl Duration {
    /// The span of `secs` seconds.
    pub open spec fn secs(secs: int) -> Duration {
        Duration { nanos: (secs * NANOS_PER_SEC) as u128 }
    }

    /// The span of `millis` milliseconds.
    pub open spec fn millis(millis: int) -> Duration {
        Duration { nanos: (millis * NANOS_PER_MILLI) as u128 }
    }

    /// The span of `secs` seconds.
    pub fn from_secs(secs: u64) -> (r: Duration)
        ensures
            r == Duration::secs(secs as int),
            r.nanos == secs * NANOS_PER_SEC,
    {
        Duration { nanos: secs as u128 * NANOS_PER_SEC }
    }

    /// The span of `millis` milliseconds.
    pub fn from_millis(millis: u64) -> (r: Duration)
        ensures
            r == Duration::millis(millis as int),
            r.nanos == millis * NANOS_PER_MILLI,
    {
        Duration { nanos: millis as u128 * NANOS_PER_MILLI }
    }

    /// The whole milliseconds of the span.
    pub fn as_millis(&self) -> (r: u128)
        ensures
            r == self.nanos as int / NANOS_PER_MILLI as int,
    {
        self.nanos / NANOS_PER_MILLI
    }

    /// Tells whether the span is empty.
    pub fn is_zero(&self) -> (r: bool)
        ensures
            r == (self.nanos == 0),
    {
        self.nanos == 0
    }
}

/// A moment of the monotonic clock.
#[verifier::external_type_specification]
#[verifier::external_body]
pub struct ExInstant(std::time::Instant);

/// `std::time::Instant::now`: the present moment, of which nothing is promised.
#[verifier::external_body]
pub(crate) fn now() -> std::time::Instant {
    std::time::Instant::now()
}

/// `std::time::Instant::elapsed`: the time since `moment`, of which nothing is
/// promised.
#[verifier::external_body]
pub(crate) fn elapsed(moment: &std::time::Instant) -> Duration {
    Duration { nanos: moment.elapsed().as_nanos() }
}

/// Whether `moment` is one that the clock gave as the present.
pub closed spec fn was_present(moment: std::time::Instant) -> bool {
    call_ensures(now, (), moment)
}

/// Whether the clock, when it was read, showed the time `shown` since `moment`.
pub closed spec fn shows(moment: std::time::Instant, shown: Duration) -> bool {
    call_ensures(elapsed, (&moment,), shown)
}

/// Whether `at` is what a reading of the clock gave as the time since `moment`, after an
/// earlier one gave `latest`: what the clock showed, but never less than `latest`.
pub open spec fn is_reading(moment: std::time::Instant, latest: Duration, at: Duration) -> bool {
    exists|shown: Duration| #[trigger]
        shows(moment, shown) && at == (if shown.nanos >= latest.nanos {
            shown
        } else {
            latest
        })
}

/// The present moment.
pub(crate) fn present() -> (r: std::time::Instant)
    ensures
        was_present(r),
{
    now()
}

/// Reads the clock: the time since `moment`, but never less than the reading `latest`
/// before it.
pub(crate) fn read(moment: &std::time::Instant, latest: Duration) -> (r: Duration)
    ensures
        is_reading(*moment, latest, r),
{
    let shown = elapsed(moment);
    proof {
        assert(shows(*moment, shown));
    }
    if shown.nanos >= latest.nanos {
        shown
    } else {
        latest
    }
}

/// Whether the clock showed `age` whole milliseconds since `moment`, as far as an `i64`
/// can count them.
pub open spec fn shows_millis(moment: std::time::Instant, age: i64) -> bool {
    exists|shown: Duration| #[trigger]
        shows(moment, shown) && age == (if shown.nanos as int / NANOS_PER_MILLI as int
            <= i64::MAX {
            shown.nanos as int / NANOS_PER_MILLI as int
        } else {
            i64::MAX as int
        })
}

/// Reads the clock: the whole milliseconds since `moment`.
pub(crate) fn read_millis(moment: &std::time::Instant) -> (r: i64)
    ensures
        r >= 0,
        shows_millis(*moment, r),
{
    let shown = elapsed(moment);
    proof {
        assert(shows(*moment, shown));
    }
    let age: u128 = shown.as_millis();
    if age > i64::MAX as u128 {
        i64::MAX
    } else {
        age as i64
    }
}

/// Readings of the clock never go back, and none is earlier than what the clock showed.
pub proof fn law_readings_never_go_back(
    moment: std::time::Instant,
    latest: Duration,
    at: Duration,
)
    requires
        is_reading(moment, latest, at),
    ensures
        at.nanos >= latest.nanos,
        exists|shown: Duration| #[trigger]
            shows(moment, shown) && at.nanos >= shown.nanos && (shown.nanos >= latest.nanos ==> at
                == shown),
{
}

/// A second has a thousand milliseconds, and a millisecond a million nanoseconds.
pub proof fn law_spans_are_counted_in_nanoseconds(
    n: u64,
    s: Duration,
    ms: Duration,
    of_s: u128,
    of_ms: u128,
    zero: bool,
)
    requires
        call_ensures(Duration::from_secs, (n,), s),
        call_ensures(Duration::from_millis, (n,), ms),
        call_ensures(Duration::as_millis, (&s,), of_s),
        call_ensures(Duration::as_millis, (&ms,), of_ms),
        call_ensures(Duration::is_zero, (&s,), zero),
    ensures
        s.nanos == n * 1_000_000_000,
        ms.nanos == n * 1_000_000,
        of_s == n * 1000,
        of_ms == n,
        zero == (n == 0),
{
}

} // verus!
