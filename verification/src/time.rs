//! Points in time and spans of time, as plain nanosecond counts.

use vstd::prelude::*;

verus! {

/// A span of time.
#[derive(Clone, Copy, Debug, PartialEq, Eq, Structural)]
pub struct TimeSpan {
    /// Length of the span in nanoseconds.
    pub nanos: u128,
}

/// A point in time, as read off one [`Clock`].
#[derive(Clone, Copy, Debug, PartialEq, Eq, Structural)]
pub struct Timestamp {
    /// Nanoseconds since the clock was started.
    pub nanos: u128,
}

/// `x` held to what a `u64` can represent.
pub open spec fn saturated(x: int) -> u64 {
    if x < 0 {
        0
    } else if x > u64::MAX {
        u64::MAX
    } else {
        x as u64
    }
}

/// `x` held to what a count of nanoseconds can represent.
pub open spec fn capped(x: int) -> u128 {
    if x < 0 {
        0
    } else if x > u128::MAX {
        u128::MAX
    } else {
        x as u128
    }
}

/// The span from `earlier` to `later`, zero where they are out of order.
pub open spec fn span(earlier: Timestamp, later: Timestamp) -> TimeSpan {
    TimeSpan { nanos: capped(later.nanos - earlier.nanos) }
}

impl TimeSpan {
    /// The empty span.
    pub fn zero() -> (r: Self)
        ensures
            r.nanos == 0,
    {
        TimeSpan { nanos: 0 }
    }

    /// A span of `nanos` nanoseconds.
    pub fn from_nanos(nanos: u128) -> (r: Self)
        ensures
            r.nanos == nanos,
    {
        TimeSpan { nanos }
    }

    /// A span of `micros` microseconds, held to the longest representable one.
    pub fn from_micros(micros: u128) -> (r: Self)
        ensures
            r.nanos == capped(micros * 1_000),
    {
        match micros.checked_mul(1_000) {
            Some(nanos) => TimeSpan { nanos },
            None => TimeSpan { nanos: u128::MAX },
        }
    }

    /// A span of `millis` milliseconds.
    pub fn from_millis(millis: u64) -> (r: Self)
        ensures
            r.nanos == millis * 1_000_000,
    {
        TimeSpan { nanos: millis as u128 * 1_000_000 }
    }

    /// Whole microseconds in the span.
    pub fn as_micros(self) -> (r: u128)
        ensures
            r == self.nanos / 1_000,
    {
        self.nanos / 1_000
    }

    /// The two spans end to end, held to the longest representable one.
    pub fn plus(self, other: Self) -> (r: Self)
        ensures
            r.nanos == capped(self.nanos + other.nanos),
    {
        TimeSpan { nanos: self.nanos.saturating_add(other.nanos) }
    }

    /// The span `n` times over, held to the longest representable one.
    pub fn times(self, n: u64) -> (r: Self)
        ensures
            r.nanos == capped(self.nanos * n),
    {
        match self.nanos.checked_mul(n as u128) {
            Some(nanos) => TimeSpan { nanos },
            None => TimeSpan { nanos: u128::MAX },
        }
    }
}

impl Timestamp {
    /// The span from `earlier` to this instant, zero if `earlier` is later.
    pub fn since(self, earlier: Timestamp) -> (r: TimeSpan)
        ensures
            r == span(earlier, self),
    {
        TimeSpan { nanos: self.nanos.saturating_sub(earlier.nanos) }
    }

    /// The instant `after` past this one, held to the last representable one.
    pub fn plus(self, after: TimeSpan) -> (r: Timestamp)
        ensures
            r.nanos == capped(self.nanos + after.nanos),
    {
        Timestamp { nanos: self.nanos.saturating_add(after.nanos) }
    }
}

/// Tokio's instant, carried as an opaque value.
#[verifier::external_type_specification]
#[verifier::external_body]
pub struct ExTokioInstant(tokio::time::Instant);

/// Where an instant stands on the runtime's clock, in nanoseconds from a point
/// that all its instants share.
pub uninterp spec fn moment(at: tokio::time::Instant) -> int;

/// `tokio::time::Instant::now` reads the runtime's clock: nothing is known of
/// what it shows.
pub assume_specification[ tokio::time::Instant::now ]() -> (r: tokio::time::Instant);

/// `tokio::time::Instant::duration_since` gives the time from one instant to
/// another, zero if they are out of order, here as a count of nanoseconds.
#[verifier::external_body]
fn nanos_since(later: &tokio::time::Instant, earlier: &tokio::time::Instant) -> (r: u128)
    ensures
        r == if moment(*later) < moment(*earlier) {
            0
        } else {
            moment(*later) - moment(*earlier)
        },
{
    later.duration_since(*earlier).as_nanos()
}

/// Where the instants of a connection are counted from.
pub struct Clock {
    origin: tokio::time::Instant,
}

impl Clock {
    /// The instant that the clock counts from.
    pub closed spec fn origin(self) -> tokio::time::Instant {
        self.origin
    }

    /// What the clock shows at an instant: the nanoseconds since its origin.
    pub open spec fn shows(self, at: tokio::time::Instant) -> Timestamp {
        Timestamp { nanos: capped(moment(at) - moment(self.origin())) }
    }

    /// A clock that counts from the given instant.
    pub fn counting_from(origin: tokio::time::Instant) -> (r: Self)
        ensures
            r.origin() == origin,
    {
        Clock { origin }
    }

    /// Starts a clock: its instants count from now. Nothing is known of when
    /// that is.
    pub fn start() -> Self {
        Clock::counting_from(tokio::time::Instant::now())
    }

    /// What the clock shows at the given instant.
    pub fn reading(&self, at: &tokio::time::Instant) -> (r: Timestamp)
        ensures
            r == self.shows(*at),
    {
        Timestamp { nanos: nanos_since(at, &self.origin) }
    }

    /// Reads the clock: what it shows at the instant of the call, of which
    /// nothing is known.
    pub fn now(&self) -> (r: Timestamp)
        ensures
            exists|at: tokio::time::Instant| r == #[trigger] self.shows(at),
    {
        let at = tokio::time::Instant::now();
        self.reading(&at)
    }
}

/// A clock shows time as it passes: zero at its origin and before, never less
/// later than earlier, and between two of its readings exactly the time that
/// passed, as long as the count lasts.
pub proof fn clocks_show_the_time_that_passes(
    clock: Clock,
    earlier: tokio::time::Instant,
    later: tokio::time::Instant,
)
    requires
        moment(earlier) <= moment(later),
    ensures
        moment(earlier) <= moment(clock.origin()) ==> clock.shows(earlier).nanos == 0,
        clock.shows(earlier).nanos <= clock.shows(later).nanos,
        moment(clock.origin()) <= moment(earlier) && moment(later) - moment(clock.origin())
            <= u128::MAX ==> span(clock.shows(earlier), clock.shows(later)).nanos == moment(later)
            - moment(earlier),
{
}

} // verus!
