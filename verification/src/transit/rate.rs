//! What a smoothed throughput estimate is fed with.
//!
//! An estimate wants the rate the *path* carries. The rate over the last
//! arrival is not that, so arrivals are gathered into buckets, and a bucket is
//! only closed once it is long enough to divide by.

use vstd::prelude::*;

use crate::time::{capped, saturated, span, TimeSpan, Timestamp};

verus! {

/// How much round trip the estimate remembers.
///
/// Counted in round trips rather than seconds because the loop being sized is a
/// round-trip loop.
pub const TAU_RTTS: u64 = 4;

/// Floor on that memory in nanoseconds, for paths whose round trip smooths
/// nothing.
pub const TAU_FLOOR: u128 = 20_000_000;

/// The shortest interval worth dividing by, in nanoseconds.
pub const BUCKET: u128 = 1_000_000;

/// The time constant to smooth over, for a path with this round trip.
pub open spec fn time_constant(rtt: Option<TimeSpan>) -> TimeSpan {
    match rtt {
        Some(rtt) if rtt.nanos * TAU_RTTS > TAU_FLOOR => TimeSpan {
            nanos: capped(rtt.nanos * TAU_RTTS),
        },
        _ => TimeSpan { nanos: TAU_FLOOR },
    }
}

/// The time constant to smooth over, for a path with this round trip.
pub fn tau(rtt: Option<TimeSpan>) -> (r: TimeSpan)
    ensures
        r == time_constant(rtt),
{
    match rtt {
        Some(rtt) => {
            let scaled = rtt.times(TAU_RTTS);
            if scaled.nanos > TAU_FLOOR {
                scaled
            } else {
                TimeSpan { nanos: TAU_FLOOR }
            }
        },
        None => TimeSpan { nanos: TAU_FLOOR },
    }
}

/// One closed bucket of arrivals.
#[derive(Clone, Copy, Debug, PartialEq, Eq, Structural)]
pub struct RateSample {
    /// Bytes that arrived.
    pub bytes: u64,
    /// How long they took.
    pub elapsed: TimeSpan,
    /// The time constant to weigh the sample by.
    pub tau: TimeSpan,
}

/// The open bucket of arrivals.
#[derive(Clone, Copy, Debug, PartialEq, Eq, Structural)]
pub struct RateEstimate {
    /// Bytes seen since the open bucket started.
    pub pending: u64,
    /// When it started.
    pub since: Timestamp,
}

impl RateEstimate {
    /// Whether an arrival at `now` closes the bucket.
    pub open spec fn closes(self, now: Timestamp) -> bool {
        span(self.since, now).nanos >= BUCKET
    }

    /// The bucket after `bytes` more arrived at `now`.
    pub open spec fn observed(self, bytes: int, now: Timestamp) -> Self {
        if self.closes(now) {
            RateEstimate { pending: 0, since: now }
        } else {
            RateEstimate { pending: saturated(self.pending + bytes), since: self.since }
        }
    }

    /// The sample that `bytes` more at `now` complete, if they close the bucket.
    pub open spec fn sample(self, bytes: int, tau: TimeSpan, now: Timestamp) -> Option<RateSample> {
        if self.closes(now) {
            Some(
                RateSample {
                    bytes: saturated(self.pending + bytes),
                    elapsed: span(self.since, now),
                    tau,
                },
            )
        } else {
            None
        }
    }

    /// An empty bucket opened at `now`.
    pub fn new(now: Timestamp) -> (r: Self)
        ensures
            r == (RateEstimate { pending: 0, since: now }),
    {
        RateEstimate { pending: 0, since: now }
    }

    /// Folds `bytes` in, and closes the bucket if it has run long enough.
    pub fn observe(&mut self, bytes: u64, tau: TimeSpan, now: Timestamp) -> (r: Option<RateSample>)
        ensures
            *final(self) == old(self).observed(bytes as int, now),
            r == old(self).sample(bytes as int, tau, now),
    {
        self.pending = self.pending.saturating_add(bytes);
        let elapsed = now.since(self.since);
        if elapsed.nanos < BUCKET {
            return None;
        }
        let sample = RateSample { bytes: self.pending, elapsed, tau };
        self.pending = 0;
        self.since = now;
        Some(sample)
    }
}

} // verus!
