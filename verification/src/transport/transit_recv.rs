//! The transit window that is granted to the peer.

use vstd::prelude::*;

use crate::stream::inbound::{larger, smaller};
use crate::time::{capped, saturated, span, TimeSpan, Timestamp};

verus! {

/// Payload that arrived over a span of time.
#[derive(Clone, Copy, Debug, PartialEq, Eq, Structural)]
pub struct RateSample {
    /// Bytes of payload.
    pub bytes: u64,
    /// How long they took.
    pub elapsed: TimeSpan,
}

/// The transit window we grant the peer: how much `DATA` payload it may have in
/// flight towards us, and the credit owed back to it.
///
/// Credit is freed as soon as payload is received and stored, independently of
/// when the application reads it.
#[derive(Clone, Copy, Debug, PartialEq, Eq, Structural)]
pub struct TransitRecv {
    /// Current window size.
    pub current: u32,
    /// Bytes freed since the last update.
    pub freed: u32,
    /// Autotune growth limit.
    pub max: u32,
    /// Credit the peer is to have left when it is given more. [`None`] means half
    /// the window.
    pub reserve: Option<u32>,
    /// Start of the current rate-measurement bucket.
    pub rate_bucket_start: Timestamp,
    /// Payload bytes received in the current rate-measurement bucket.
    pub rate_bucket_bytes: u64,
    /// Time of the last produced window update.
    pub last_update: Timestamp,
}

/// `x` held to what a `u32` can represent.
pub open spec fn saturated32(x: int) -> u32 {
    if x > u32::MAX {
        u32::MAX
    } else {
        x as u32
    }
}

/// The shortest span over which an arrival rate is measured: two round trips,
/// and no less than 10ms. Rates over shorter spans are burst artifacts.
pub open spec fn bucket_len(rtt: Option<TimeSpan>) -> int {
    let rtt = match rtt {
        Some(rtt) => rtt.nanos as int,
        None => 5_000_000,
    };
    larger(capped(2 * rtt) as int, 10_000_000)
}

impl TransitRecv {
    /// The window is within its limit.
    pub open spec fn valid(self) -> bool {
        self.current <= self.max
    }

    /// The rate sample that `len` more bytes at `now` complete, if the bucket
    /// has run for long enough.
    pub open spec fn sample(self, len: int, rtt: Option<TimeSpan>, now: Timestamp) -> Option<
        RateSample,
    > {
        let elapsed = span(self.rate_bucket_start, now);
        if elapsed.nanos >= bucket_len(rtt) {
            Some(
                RateSample {
                    bytes: saturated(self.rate_bucket_bytes + saturated32(len)),
                    elapsed,
                },
            )
        } else {
            None
        }
    }

    /// The window once `len` bytes have been received and stored at `now`.
    pub open spec fn after_freed(self, len: int, rtt: Option<TimeSpan>, now: Timestamp) -> Self {
        let counted = TransitRecv {
            freed: saturated32(self.freed + saturated32(len)),
            ..self
        };
        if self.sample(len, rtt, now) is Some {
            TransitRecv { rate_bucket_bytes: 0, rate_bucket_start: now, ..counted }
        } else {
            TransitRecv {
                rate_bucket_bytes: saturated(self.rate_bucket_bytes + saturated32(len)),
                ..counted
            }
        }
    }

    /// Whether a `SESSION_WINDOW_UPDATE` is due: there is credit to return, and
    /// what has not been freed is no more than the reserve. Without a reserve,
    /// half the window has been freed.
    pub open spec fn update_due(self) -> bool {
        match self.reserve {
            Some(reserve) => self.freed > 0 && self.current - self.freed <= reserve,
            None => self.freed >= self.current / 2,
        }
    }

    /// The size of the window after an update. It grows only on evidence of
    /// window limitation - an update is due within two clean round trips of the last -
    /// by no more than twice, and no further than `ceiling` and the limit.
    pub open spec fn next_size(
        self,
        ceiling: Option<u32>,
        clean_rtt: Option<TimeSpan>,
        now: Timestamp,
    ) -> int {
        let wanted = match (ceiling, clean_rtt) {
            (Some(ceiling), Some(rtt)) => if span(self.last_update, now).nanos < capped(
                2 * rtt.nanos,
            ) {
                larger(
                    smaller(saturated32(2 * self.current) as int, ceiling as int),
                    self.current as int,
                )
            } else {
                self.current as int
            },
            _ => self.current as int,
        };
        smaller(wanted, self.max as int)
    }

    /// The credit that an update returns to the peer.
    pub open spec fn grant(
        self,
        ceiling: Option<u32>,
        clean_rtt: Option<TimeSpan>,
        now: Timestamp,
    ) -> Option<u32> {
        let update = saturated32(
            self.freed + self.next_size(ceiling, clean_rtt, now) - self.current,
        );
        if self.update_due() && update > 0 {
            Some(update)
        } else {
            None
        }
    }

    /// The window once it has been asked for an update at `now`.
    pub open spec fn after_grant(
        self,
        ceiling: Option<u32>,
        clean_rtt: Option<TimeSpan>,
        now: Timestamp,
    ) -> Self {
        if self.update_due() {
            TransitRecv {
                current: self.next_size(ceiling, clean_rtt, now) as u32,
                freed: 0,
                last_update: now,
                ..self
            }
        } else {
            self
        }
    }

    /// A window of the given size, which may grow up to `max`.
    pub fn new(initial: u32, max: u32, now: Timestamp) -> (r: Self)
        ensures
            r == (TransitRecv {
                current: initial,
                freed: 0,
                max: if max < initial {
                    initial
                } else {
                    max
                },
                reserve: None,
                rate_bucket_start: now,
                rate_bucket_bytes: 0,
                last_update: now,
            }),
            r.valid(),
    {
        TransitRecv {
            current: initial,
            freed: 0,
            max: if max < initial {
                initial
            } else {
                max
            },
            reserve: None,
            rate_bucket_start: now,
            rate_bucket_bytes: 0,
            last_update: now,
        }
    }

    /// Whether a `SESSION_WINDOW_UPDATE` is due.
    pub fn can_update(&self) -> (r: bool)
        ensures
            r == self.update_due(),
    {
        match self.reserve {
            Some(reserve) => self.freed > 0 && self.current.saturating_sub(self.freed) <= reserve,
            None => self.freed >= self.current / 2,
        }
    }

    /// Notes `len` bytes of `DATA` payload received and stored. Returns the
    /// arrival rate sample that they complete, which the transit window
    /// autotunes against.
    pub fn note_freed(&mut self, len: usize, rtt: Option<TimeSpan>, now: Timestamp) -> (r: Option<
        RateSample,
    >)
        requires
            old(self).valid(),
        ensures
            final(self).valid(),
            r == old(self).sample(len as int, rtt, now),
            *final(self) == old(self).after_freed(len as int, rtt, now),
    {
        let len: u32 = if len > crate::safe_cast_usize(u32::MAX) {
            u32::MAX
        } else {
            len as u32
        };
        self.freed = self.freed.saturating_add(len);
        let bytes: u64 = self.rate_bucket_bytes.saturating_add(len as u64);
        let rtt = match rtt {
            Some(rtt) => rtt,
            None => TimeSpan { nanos: 5_000_000 },
        };
        let doubled: u128 = rtt.times(2).nanos;
        let bucket: u128 = if doubled < 10_000_000 {
            10_000_000
        } else {
            doubled
        };
        let elapsed = now.since(self.rate_bucket_start);
        if elapsed.nanos >= bucket {
            self.rate_bucket_bytes = 0;
            self.rate_bucket_start = now;
            Some(RateSample { bytes, elapsed })
        } else {
            self.rate_bucket_bytes = bytes;
            None
        }
    }

    /// Produces the next `SESSION_WINDOW_UPDATE` value, if one is due.
    ///
    /// `ceiling` is twice the measured arrival rate times the clean round trip,
    /// which stops growth at about twice the loop's bandwidth-delay product;
    /// [`None`] where no rate has been measured yet.
    pub fn take_grant(
        &mut self,
        ceiling: Option<u32>,
        clean_rtt: Option<TimeSpan>,
        now: Timestamp,
    ) -> (r: Option<u32>)
        requires
            old(self).valid(),
        ensures
            final(self).valid(),
            r == old(self).grant(ceiling, clean_rtt, now),
            *final(self) == old(self).after_grant(ceiling, clean_rtt, now),
    {
        if !self.can_update() {
            return None;
        }
        // Growth needs evidence of window limitation, judged against the clean
        // round trip - a yardstick our own queue cannot inflate.
        let wanted: u32 = match (ceiling, clean_rtt) {
            (Some(ceiling), Some(rtt)) => {
                let elapsed = now.since(self.last_update);
                if elapsed.nanos < rtt.times(2).nanos {
                    let doubled: u32 = if self.current > u32::MAX / 2 {
                        u32::MAX
                    } else {
                        self.current * 2
                    };
                    let bounded: u32 = if doubled < ceiling {
                        doubled
                    } else {
                        ceiling
                    };
                    if bounded < self.current {
                        self.current
                    } else {
                        bounded
                    }
                } else {
                    self.current
                }
            },
            _ => self.current,
        };
        let clamped: u32 = if wanted < self.max {
            wanted
        } else {
            self.max
        };
        let update: u32 = self.freed.saturating_add(clamped - self.current);
        self.current = clamped;
        self.freed = 0;
        self.last_update = now;
        if update > 0 {
            Some(update)
        } else {
            None
        }
    }
}

} // verus!
