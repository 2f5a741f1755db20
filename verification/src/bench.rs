//! The measuring end.
//!
//! It writes filler forever and, once per round, slips a 512 byte marker into the
//! stream and times how long the echo takes to come back. What that measures is
//! head-of-line delay under load, and that is the quantity the window governs.
//!
//! The clock starts at the first *attempt* to write the marker, not at the write
//! that succeeded: time the marker spends waiting for credit is delay the window
//! is responsible for. The ramp is left out of the numbers, since a connection's
//! own start-up is not what a window is being judged on.

use vstd::prelude::*;
use vstd::relations::{sorted_by, total_ordering};
use vstd::seq_lib::lemma_sorted_unique;

use crate::time::{capped, saturated, span, TimeSpan, Timestamp};
use crate::transit::delay::{ascending, insert_sorted};

verus! {

/// Filler the stream is padded with between markers: an ASCII zero.
pub const FILLER: u8 = 48;

/// The marker whose echo is timed: an ASCII one.
pub const MARKER: u8 = 49;

/// How much marker each round sends.
pub const MARKER_LEN: usize = 512;

/// Filler written before the first round.
///
/// The first marker should meet a loaded connection, not an idle one: a marker
/// timed against an empty pipe measures the path, not the window.
pub const WARMUP_BYTES: usize = 65536;

/// Largest single write, and the read buffer size.
pub const CHUNK: usize = 65536;

/// How often the window trajectory is logged, in nanoseconds.
pub const TRACE_INTERVAL: u128 = 500_000_000;

/// How long the peer is waited for before a run is given up, in nanoseconds.
pub const CONNECT_PATIENCE: u128 = 10_000_000_000;

/// How long a refused connection is waited with, in nanoseconds.
pub const CONNECT_PAUSE: u128 = 50_000_000;

/// What to do about a connection that was refused at `now`: how long to wait
/// before the next attempt, or [`None`] to give up.
pub fn connect_retry(now: Timestamp, deadline: Timestamp) -> (r: Option<TimeSpan>)
    ensures
        r == (if now.nanos >= deadline.nanos {
            None
        } else {
            Some(TimeSpan { nanos: CONNECT_PAUSE })
        }),
{
    if now.nanos >= deadline.nanos {
        None
    } else {
        Some(TimeSpan::from_nanos(CONNECT_PAUSE))
    }
}

/// What the run is up to on the write side.
#[derive(Clone, Copy, Debug, PartialEq, Eq, Structural)]
pub enum Phase {
    /// Loading the connection before the first marker.
    Warmup {
        /// Filler still to write.
        remaining: usize,
    },
    /// Writing the marker itself.
    Marker {
        /// Marker bytes still to write.
        remaining: usize,
    },
    /// Padding while the marker's echo is outstanding.
    Filler,
}

/// A marker whose echo has not come back yet.
#[derive(Clone, Copy, Debug, PartialEq, Eq, Structural)]
pub struct Round {
    /// Taken at the *first attempt* to write the marker.
    pub started: Timestamp,
    /// Marker bytes still to come back.
    pub remaining: usize,
}

/// One timed marker round trip.
#[derive(Clone, Copy, Debug, PartialEq, Eq, Structural)]
pub struct Sample {
    /// When it ended, since the run began.
    pub at: TimeSpan,
    /// How long it took.
    pub latency: TimeSpan,
}

/// What is due once the connection has stopped moving.
#[derive(Clone, Copy, Debug, PartialEq, Eq, Structural)]
pub struct Tick {
    /// Whether to log the window trajectory.
    pub trace: bool,
    /// Whether the run is over.
    pub done: bool,
}

/// What a run came to.
#[derive(Debug)]
pub struct Summary {
    /// Payload echoed back since the end of the ramp.
    pub echoed: u64,
    /// Time since the end of the ramp.
    pub steady: TimeSpan,
    /// Round trips since the end of the ramp in nanoseconds, in ascending order.
    pub latencies: Vec<u128>,
}

/// How many bytes of a marker there are.
pub open spec fn markers_in(bytes: Seq<u8>) -> nat
    decreases bytes.len(),
{
    if bytes.len() == 0 {
        0
    } else {
        markers_in(bytes.drop_last()) + if bytes.last() == MARKER {
            1nat
        } else {
            0
        }
    }
}

/// The latencies of the samples that ended no earlier than `from`.
pub open spec fn steady_latencies(
    samples: Seq<Sample>,
    started: Timestamp,
    from: Timestamp,
) -> Seq<u128>
    decreases samples.len(),
{
    if samples.len() == 0 {
        Seq::empty()
    } else {
        let earlier = steady_latencies(samples.drop_last(), started, from);
        let last = samples.last();
        if capped(started.nanos + last.at.nanos) >= from.nanos {
            earlier.push(last.latency.nanos)
        } else {
            earlier
        }
    }
}

/// A [`Bench`] as a mathematical value.
#[verifier::ext_equal]
pub ghost struct BenchView {
    pub phase: Phase,
    pub round: Option<Round>,
    pub started: Timestamp,
    pub deadline: Timestamp,
    pub steady_from: Timestamp,
    pub steady_mark: Option<u64>,
    pub payload_in: u64,
    pub samples: Seq<Sample>,
    pub last_echo: Option<TimeSpan>,
    pub next_trace: Timestamp,
}

impl BenchView {
    /// The run once a round has been opened at `now`.
    pub open spec fn in_round(self, now: Timestamp) -> Self {
        BenchView {
            round: Some(Round { started: now, remaining: MARKER_LEN }),
            phase: Phase::Marker { remaining: MARKER_LEN },
            ..self
        }
    }

    /// What to write next: which byte, and how many of it.
    pub open spec fn wants(self) -> (u8, int) {
        match self.phase {
            Phase::Warmup { remaining } => (
                FILLER,
                if remaining < CHUNK {
                    remaining as int
                } else {
                    CHUNK as int
                },
            ),
            Phase::Marker { remaining } => (MARKER, remaining as int),
            Phase::Filler => (FILLER, CHUNK as int),
        }
    }

    /// The run once `count` bytes have been written at `now`.
    pub open spec fn wrote(self, count: int, now: Timestamp) -> Self {
        match self.phase {
            Phase::Warmup { remaining } => if remaining == count {
                self.in_round(now)
            } else {
                BenchView {
                    phase: Phase::Warmup { remaining: (remaining - count) as usize },
                    ..self
                }
            },
            Phase::Marker { remaining } => BenchView {
                phase: if remaining == count {
                    Phase::Filler
                } else {
                    Phase::Marker { remaining: (remaining - count) as usize }
                },
                ..self
            },
            Phase::Filler => self,
        }
    }

    /// The run once `bytes` have come back at `now`.
    ///
    /// The echo returns exactly what was sent, so counting marker bytes is enough
    /// to find the round's end: rounds never overlap, because the next marker only
    /// goes out once this one is home.
    pub open spec fn read(self, bytes: Seq<u8>, now: Timestamp) -> Self {
        let counted = BenchView {
            payload_in: saturated(self.payload_in + bytes.len()),
            ..self
        };
        match self.round {
            None => counted,
            Some(round) => if markers_in(bytes) < round.remaining {
                BenchView {
                    round: Some(
                        Round {
                            remaining: (round.remaining - markers_in(bytes)) as usize,
                            ..round
                        },
                    ),
                    ..counted
                }
            } else {
                let latency = span(round.started, now);
                (BenchView {
                    last_echo: Some(latency),
                    samples: self.samples.push(Sample { at: span(self.started, now), latency }),
                    ..counted
                }).in_round(now)
            },
        }
    }

    /// The run once its clock has been advanced to `now`.
    pub open spec fn ticked(self, now: Timestamp) -> Self {
        BenchView {
            steady_mark: if self.steady_mark is None && now.nanos >= self.steady_from.nanos {
                Some(self.payload_in)
            } else {
                self.steady_mark
            },
            next_trace: if now.nanos >= self.next_trace.nanos {
                Timestamp { nanos: capped(now.nanos + TRACE_INTERVAL) }
            } else {
                self.next_trace
            },
            ..self
        }
    }
}

/// The measurement: what to write, and what to make of what comes back.
#[derive(Debug)]
pub struct Bench {
    phase: Phase,
    round: Option<Round>,
    started: Timestamp,
    deadline: Timestamp,
    steady_from: Timestamp,
    steady_mark: Option<u64>,
    payload_in: u64,
    samples: Vec<Sample>,
    last_echo: Option<TimeSpan>,
    next_trace: Timestamp,
}

impl View for Bench {
    type V = BenchView;

    closed spec fn view(&self) -> BenchView {
        BenchView {
            phase: self.phase,
            round: self.round,
            started: self.started,
            deadline: self.deadline,
            steady_from: self.steady_from,
            steady_mark: self.steady_mark,
            payload_in: self.payload_in,
            samples: self.samples@,
            last_echo: self.last_echo,
            next_trace: self.next_trace,
        }
    }
}

impl Bench {
    /// There is always something to write, and no more than a chunk of it; the
    /// end of the ramp is not ahead of what was read.
    pub closed spec fn wf(self) -> bool {
        &&& match self.phase {
            Phase::Warmup { remaining } => 0 < remaining <= WARMUP_BYTES,
            Phase::Marker { remaining } => 0 < remaining <= MARKER_LEN,
            Phase::Filler => true,
        }
        &&& self.steady_mark matches Some(mark) ==> mark <= self.payload_in
    }

    /// A run that starts at `now`, ends after `duration`, and counts from the end
    /// of `ramp`.
    pub fn new(duration: TimeSpan, ramp: TimeSpan, now: Timestamp) -> (r: Self)
        ensures
            r.wf(),
            r@ == (BenchView {
                phase: Phase::Warmup { remaining: WARMUP_BYTES },
                round: None,
                started: now,
                deadline: Timestamp { nanos: capped(now.nanos + duration.nanos) },
                steady_from: Timestamp { nanos: capped(now.nanos + ramp.nanos) },
                steady_mark: None,
                payload_in: 0,
                samples: Seq::empty(),
                last_echo: None,
                next_trace: Timestamp { nanos: capped(now.nanos + TRACE_INTERVAL) },
            }),
    {
        Bench {
            phase: Phase::Warmup { remaining: WARMUP_BYTES },
            round: None,
            started: now,
            deadline: now.plus(duration),
            steady_from: now.plus(ramp),
            steady_mark: None,
            payload_in: 0,
            samples: Vec::new(),
            last_echo: None,
            next_trace: now.plus(TimeSpan::from_nanos(TRACE_INTERVAL)),
        }
    }

    /// Opens a round, immediately before the first attempt to write its marker.
    fn begin_round(&mut self, now: Timestamp)
        requires
            old(self).wf(),
        ensures
            final(self).wf(),
            final(self)@ == old(self)@.in_round(now),
    {
        self.round = Some(Round { started: now, remaining: MARKER_LEN });
        self.phase = Phase::Marker { remaining: MARKER_LEN };
    }

    /// What to write next: which byte, and how many of it.
    pub fn next_write(&self) -> (r: (u8, usize))
        requires
            self.wf(),
        ensures
            r.0 == self@.wants().0,
            r.1 == self@.wants().1,
            0 < r.1 <= CHUNK,
    {
        match self.phase {
            Phase::Warmup { remaining } => (
                FILLER,
                if remaining < CHUNK {
                    remaining
                } else {
                    CHUNK
                },
            ),
            Phase::Marker { remaining } => (MARKER, remaining),
            Phase::Filler => (FILLER, CHUNK),
        }
    }

    /// Records that the connection has taken `count` bytes.
    pub fn on_written(&mut self, count: usize, now: Timestamp)
        requires
            old(self).wf(),
            count <= old(self)@.wants().1,
        ensures
            final(self).wf(),
            final(self)@ == old(self)@.wrote(count as int, now),
    {
        match self.phase {
            Phase::Warmup { remaining } => {
                if remaining == count {
                    self.begin_round(now);
                } else {
                    self.phase = Phase::Warmup { remaining: remaining - count };
                }
            },
            Phase::Marker { remaining } => {
                self.phase = if remaining == count {
                    Phase::Filler
                } else {
                    Phase::Marker { remaining: remaining - count }
                };
            },
            Phase::Filler => {},
        }
    }

    /// Takes in bytes that came back.
    pub fn on_read(&mut self, bytes: &[u8], now: Timestamp)
        requires
            old(self).wf(),
        ensures
            final(self).wf(),
            final(self)@ == old(self)@.read(bytes@, now),
    {
        let markers: usize = count_markers(bytes);
        self.payload_in = self.payload_in.saturating_add(bytes.len() as u64);
        let round = match self.round {
            Some(round) => round,
            None => return,
        };
        if markers < round.remaining {
            self.round = Some(
                Round { started: round.started, remaining: round.remaining - markers },
            );
            return;
        }
        let latency = now.since(round.started);
        self.last_echo = Some(latency);
        self.samples.push(Sample { at: now.since(self.started), latency });
        self.begin_round(now);
    }

    /// Most recent echo, which a trace reports as the loaded round trip.
    pub fn last_echo(&self) -> (r: Option<TimeSpan>)
        ensures
            r == self@.last_echo,
    {
        self.last_echo
    }

    /// How long the run has been going on.
    pub fn elapsed(&self, now: Timestamp) -> (r: TimeSpan)
        ensures
            r == span(self@.started, now),
    {
        now.since(self.started)
    }

    /// Advances the clock: notes the end of the ramp, and says what is due.
    pub fn tick(&mut self, now: Timestamp) -> (r: Tick)
        requires
            old(self).wf(),
        ensures
            final(self).wf(),
            final(self)@ == old(self)@.ticked(now),
            r == (Tick {
                trace: now.nanos >= old(self)@.next_trace.nanos,
                done: now.nanos >= old(self)@.deadline.nanos,
            }),
    {
        if self.steady_mark.is_none() && now.nanos >= self.steady_from.nanos {
            self.steady_mark = Some(self.payload_in);
        }
        let trace = now.nanos >= self.next_trace.nanos;
        if trace {
            self.next_trace = now.plus(TimeSpan::from_nanos(TRACE_INTERVAL));
        }
        Tick { trace, done: now.nanos >= self.deadline.nanos }
    }

    /// When the clock has to be advanced next: the connection may go quiet.
    pub fn next_wake(&self) -> (r: Timestamp)
        ensures
            r == (if self@.deadline.nanos < self@.next_trace.nanos {
                self@.deadline
            } else {
                self@.next_trace
            }),
    {
        if self.deadline.nanos < self.next_trace.nanos {
            self.deadline
        } else {
            self.next_trace
        }
    }

    /// What the run has come to at `now`.
    pub fn report(&self, now: Timestamp) -> (r: Summary)
        requires
            self.wf(),
        ensures
            r.echoed == self@.payload_in - (match self@.steady_mark {
                Some(mark) => mark as int,
                None => 0,
            }),
            r.steady == span(self@.steady_from, now),
            r.latencies@ == steady_latencies(
                self@.samples,
                self@.started,
                self@.steady_from,
            ).sort_by(ascending()),
    {
        let mark: u64 = match self.steady_mark {
            Some(mark) => mark,
            None => 0,
        };
        let ghost samples = self.samples@;
        let mut latencies: Vec<u128> = Vec::new();
        let mut i: usize = 0;
        assert(latencies@ =~= Seq::<u128>::empty());
        assert(samples.take(0) =~= Seq::empty());
        while i < self.samples.len()
            invariant
                i <= samples.len(),
                samples == self.samples@,
                sorted_by(latencies@, ascending()),
                latencies@.to_multiset() == steady_latencies(
                    samples.take(i as int),
                    self.started,
                    self.steady_from,
                ).to_multiset(),
            decreases samples.len() - i,
        {
            let sample = self.samples[i];
            let ghost upto = samples.take(i + 1);
            assert(upto.drop_last() =~= samples.take(i as int));
            assert(upto.last() == sample);
            if self.started.plus(sample.at).nanos >= self.steady_from.nanos {
                insert_sorted(&mut latencies, sample.latency.nanos);
                proof {
                    steady_latencies(
                        samples.take(i as int),
                        self.started,
                        self.steady_from,
                    ).to_multiset_ensures();
                }
            }
            i = i + 1;
        }
        proof {
            assert(samples.take(i as int) =~= samples);
            let all = steady_latencies(samples, self.started, self.steady_from);
            assert(total_ordering(ascending()));
            all.lemma_sort_by_ensures(ascending());
            lemma_sorted_unique(latencies@, all.sort_by(ascending()), ascending());
        }
        Summary { echoed: self.payload_in - mark, steady: now.since(self.steady_from), latencies }
    }
}

/// Counts the bytes of a marker.
fn count_markers(bytes: &[u8]) -> (r: usize)
    ensures
        r == markers_in(bytes@),
{
    let mut count: usize = 0;
    let mut i: usize = 0;
    assert(bytes@.take(0) =~= Seq::empty());
    while i < bytes.len()
        invariant
            i <= bytes@.len(),
            count <= i,
            count == markers_in(bytes@.take(i as int)),
        decreases bytes@.len() - i,
    {
        let ghost upto = bytes@.take(i + 1);
        assert(upto.drop_last() =~= bytes@.take(i as int));
        assert(upto.last() == bytes@[i as int]);
        if bytes[i] == MARKER {
            count = count + 1;
        }
        i = i + 1;
    }
    assert(bytes@.take(i as int) =~= bytes@);
    count
}

/// Markers in two parts add up.
proof fn markers_add_up(a: Seq<u8>, b: Seq<u8>)
    ensures
        markers_in(a + b) == markers_in(a) + markers_in(b),
    decreases b.len(),
{
    if b.len() == 0 {
        assert(a + b =~= a);
    } else {
        assert((a + b).drop_last() =~= a + b.drop_last());
        markers_add_up(a, b.drop_last());
    }
}

/// It makes no difference how the echo is split across reads at one instant, as
/// long as the round does not end before the last of them.
pub proof fn echoes_may_be_split(v: BenchView, first: Seq<u8>, second: Seq<u8>, now: Timestamp)
    requires
        v.round matches Some(round) && markers_in(first) < round.remaining,
        v.payload_in + first.len() + second.len() <= u64::MAX,
    ensures
        v.read(first, now).read(second, now) == v.read(first + second, now),
{
    markers_add_up(first, second);
}

} // verus!
