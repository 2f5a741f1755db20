//! What a measurement counts, and what it makes of it.

use vstd::prelude::*;

use crate::bench::{
    connect_retry, markers_in, steady_latencies, Bench, BenchView, Phase, Round, Sample, Summary,
    Tick,
};
use crate::time::{TimeSpan, Timestamp};
use crate::transit::delay::ascending;

verus! {

/// How many ones, the bytes of a marker, there are.
pub open spec fn ones(bytes: Seq<u8>) -> nat {
    bytes.to_multiset().count(49)
}

/// Counting markers is counting ones.
proof fn markers_are_ones(bytes: Seq<u8>)
    ensures
        markers_in(bytes) == ones(bytes),
    decreases bytes.len(),
{
    bytes.to_multiset_ensures();
    if bytes.len() > 0 {
        markers_are_ones(bytes.drop_last());
        bytes.drop_last().to_multiset_ensures();
        assert(bytes =~= bytes.drop_last().push(bytes.last()));
    }
}

/// A run starts by loading the connection with 64kB, has counted nothing, and ends
/// its ramp and itself as long after its start as it was asked to.
pub proof fn runs_start_from_nothing(duration: TimeSpan, ramp: TimeSpan, now: Timestamp, r: Bench)
    requires
        call_ensures(Bench::new, (duration, ramp, now), r),
        now.nanos + duration.nanos <= u128::MAX,
        now.nanos + ramp.nanos <= u128::MAX,
        now.nanos + 500_000_000 <= u128::MAX,
    ensures
        r@.phase == (Phase::Warmup { remaining: 65_536 }),
        r@.round is None,
        r@.payload_in == 0,
        r@.samples.len() == 0,
        r@.steady_mark is None,
        r@.last_echo is None,
        r@.started == now,
        r@.deadline.nanos == now.nanos + duration.nanos,
        r@.steady_from.nanos == now.nanos + ramp.nanos,
        r@.next_trace.nanos == now.nanos + 500_000_000,
{
}

/// Every byte that comes back counts, whatever it is and whatever the run is up to.
pub proof fn every_echoed_byte_counts(bench: &mut Bench, bytes: &[u8], now: Timestamp)
    requires
        bench.wf(),
        call_ensures(Bench::on_read, (bench, bytes, now), ()),
        bench@.payload_in + bytes@.len() <= u64::MAX,
    ensures
        final(bench)@.payload_in == old(bench)@.payload_in + bytes@.len(),
        final(bench)@.steady_mark == old(bench)@.steady_mark,
        final(bench)@.started == old(bench)@.started,
        final(bench)@.steady_from == old(bench)@.steady_from,
        final(bench)@.deadline == old(bench)@.deadline,
        final(bench)@.next_trace == old(bench)@.next_trace,
{
}

/// Two reads count as much as one read of all that they took.
pub proof fn split_echoes_count_the_same(
    first: &mut Bench,
    second: &mut Bench,
    whole: &mut Bench,
    a: &[u8],
    b: &[u8],
    ab: &[u8],
    now: Timestamp,
    then: Timestamp,
    later: Timestamp,
)
    requires
        first.wf(),
        *whole == *first,
        *second == *final(first),
        ab@ == a@ + b@,
        call_ensures(Bench::on_read, (first, a, now), ()),
        call_ensures(Bench::on_read, (second, b, then), ()),
        call_ensures(Bench::on_read, (whole, ab, later), ()),
    ensures
        final(second)@.payload_in == final(whole)@.payload_in,
{
}

/// The round is over once as many ones came back as its marker had. It is timed
/// from the first attempt to write the marker to the read that brought its last
/// byte, and the next round starts there, with a marker of 512 bytes. Until then
/// the round waits for as many less as came back.
pub proof fn rounds_end_with_their_marker(bench: &mut Bench, bytes: &[u8], now: Timestamp)
    requires
        bench.wf(),
        call_ensures(Bench::on_read, (bench, bytes, now), ()),
        bench@.started.nanos <= now.nanos,
        bench@.round matches Some(round) ==> round.started.nanos <= now.nanos,
    ensures
        ({
            let before = old(bench)@;
            let after = final(bench)@;
            match before.round {
                None => {
                    &&& after.round is None
                    &&& after.samples == before.samples
                    &&& after.phase == before.phase
                    &&& after.last_echo == before.last_echo
                },
                Some(round) => if ones(bytes@) >= round.remaining {
                    let latency = TimeSpan { nanos: (now.nanos - round.started.nanos) as u128 };
                    let at = TimeSpan { nanos: (now.nanos - before.started.nanos) as u128 };
                    &&& after.samples == before.samples.push(Sample { at, latency })
                    &&& after.last_echo == Some(latency)
                    &&& after.round == Some(Round { started: now, remaining: 512 })
                    &&& after.phase == (Phase::Marker { remaining: 512 })
                } else {
                    &&& after.samples == before.samples
                    &&& after.last_echo == before.last_echo
                    &&& after.phase == before.phase
                    &&& after.round matches Some(still) && still.started == round.started
                        && still.remaining == round.remaining - ones(bytes@)
                },
            }
        }),
{
    markers_are_ones(bytes@);
}

/// Zeros are written before the first marker and between markers, a marker is
/// written as ones; never more at once than 64kB, nor more than is left.
pub proof fn markers_are_written_as_ones(bench: &Bench, r: (u8, usize))
    requires
        bench.wf(),
        call_ensures(Bench::next_write, (bench,), r),
    ensures
        r.0 == 49 <==> bench@.phase is Marker,
        r.0 == 48 <==> !(bench@.phase is Marker),
        0 < r.1 <= 65_536,
        bench@.phase matches Phase::Marker { remaining } ==> r.1 == remaining,
        bench@.phase matches Phase::Warmup { remaining } ==> r.1 <= remaining && (r.1 == remaining
            || r.1 == 65_536),
        bench@.phase is Filler ==> r.1 == 65_536,
{
}

/// What is written brings the warmup or the marker closer to its end by as much.
/// The first round starts with the end of the warmup, and filler follows the end
/// of a marker. Nothing that is written counts as echoed.
pub proof fn writes_bring_the_phase_to_its_end(bench: &mut Bench, count: usize, now: Timestamp)
    requires
        bench.wf(),
        count <= bench@.wants().1,
        call_ensures(Bench::on_written, (bench, count, now), ()),
    ensures
        ({
            let before = old(bench)@;
            let after = final(bench)@;
            &&& after.payload_in == before.payload_in
            &&& after.samples == before.samples
            &&& after.steady_mark == before.steady_mark
            &&& after.last_echo == before.last_echo
            &&& match before.phase {
                Phase::Warmup { remaining } => if count < remaining {
                    &&& after.phase matches Phase::Warmup { remaining: left } && left == remaining
                        - count
                    &&& after.round == before.round
                } else {
                    &&& after.phase == (Phase::Marker { remaining: 512 })
                    &&& after.round == Some(Round { started: now, remaining: 512 })
                },
                Phase::Marker { remaining } => {
                    &&& count < remaining ==> (after.phase matches Phase::Marker {
                        remaining: left,
                    } && left == remaining - count)
                    &&& count == remaining ==> after.phase is Filler
                    &&& after.round == before.round
                },
                Phase::Filler => after.phase is Filler && after.round == before.round,
            }
        }),
{
}

/// The clock marks the end of the ramp once, at the first tick that does not come
/// before it, with what has come back by then. A trace is due twice a second; the
/// run is over at its deadline.
pub proof fn ticks_mark_the_end_of_the_ramp(bench: &mut Bench, now: Timestamp, r: Tick)
    requires
        bench.wf(),
        call_ensures(Bench::tick, (bench, now), r),
        now.nanos + 500_000_000 <= u128::MAX,
    ensures
        ({
            let before = old(bench)@;
            let after = final(bench)@;
            &&& r.done <==> before.deadline.nanos <= now.nanos
            &&& r.trace <==> before.next_trace.nanos <= now.nanos
            &&& r.trace ==> after.next_trace.nanos == now.nanos + 500_000_000
            &&& !r.trace ==> after.next_trace == before.next_trace
            &&& before.steady_mark is Some ==> after.steady_mark == before.steady_mark
            &&& before.steady_mark is None && before.steady_from.nanos <= now.nanos
                ==> after.steady_mark == Some(before.payload_in)
            &&& before.steady_mark is None && now.nanos < before.steady_from.nanos
                ==> after.steady_mark is None
            &&& after.payload_in == before.payload_in
            &&& after.samples == before.samples
            &&& after.round == before.round
            &&& after.phase == before.phase
            &&& after.deadline == before.deadline
        }),
{
}

/// Nothing is due before the clock has to be advanced next, and something is then.
pub proof fn ticks_are_due_at_the_wake(
    bench: &Bench,
    wake: Timestamp,
    ticked: &mut Bench,
    now: Timestamp,
    r: Tick,
)
    requires
        bench.wf(),
        *ticked == *bench,
        call_ensures(Bench::next_wake, (bench,), wake),
        call_ensures(Bench::tick, (ticked, now), r),
    ensures
        now.nanos >= wake.nanos <==> r.trace || r.done,
{
}

/// The last echo and the age of a run are reported as they are.
pub proof fn traces_report_the_run(
    bench: &Bench,
    now: Timestamp,
    echo: Option<TimeSpan>,
    age: TimeSpan,
)
    requires
        call_ensures(Bench::last_echo, (bench,), echo),
        call_ensures(Bench::elapsed, (bench, now), age),
        bench@.started.nanos <= now.nanos,
    ensures
        echo == bench@.last_echo,
        age.nanos == now.nanos - bench@.started.nanos,
{
}

/// Something that happens to a run.
pub ghost enum Happening {
    /// The connection took some bytes.
    Written(int, Timestamp),
    /// Some bytes came back.
    Read(Seq<u8>, Timestamp),
    /// The clock was advanced.
    Ticked(Timestamp),
}

/// A run after all of `happenings`.
pub open spec fn ran(v: BenchView, happenings: Seq<Happening>) -> BenchView
    decreases happenings.len(),
{
    if happenings.len() == 0 {
        v
    } else {
        let earlier = ran(v, happenings.drop_last());
        match happenings.last() {
            Happening::Written(count, now) => earlier.wrote(count, now),
            Happening::Read(bytes, now) => earlier.read(bytes, now),
            Happening::Ticked(now) => earlier.ticked(now),
        }
    }
}

/// How many bytes came back in `happenings`.
pub open spec fn came_back(happenings: Seq<Happening>) -> nat
    decreases happenings.len(),
{
    if happenings.len() == 0 {
        0
    } else {
        came_back(happenings.drop_last()) + match happenings.last() {
            Happening::Read(bytes, _) => bytes.len(),
            _ => 0,
        }
    }
}

/// What has come back is counted, and the end of the ramp stays where it is.
proof fn runs_add_up(v: BenchView, happenings: Seq<Happening>)
    requires
        v.steady_mark is Some,
        v.payload_in + came_back(happenings) <= u64::MAX,
    ensures
        ran(v, happenings).payload_in == v.payload_in + came_back(happenings),
        ran(v, happenings).steady_mark == v.steady_mark,
    decreases happenings.len(),
{
    if happenings.len() > 0 {
        runs_add_up(v, happenings.drop_last());
    }
}

/// What a run reports as echoed is all that came back between the end of its ramp
/// and its report, whatever else happened in between.
pub proof fn reports_count_all_that_came_back(
    bench: &mut Bench,
    now: Timestamp,
    tick: Tick,
    happenings: Seq<Happening>,
    last: &Bench,
    then: Timestamp,
    r: Summary,
)
    requires
        bench.wf(),
        bench@.steady_mark is None,
        bench@.steady_from.nanos <= now.nanos,
        call_ensures(Bench::tick, (bench, now), tick),
        last@ == ran(final(bench)@, happenings),
        call_ensures(Bench::report, (last, then), r),
        bench@.payload_in + came_back(happenings) <= u64::MAX,
    ensures
        r.echoed == came_back(happenings),
{
    runs_add_up(final(bench)@, happenings);
}

/// One more read before the report is reported in full.
pub proof fn reads_are_reported(
    base: &Bench,
    bench: &mut Bench,
    bytes: &[u8],
    now: Timestamp,
    then: Timestamp,
    before: Summary,
    after: Summary,
)
    requires
        base.wf(),
        *bench == *base,
        call_ensures(Bench::report, (base, then), before),
        call_ensures(Bench::on_read, (bench, bytes, now), ()),
        call_ensures(Bench::report, (&*final(bench), then), after),
        base@.payload_in + bytes@.len() <= u64::MAX,
    ensures
        after.echoed == before.echoed + bytes@.len(),
        after.steady == before.steady,
{
}

/// Whether a sample ended no earlier than the ramp.
pub open spec fn is_steady(started: Timestamp, from: Timestamp) -> spec_fn(Sample) -> bool {
    |sample: Sample| started.nanos + sample.at.nanos >= from.nanos
}

/// The latency of a sample, in nanoseconds.
pub open spec fn latency_of() -> spec_fn(Sample) -> u128 {
    |sample: Sample| sample.latency.nanos
}

/// The steady latencies are those of the steady samples.
proof fn steady_latencies_are_filtered(samples: Seq<Sample>, started: Timestamp, from: Timestamp)
    ensures
        steady_latencies(samples, started, from) == samples.filter(
            is_steady(started, from),
        ).map_values(latency_of()),
    decreases samples.len(),
{
    reveal(Seq::filter);
    let steady = is_steady(started, from);
    if samples.len() > 0 {
        steady_latencies_are_filtered(samples.drop_last(), started, from);
        let earlier = samples.drop_last().filter(steady);
        assert(earlier.push(samples.last()).map_values(latency_of()) =~= earlier.map_values(
            latency_of(),
        ).push(samples.last().latency.nanos));
    } else {
        assert(samples.filter(steady).map_values(latency_of()) =~= Seq::empty());
    }
}

/// A report holds the latency of each round trip that ended after the ramp, and of
/// no other, from the shortest to the longest. The steady time is what has passed
/// since the end of the ramp.
pub proof fn reports_hold_the_steady_round_trips(bench: &Bench, now: Timestamp, r: Summary)
    requires
        bench.wf(),
        call_ensures(Bench::report, (bench, now), r),
        bench@.steady_from.nanos <= now.nanos,
    ensures
        r.steady.nanos == now.nanos - bench@.steady_from.nanos,
        forall|i: int, j: int|
            0 <= i <= j < r.latencies@.len() ==> r.latencies@[i] <= r.latencies@[j],
        r.latencies@.to_multiset() == bench@.samples.filter(
            is_steady(bench@.started, bench@.steady_from),
        ).map_values(latency_of()).to_multiset(),
        r.latencies@.len() == bench@.samples.filter(
            is_steady(bench@.started, bench@.steady_from),
        ).len(),
{
    steady_latencies_are_filtered(bench@.samples, bench@.started, bench@.steady_from);
    let all = steady_latencies(bench@.samples, bench@.started, bench@.steady_from);
    all.lemma_sort_by_ensures(ascending());
    all.to_multiset_ensures();
    r.latencies@.to_multiset_ensures();
    assert forall|i: int, j: int| 0 <= i <= j < r.latencies@.len() implies r.latencies@[i]
        <= r.latencies@[j] by {
        if i < j {
            assert(ascending()(r.latencies@[i], r.latencies@[j]));
        }
    }
}

/// A refused connection is tried again after 50ms until the deadline is reached.
pub proof fn refused_connections_are_tried_again(
    now: Timestamp,
    deadline: Timestamp,
    r: Option<TimeSpan>,
)
    requires
        call_ensures(connect_retry, (now, deadline), r),
    ensures
        r is Some <==> now.nanos < deadline.nanos,
        r matches Some(pause) ==> pause.nanos == 50_000_000,
{
}

} // verus!
