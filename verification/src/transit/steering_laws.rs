//! What the calls that steer a window come to: what is measured, what is read off
//! it, and what the window then does.

use vstd::prelude::*;
use vstd::relations::{sorted_by, total_ordering};
use vstd::seq_lib::lemma_sorted_unique;

use super::connection::{data_wire, Parse, Step, Transit, TransitView};
use super::delay::{
    ascending, base_is_the_smallest, least, median, median_of, old_bases_are_forgotten, Base, Delay,
};
use super::frame::{frames_round_trip, Frame, TransitError, HEADER_LEN, MAX_PAYLOAD, TIMESTAMP_LEN};
use super::rate::{tau, RateEstimate, RateSample};
use super::window::{Steering, Window, WindowView};
use crate::stream_id::{be32, be32_bytes};
use crate::time::{span, TimeSpan, Timestamp};

verus! {

/// Arrivals are weighed over four round trips, and over 20ms where that is less
/// or no round trip is known.
pub proof fn rates_remember_four_round_trips(rtt: Option<TimeSpan>, r: TimeSpan)
    requires
        call_ensures(tau, (rtt,), r),
        rtt matches Some(rtt) ==> 4 * rtt.nanos <= u128::MAX,
    ensures
        r.nanos >= 20_000_000,
        match rtt {
            Some(rtt) => r.nanos >= 4 * rtt.nanos && (r.nanos == 4 * rtt.nanos || r.nanos
                == 20_000_000),
            None => r.nanos == 20_000_000,
        },
{
}

/// The arrival rate is measured over all that arrives: bytes are kept until a
/// sample carries them off, together with the time since the last sample. There
/// is a sample once a millisecond has passed, and not before.
pub proof fn rate_samples_carry_every_byte(
    rate: &mut RateEstimate,
    bytes: u64,
    weight: TimeSpan,
    now: Timestamp,
    r: Option<RateSample>,
)
    requires
        call_ensures(RateEstimate::observe, (rate, bytes, weight, now), r),
        rate.pending + bytes <= u64::MAX,
        rate.since.nanos <= now.nanos,
    ensures
        ({
            let elapsed = now.nanos - old(rate).since.nanos;
            match r {
                Some(sample) => {
                    &&& elapsed >= 1_000_000
                    &&& sample.bytes == old(rate).pending + bytes
                    &&& sample.elapsed.nanos == elapsed
                    &&& sample.tau == weight
                    &&& final(rate).pending == 0
                    &&& final(rate).since == now
                },
                None => {
                    &&& elapsed < 1_000_000
                    &&& final(rate).pending == old(rate).pending + bytes
                    &&& final(rate).since == old(rate).since
                },
            }
        }),
{
}

/// A rate starts with nothing that has arrived.
pub proof fn rates_start_from_nothing(now: Timestamp, r: RateEstimate)
    requires
        call_ensures(RateEstimate::new, (now,), r),
    ensures
        r.pending == 0,
        r.since == now,
{
}

/// The median of a list is what stands in the middle of any rearrangement of it
/// in ascending order.
pub proof fn medians_stand_in_the_middle(list: &Vec<u128>, sorted: Seq<u128>, r: u128)
    requires
        call_ensures(median_of, (list,), r),
        list@.len() > 0,
        sorted.to_multiset() == list@.to_multiset(),
        forall|i: int, j: int| 0 <= i <= j < sorted.len() ==> sorted[i] <= sorted[j],
    ensures
        r == sorted[list@.len() as int / 2],
{
    middle_of(list@, sorted);
}

/// The same of the mathematical median.
proof fn middle_of(list: Seq<u128>, sorted: Seq<u128>)
    requires
        list.len() > 0,
        sorted.to_multiset() == list.to_multiset(),
        forall|i: int, j: int| 0 <= i <= j < sorted.len() ==> sorted[i] <= sorted[j],
    ensures
        median(list) == sorted[list.len() as int / 2],
{
    let le = ascending();
    assert(total_ordering(le));
    assert(sorted_by(sorted, le));
    list.lemma_sort_by_ensures(le);
    lemma_sorted_unique(sorted, list.sort_by(le), le);
}

/// The median of one value is that value.
proof fn median_of_one(x: u128)
    ensures
        median(seq![x]) == x,
{
    middle_of(seq![x], seq![x]);
}

/// Within an interval the smallest delay counts: after any delay, the interval
/// stands at no more than that delay and no more than before, and at one of the
/// two.
pub proof fn intervals_keep_the_smallest_delay(delay: &mut Delay, owd: i64, now: Timestamp)
    requires
        delay.wf(),
        call_ensures(Delay::observe, (delay, owd, now), ()),
    ensures
        ({
            let after = final(delay)@.interval;
            &&& after is Some
            &&& after.unwrap() <= owd
            &&& match old(delay)@.interval {
                None => after == Some(owd),
                Some(before) => after.unwrap() <= before && (after == Some(owd) || after == Some(
                    before,
                )),
            }
            &&& final(delay)@.history == old(delay)@.history
            &&& final(delay)@.filter == old(delay)@.filter
        }),
{
}

/// A delay becomes the base as soon as it is the smallest: the base is never above
/// a delay that has just been seen.
pub proof fn delays_are_never_below_the_base(
    base: &mut Base,
    owd: i64,
    now: Timestamp,
    r: Option<i64>,
)
    requires
        base.wf(),
        owd < i64::MAX,
        call_ensures(Base::observe, (base, owd, now), ()),
        call_ensures(Base::get, (&*final(base),), r),
    ensures
        r matches Some(least) && least <= owd,
{
    let ages = final(base)@.ages;
    base_is_the_smallest(ages);
    assert(ages[0] is Some);
    assert(least(ages).unwrap() <= ages[0].unwrap());
}

/// A base is remembered for a minute, give or take the second that is open: with
/// less than 59 seconds between two delays, the base after the second is no
/// larger than the first.
pub proof fn bases_last_for_a_minute(
    first: &mut Base,
    second: &mut Base,
    a: i64,
    b: i64,
    t0: Timestamp,
    t1: Timestamp,
    r: Option<i64>,
)
    requires
        first.wf(),
        a < i64::MAX,
        b < i64::MAX,
        first@.opened.nanos <= t0.nanos <= t1.nanos < t0.nanos + 59_000_000_000,
        call_ensures(Base::observe, (first, a, t0), ()),
        *second == *final(first),
        call_ensures(Base::observe, (second, b, t1), ()),
        call_ensures(Base::get, (&*final(second),), r),
    ensures
        r matches Some(least) && least <= a && least <= b,
{
    let mid = second@;
    let ages = final(second)@.ages;
    base_is_the_smallest(ages);
    assert(mid.ages[0] is Some && mid.ages[0].unwrap() <= a);
    assert(mid.opened.nanos <= t0.nanos) by {
        let span = (t0.nanos - first@.opened.nanos) as int;
        assert(span / 1_000_000_000 * 1_000_000_000 <= span);
    }
    assert(t0.nanos - mid.opened.nanos < 1_000_000_000) by {
        let span = (t0.nanos - first@.opened.nanos) as int;
        assert(span - span / 1_000_000_000 * 1_000_000_000 < 1_000_000_000);
    }
    let steps = (t1.nanos - mid.opened.nanos) as int / 1_000_000_000;
    assert(0 <= steps < 60);
    assert(ages[steps] is Some && ages[steps].unwrap() <= a);
    assert(ages[0] is Some && ages[0].unwrap() <= b);
}

/// The queue of an interval is what its smallest delay has over the base. With a
/// filter of one it is read as it is: where all that is in memory was `q` shorter
/// than the interval, the reading is `q` microseconds, and the interval is over.
pub proof fn readings_are_delays_above_the_base(
    delay: &mut Delay,
    base: i64,
    q: int,
    r: Option<TimeSpan>,
)
    requires
        delay.wf(),
        call_ensures(Delay::sample, (delay,), r),
        delay@.filter == 1,
        delay@.interval matches Some(interval) && interval == base + q,
        q >= 0,
        delay@.base.ages.contains(Some(base)),
        forall|i: int|
            0 <= i < delay@.base.ages.len() && delay@.base.ages[i] is Some ==> base <= (
            #[trigger] delay@.base.ages[i]).unwrap(),
    ensures
        r == Some(TimeSpan { nanos: (q * 1_000) as u128 }),
        final(delay)@.interval is None,
{
    let d = delay@;
    base_is_the_smallest(d.base.ages);
    let at = d.base.ages.index_of(Some(base));
    assert(d.base.ages[at] == Some(base));
    assert(least(d.base.ages) == Some(base));
    assert(d.recent() =~= seq![q as u128]);
    median_of_one(q as u128);
}

/// With a wider filter a reading is the median of the latest queues, this
/// interval's among them: a queue that has stood for as many intervals as the
/// filter takes is read as it is.
pub proof fn standing_queues_are_read(delay: &mut Delay, base: i64, q: int, r: Option<TimeSpan>)
    requires
        delay.wf(),
        call_ensures(Delay::sample, (delay,), r),
        delay@.filter >= 1,
        delay@.interval matches Some(interval) && interval == base + q,
        q >= 0,
        delay@.base.ages.contains(Some(base)),
        forall|i: int|
            0 <= i < delay@.base.ages.len() && delay@.base.ages[i] is Some ==> base <= (
            #[trigger] delay@.base.ages[i]).unwrap(),
        forall|i: int|
            0 <= i < delay@.history.len() && i < delay@.filter - 1 ==> delay@.history[i] == q,
    ensures
        r == Some(TimeSpan { nanos: (q * 1_000) as u128 }),
        final(delay)@.history.len() <= old(delay)@.filter,
        final(delay)@.history.len() > 0 && final(delay)@.history[0] == q,
{
    let d = delay@;
    base_is_the_smallest(d.base.ages);
    let at = d.base.ages.index_of(Some(base));
    assert(d.base.ages[at] == Some(base));
    let recent = d.recent();
    assert(forall|i: int| 0 <= i < recent.len() ==> recent[i] == q);
    middle_of(recent, recent);
}

/// A reading is the median of as many queues as the filter takes, this interval's
/// the newest of them, whatever they are; and they are what is remembered.
pub proof fn readings_are_medians(
    delay: &mut Delay,
    base: i64,
    latest: Seq<u128>,
    sorted: Seq<u128>,
    r: Option<TimeSpan>,
)
    requires
        delay.wf(),
        call_ensures(Delay::sample, (delay,), r),
        delay@.filter >= 1,
        delay@.interval is Some,
        delay@.base.ages.contains(Some(base)),
        forall|i: int|
            0 <= i < delay@.base.ages.len() && delay@.base.ages[i] is Some ==> base <= (
            #[trigger] delay@.base.ages[i]).unwrap(),
        latest.len() == if delay@.history.len() + 1 <= delay@.filter {
            delay@.history.len() as int + 1
        } else {
            delay@.filter
        },
        latest[0] == if delay@.interval.unwrap() < base {
            0
        } else {
            delay@.interval.unwrap() - base
        },
        forall|i: int| 1 <= i < latest.len() ==> latest[i] == delay@.history[i - 1],
        sorted.to_multiset() == latest.to_multiset(),
        forall|i: int, j: int| 0 <= i <= j < sorted.len() ==> sorted[i] <= sorted[j],
        sorted[latest.len() as int / 2] * 1_000 <= u128::MAX,
    ensures
        r matches Some(reading) && reading.nanos == sorted[latest.len() as int / 2] * 1_000,
        final(delay)@.history == latest,
        final(delay)@.interval is None,
        final(delay)@.base == old(delay)@.base,
{
    let d = delay@;
    base_is_the_smallest(d.base.ages);
    let at = d.base.ages.index_of(Some(base));
    assert(d.base.ages[at] == Some(base));
    assert(least(d.base.ages) == Some(base));
    assert(d.recent() =~= latest);
    middle_of(latest, sorted);
}

/// A base is forgotten after a minute: a delay that comes 60 seconds after the
/// newest second began is the only one in memory.
pub proof fn bases_are_forgotten_after_a_minute(
    base: &mut Base,
    owd: i64,
    now: Timestamp,
    r: Option<i64>,
)
    requires
        base.wf(),
        owd < i64::MAX,
        base@.opened.nanos + 60_000_000_000 <= now.nanos,
        call_ensures(Base::observe, (base, owd, now), ()),
        call_ensures(Base::get, (&*final(base),), r),
    ensures
        r == Some(owd),
{
    old_bases_are_forgotten(base@, owd, now);
}

/// A signal starts with nothing to read, and a filter of nothing is one of one.
pub proof fn signals_start_empty(
    filter: usize,
    now: Timestamp,
    delay: Delay,
    base: Base,
    r: Option<i64>,
    other: &mut Delay,
)
    requires
        call_ensures(Delay::new, (filter, now), delay),
        call_ensures(Base::new, (now,), base),
        call_ensures(Base::get, (&base,), r),
        other.wf(),
        call_ensures(Delay::discard_interval, (other,), ()),
    ensures
        delay@.interval is None,
        delay@.history.len() == 0,
        delay@.filter == if filter == 0 {
            1
        } else {
            filter as int
        },
        delay@.base == base@,
        r is None,
        base@.opened == now,
        final(other)@.interval is None,
        final(other)@.history == old(other)@.history,
        final(other)@.base == old(other)@.base,
{
    base_is_the_smallest(base@.ages);
    if least(base@.ages) is Some {
        let at = base@.ages.index_of(least(base@.ages));
        assert(base@.ages[at] is None);
    }
}

/// Nothing is read where nothing was measured, and nothing is lost by it.
pub proof fn empty_intervals_are_not_read(delay: &mut Delay, r: Option<TimeSpan>)
    requires
        delay.wf(),
        call_ensures(Delay::sample, (delay,), r),
        delay@.interval is None || forall|i: int|
            0 <= i < delay@.base.ages.len() ==> delay@.base.ages[i] is None,
    ensures
        r is None,
        final(delay)@ == old(delay)@,
{
    base_is_the_smallest(delay@.base.ages);
}

/// The control law runs once per round trip, or every 50ms before one is known,
/// and only where there is a delay to act on. It tells whether the peer ran out of
/// credit since it last ran, once.
pub proof fn windows_are_steered_once_per_round_trip(
    window: &mut Window,
    rtt: Option<TimeSpan>,
    now: Timestamp,
    r: Option<Steering>,
)
    requires
        window.wf(),
        call_ensures(Window::steer, (window, rtt, now), r),
        window@.controlled_at.nanos <= now.nanos,
    ensures
        ({
            let elapsed = now.nanos - old(window)@.controlled_at.nanos;
            let ripe = match rtt {
                Some(rtt) => elapsed >= rtt.nanos,
                None => elapsed >= 50_000_000,
            };
            &&& match r {
                Some(steering) => {
                    &&& ripe
                    &&& old(window)@.delay.interval is Some
                    &&& steering.starved == old(window)@.peer_starved
                    &&& steering.desired == old(window)@.desired
                    &&& steering.interval.nanos == match rtt {
                        Some(rtt) => rtt.nanos,
                        None => 50_000_000,
                    }
                    &&& final(window)@.queued == Some(steering.queued)
                    &&& !final(window)@.peer_starved
                    &&& final(window)@.controlled_at == now
                    &&& final(window)@.delay.interval is None
                },
                None => {
                    &&& !ripe || old(window)@.delay.interval is None || (forall|i: int|
                        0 <= i < old(window)@.delay.base.ages.len()
                            ==> old(window)@.delay.base.ages[i] is None)
                    &&& final(window)@ == old(window)@
                },
            }
            &&& final(window)@.granted == old(window)@.granted
            &&& final(window)@.freed == old(window)@.freed
            &&& final(window)@.desired == old(window)@.desired
        }),
{
    base_is_the_smallest(window@.delay.base.ages);
}

/// What the control law acts on is what closing the interval gives.
pub proof fn windows_act_on_the_reading(
    window: &mut Window,
    rtt: Option<TimeSpan>,
    now: Timestamp,
    r: Option<Steering>,
    delay: &mut Delay,
    reading: Option<TimeSpan>,
    other: &mut Window,
    owd: i64,
    folded: &mut Delay,
    third: &mut Window,
)
    requires
        window.wf(),
        delay.wf(),
        delay@ == window@.delay,
        call_ensures(Window::steer, (window, rtt, now), r),
        call_ensures(Delay::sample, (delay,), reading),
        other.wf(),
        folded.wf(),
        folded@ == other@.delay,
        call_ensures(Window::on_delay, (other, owd, now), ()),
        call_ensures(Delay::observe, (folded, owd, now), ()),
        third.wf(),
        call_ensures(Window::note_peer_starved, (third,), ()),
    ensures
        r matches Some(steering) ==> reading == Some(steering.queued) && final(window)@.delay
            == final(delay)@,
        final(other)@ == (WindowView { delay: final(folded)@, ..old(other)@ }),
        final(third)@ == (WindowView { peer_starved: true, ..old(third)@ }),
{
}

/// What the formula asks for is what the window is steered towards, as far as it
/// is within the limits of 16kB and the maximum: always downwards, and upwards for
/// a peer that ran out of credit.
pub proof fn windows_follow_the_formula(window: &mut Window, scaled: u32, starved: bool)
    requires
        window.wf(),
        call_ensures(Window::resize_towards, (window, scaled, starved), ()),
        window@.desired <= window@.sizing.max,
    ensures
        ({
            let before = old(window)@.desired;
            let after = final(window)@.desired;
            let max = old(window)@.sizing.max;
            &&& 16_384 <= scaled <= max && (starved || scaled <= before) ==> after == scaled
            &&& scaled < 16_384 <= max ==> after == 16_384
            &&& scaled > max && starved ==> after == max
            &&& !starved && scaled >= before && before >= 16_384 ==> after == before
            &&& !starved && scaled >= before && before < 16_384 <= max ==> after == 16_384
            &&& max < 16_384 ==> after == max
            &&& after <= max
            &&& final(window)@.granted == old(window)@.granted
        }),
{
}

/// A re-grant is due once as much was freed as pacing asks for: 4kB at least, but
/// never more than the flat bound, which is what was configured and half of the
/// window at most. Where there is no pace, the flat bound decides.
pub proof fn re_grants_are_paced(
    window: &Window,
    rtt: Option<TimeSpan>,
    paced: Option<u32>,
    r: u32,
)
    requires
        call_ensures(Window::re_grant_threshold, (window, rtt, paced), r),
    ensures
        ({
            let half = window@.granted as int / 2;
            let most = window@.sizing.re_grant as int;
            let least_of_both = if half <= most {
                half
            } else {
                most
            };
            let flat = if least_of_both >= 1 {
                least_of_both
            } else {
                1
            };
            &&& rtt is None || paced is None || window@.sizing.re_grants_per_rtt == 0 ==> r == flat
            &&& rtt is Some && window@.sizing.re_grants_per_rtt > 0 ==> (paced matches Some(paced)
                ==> {
                &&& paced >= flat ==> r == flat
                &&& paced < flat && 4_096 <= paced ==> r == paced
                &&& paced < flat && paced < 4_096 <= flat ==> r == 4_096
                &&& paced < flat && flat < 4_096 ==> r == flat
            })
        }),
{
}

/// A re-grant moves the window to the size it is steered towards: up at once, and
/// down by no more than what was freed. The credit that it carries is what was
/// freed and the change in size. Below the threshold, or while as much as a window
/// waits for the application, nothing is granted.
pub proof fn re_grants_move_the_window(
    window: &mut Window,
    undelivered: usize,
    rtt: Option<TimeSpan>,
    paced: Option<u32>,
    threshold: u32,
    r: Option<u32>,
)
    requires
        window.wf(),
        call_ensures(Window::take_grant, (window, undelivered, rtt, paced), r),
        call_ensures(Window::re_grant_threshold, (&*window, rtt, paced), threshold),
    ensures
        ({
            let w = old(window)@;
            let after = final(window)@;
            let due = w.freed >= threshold && undelivered < w.granted;
            let least_size = if w.sizing.max >= 16_384 {
                16_384int
            } else {
                w.sizing.max as int
            };
            let target = if w.desired < least_size {
                least_size
            } else if w.desired > w.sizing.max {
                w.sizing.max as int
            } else {
                w.desired as int
            };
            let update = w.freed + after.granted - w.granted;
            &&& !due ==> r is None && after == w
            &&& due ==> {
                &&& target >= w.granted - w.freed ==> after.granted == target
                &&& target < w.granted - w.freed ==> after.granted == w.granted - w.freed
                &&& after.freed == 0
                &&& after.received_total == w.received_total
                &&& after.desired == w.desired
                &&& w.freed + after.granted <= u32::MAX ==> {
                    &&& update == 0 ==> r is None
                    &&& update > 0 ==> r == Some(update as u32)
                    &&& w.granted_total + update <= u64::MAX ==> after.granted_total
                        == w.granted_total + update
                }
                &&& w.freed + after.granted > u32::MAX && w.granted < u32::MAX ==> r == Some(
                    (u32::MAX - w.granted) as u32,
                )
            }
        }),
{
}

/// Payload is counted byte by byte, as received and as freed.
pub proof fn payload_frees_what_it_weighs(
    window: &mut Window,
    len: u32,
    rtt: Option<TimeSpan>,
    now: Timestamp,
)
    requires
        window.wf(),
        call_ensures(Window::on_payload, (window, len, rtt, now), ()),
    ensures
        old(window)@.received_total + len <= u64::MAX ==> final(window)@.received_total
            == old(window)@.received_total + len,
        old(window)@.freed + len <= u32::MAX ==> final(window)@.freed == old(window)@.freed + len,
        old(window)@.freed + len > u32::MAX ==> final(window)@.freed == u32::MAX,
        final(window)@.granted == old(window)@.granted,
        final(window)@.granted_total == old(window)@.granted_total,
        final(window)@.delay == old(window)@.delay,
{
}

/// What arrives is measured as well, and the samples wait in order to be taken,
/// once.
pub proof fn arrivals_are_measured(
    window: &mut Window,
    len: u32,
    rtt: Option<TimeSpan>,
    now: Timestamp,
    rate: &mut RateEstimate,
    weight: TimeSpan,
    sample: Option<RateSample>,
    taken_from: &mut Window,
    taken: Vec<RateSample>,
)
    requires
        window.wf(),
        *rate == window@.rate,
        call_ensures(Window::on_payload, (window, len, rtt, now), ()),
        call_ensures(tau, (rtt,), weight),
        call_ensures(RateEstimate::observe, (rate, len as u64, weight, now), sample),
        taken_from.wf(),
        call_ensures(Window::take_rate_samples, (taken_from,), taken),
    ensures
        final(window)@.rate == *final(rate),
        final(window)@.rate_samples == old(window)@.rate_samples + match sample {
            Some(sample) => seq![sample],
            None => Seq::empty(),
        },
        taken@ == old(taken_from)@.rate_samples,
        final(taken_from)@.rate_samples.len() == 0,
        final(taken_from)@.granted == old(taken_from)@.granted,
        final(taken_from)@.freed == old(taken_from)@.freed,
{
    let before = old(window)@.rate_samples;
    assert(before + Seq::<RateSample>::empty() =~= before);
    if let Some(sample) = sample {
        assert(before + seq![sample] =~= before.push(sample));
    }
}

/// Only a peer that has sent more than it was ever granted has overdrawn.
pub proof fn overdrawing_is_noticed(window: &Window, r: bool)
    requires
        call_ensures(Window::overdrawn, (window,), r),
    ensures
        r <==> window@.granted_total < window@.received_total,
{
}

/// A probe throws away what the open interval holds and restarts the control
/// clock; the base and the readings before it stay.
pub proof fn probes_restart_the_interval(window: &mut Window, now: Timestamp)
    requires
        window.wf(),
        call_ensures(Window::on_probe_end, (window, now), ()),
    ensures
        final(window)@.delay.interval is None,
        final(window)@.delay.base == old(window)@.delay.base,
        final(window)@.delay.history == old(window)@.delay.history,
        final(window)@.controlled_at == now,
        final(window)@.granted == old(window)@.granted,
        final(window)@.freed == old(window)@.freed,
        final(window)@.desired == old(window)@.desired,
        final(window)@.queued == old(window)@.queued,
{
}

/// What a sender timestamp stands for: a timestamp below the one before is one
/// that has wrapped.
pub open spec fn sent_at(v: TransitView, stamp: u32) -> int {
    if stamp < v.clock.last {
        (v.clock.laps + 1) * 0x1_0000_0000 + stamp
    } else {
        v.clock.laps * 0x1_0000_0000 + stamp
    }
}

/// How long a frame took that was stamped `stamp` and arrives at `now`, in
/// microseconds: when it arrived, on our clock, less when it was sent, on the
/// peer's. What the two clocks differ by is in it.
pub open spec fn took(v: TransitView, stamp: u32, now: Timestamp) -> int {
    (now.nanos - v.started.nanos) / 1_000 - sent_at(v, stamp)
}

/// A connection between two frames, which takes in one `DATA` frame within what it
/// has granted, and whose clocks are within what can be counted.
pub open spec fn takes_frame(
    v: TransitView,
    bytes: Seq<u8>,
    starved: bool,
    stamp: u32,
    payload: Seq<u8>,
    now: Timestamp,
) -> bool {
    &&& v.parse is Header
    &&& v.raw.len() == 0
    &&& v.fed(bytes).roomy()
    &&& payload.len() <= MAX_PAYLOAD
    &&& bytes == data_wire(starved, stamp, payload)
    &&& v.window.received_total + payload.len() <= v.window.granted_total
    &&& v.clock.laps < 0x7fff_ffff
    &&& v.started.nanos <= now.nanos
    &&& (now.nanos - v.started.nanos) / 1_000 < i64::MAX
}

/// A parser that gets somewhere goes on from there.
proof fn parsing_goes_on(v: TransitView, next: TransitView, now: Timestamp)
    requires
        v.step(now) == Step::Go(next),
    ensures
        v.parsed(now) == next.parsed(now),
{
}

/// A `DATA` header is followed by its timestamp.
proof fn header_is_taken(v: TransitView, rest: Seq<u8>, len: u32, starved: bool, now: Timestamp)
    requires
        v.parse is Header,
        len <= MAX_PAYLOAD,
        v.raw == (Frame::Data { len, starved }).wire() + rest,
    ensures
        v.step(now) == Step::Go(
            TransitView {
                window: WindowView {
                    peer_starved: starved || v.window.peer_starved,
                    ..v.window
                },
                parse: Parse::Timestamp(len),
                raw: rest,
                ..v
            },
        ),
{
    let frame = Frame::Data { len, starved };
    frames_round_trip(frame);
    assert(v.raw.take(HEADER_LEN as int) =~= frame.wire());
    assert(v.raw.skip(HEADER_LEN as int) =~= rest);
}

/// A timestamp is followed by its payload.
proof fn stamp_is_taken(v: TransitView, rest: Seq<u8>, len: u32, stamp: u32, now: Timestamp)
    requires
        v.parse == Parse::Timestamp(len),
        v.raw == be32_bytes(stamp as int) + rest,
    ensures
        v.step(now) == Step::Go(
            TransitView { raw: rest, parse: Parse::Payload(len), ..v }.stamped(stamp, now),
        ),
{
    assert(be32(be32_bytes(stamp as int)) == stamp);
    assert(v.raw.take(TIMESTAMP_LEN as int) =~= be32_bytes(stamp as int));
    assert(v.raw.skip(TIMESTAMP_LEN as int) =~= rest);
}

/// A payload that is there as a whole is handed on as a whole, and the parser waits
/// for the next header.
proof fn payload_is_taken(v: TransitView, now: Timestamp)
    requires
        v.parse == Parse::Payload(v.raw.len() as u32),
        v.raw.len() <= MAX_PAYLOAD,
        v.window.received_total + v.raw.len() <= v.window.granted_total,
    ensures
        ({
            let (after, result) = v.parsed(now);
            &&& result is Ok
            &&& after.window.delay == v.window.delay
            &&& after.window.peer_starved == v.window.peer_starved
            &&& after.window.controlled_at == v.window.controlled_at
            &&& after.window.desired == v.window.desired
            &&& after.window.received_total == v.window.received_total + v.raw.len()
            &&& after.window.granted == v.window.granted
            &&& after == (TransitView {
                window: after.window,
                payload: v.payload + v.raw,
                parse: Parse::Header,
                raw: Seq::empty(),
                ..v
            })
        }),
{
    assert(v.step(now) is Go);
    let next = v.step(now)->Go_0;
    if v.raw.len() > 0 {
        assert(v.raw.take(v.raw.len() as int) =~= v.raw);
        assert(v.raw.skip(v.raw.len() as int) =~= Seq::empty());
    } else {
        assert(v.raw =~= Seq::empty());
        assert(v.payload + v.raw =~= v.payload);
    }
    parsing_goes_on(v, next, now);
    assert(next.step(now) is Wait);
}

/// What one `DATA` frame does to a connection between two frames.
proof fn frame_is_taken(
    v: TransitView,
    bytes: Seq<u8>,
    starved: bool,
    stamp: u32,
    payload: Seq<u8>,
    now: Timestamp,
)
    requires
        takes_frame(v, bytes, starved, stamp, payload, now),
    ensures
        ({
            let (after, result) = v.fed(bytes).parsed(now);
            let delayed = v.window.delayed(took(v, stamp, now) as i64, now);
            &&& result is Ok
            &&& after.window.delay == delayed.delay
            &&& after.window.peer_starved == (v.window.peer_starved || starved)
            &&& after.window.controlled_at == v.window.controlled_at
            &&& after.window.desired == v.window.desired
            &&& after.window.received_total == v.window.received_total + payload.len()
            &&& after.window.granted == v.window.granted
            &&& after.payload == v.payload + payload
            &&& after.parse is Header
            &&& after.raw.len() == 0
            &&& after.probe == v.probe
            &&& after.credit == v.credit
            &&& after.out == v.out
            &&& after.started == v.started
            &&& after.shut_down == v.shut_down
            &&& after.clock.last == stamp
            &&& after.clock.laps == v.clock.laps + if stamp < v.clock.last {
                1int
            } else {
                0
            }
        }),
{
    let fed = v.fed(bytes);
    let len = payload.len() as u32;
    let behind = be32_bytes(stamp as int) + payload;
    assert(fed.raw =~= (Frame::Data { len, starved }).wire() + behind);
    header_is_taken(fed, behind, len, starved, now);
    let v1 = fed.step(now)->Go_0;
    parsing_goes_on(fed, v1, now);
    stamp_is_taken(v1, payload, len, stamp, now);
    let v2 = v1.step(now)->Go_0;
    parsing_goes_on(v1, v2, now);
    payload_is_taken(v2, now);
    let owd = span(v.started, now).nanos / 1_000 - v2.clock.shows();
    assert(v2.clock.shows() == sent_at(v, stamp));
    assert(owd == took(v, stamp, now));
}

/// A frame is timed by both clocks: the delay that is taken of it is its arrival
/// on ours less its sending on the peer's. Its payload is handed on, counted, and
/// a peer that says it ran out of credit is heard.
pub proof fn frames_are_timed_by_both_clocks(
    transit: &mut Transit,
    bytes: &[u8],
    starved: bool,
    stamp: u32,
    payload: Seq<u8>,
    now: Timestamp,
    r: Result<(), TransitError>,
)
    requires
        transit.wf(),
        takes_frame(transit@, bytes@, starved, stamp, payload, now),
        call_ensures(Transit::receive, (transit, bytes, now), r),
    ensures
        ({
            let before = old(transit)@;
            let after = final(transit)@;
            let sample = took(before, stamp, now);
            &&& r is Ok
            &&& after.window.delay.interval == match before.window.delay.interval {
                Some(interval) => if interval <= sample {
                    Some(interval)
                } else {
                    Some(sample as i64)
                },
                None => Some(sample as i64),
            }
            &&& after.window.peer_starved == (before.window.peer_starved || starved)
            &&& after.window.received_total == before.window.received_total + payload.len()
            &&& after.payload == before.payload + payload
            &&& after.clock.last == stamp
            &&& sent_at(after, stamp) == sent_at(before, stamp)
        }),
{
    frame_is_taken(transit@, bytes@, starved, stamp, payload, now);
}

/// Of two frames with the same timestamp, the one that arrives `d` microseconds
/// later is taken to have waited `d` microseconds longer; and of two frames that
/// arrive at the same time, the one that was sent `d` microseconds earlier.
pub proof fn waiting_longer_is_a_longer_delay(
    first: &mut Transit,
    second: &mut Transit,
    third: &mut Transit,
    a: &[u8],
    b: &[u8],
    starved: bool,
    stamp: u32,
    payload: Seq<u8>,
    d: u32,
    now: Timestamp,
    later: Timestamp,
    r1: Result<(), TransitError>,
    r2: Result<(), TransitError>,
    r3: Result<(), TransitError>,
)
    requires
        *first == *second,
        *first == *third,
        first.wf(),
        first@.window.delay.interval is None,
        d <= stamp,
        first@.clock.last <= stamp - d,
        later.nanos == now.nanos + 1_000 * d,
        takes_frame(first@, a@, starved, stamp, payload, now),
        takes_frame(first@, a@, starved, stamp, payload, later),
        takes_frame(first@, b@, starved, (stamp - d) as u32, payload, now),
        call_ensures(Transit::receive, (first, a, now), r1),
        call_ensures(Transit::receive, (second, a, later), r2),
        call_ensures(Transit::receive, (third, b, now), r3),
    ensures
        ({
            let at_first = final(first)@.window.delay.interval.unwrap();
            &&& final(second)@.window.delay.interval.unwrap() == at_first + d
            &&& final(third)@.window.delay.interval.unwrap() == at_first + d
        }),
{
    frame_is_taken(first@, a@, starved, stamp, payload, now);
    frame_is_taken(first@, a@, starved, stamp, payload, later);
    frame_is_taken(first@, b@, starved, (stamp - d) as u32, payload, now);
}

/// A queue is read off frames that come late: where every frame in memory took
/// exactly `q` microseconds less than the one that arrives, the next run of the
/// control law acts on a queue of `q` microseconds.
pub proof fn late_frames_are_a_queue(
    transit: &mut Transit,
    serviced: &mut Transit,
    bytes: &[u8],
    starved: bool,
    stamp: u32,
    payload: Seq<u8>,
    q: u32,
    now: Timestamp,
    then: Timestamp,
    r: Result<(), TransitError>,
    steering: Option<Steering>,
)
    requires
        transit.wf(),
        takes_frame(transit@, bytes@, starved, stamp, payload, now),
        call_ensures(Transit::receive, (transit, bytes, now), r),
        *serviced == *final(transit),
        call_ensures(Transit::service, (serviced, then), steering),
        !transit@.shut_down,
        transit@.window.delay.filter == 1,
        transit@.window.delay.interval is None,
        transit@.window.delay.base.ages.len() == 60,
        transit@.window.delay.base.ages[0] is Some,
        forall|i: int|
            0 <= i < 60 ==> ((#[trigger] transit@.window.delay.base.ages[i]) matches Some(earlier)
                ==> earlier + q == took(transit@, stamp, now)),
        transit@.window.delay.base.opened.nanos <= now.nanos,
        now.nanos - transit@.window.delay.base.opened.nanos < 60_000_000_000,
        transit@.window.controlled_at.nanos <= then.nanos,
        match transit@.probe.clean_rtt {
            Some(rtt) => then.nanos - transit@.window.controlled_at.nanos >= rtt.nanos,
            None => then.nanos - transit@.window.controlled_at.nanos >= 50_000_000,
        },
    ensures
        steering matches Some(steering) && steering.queued.nanos == 1_000 * q && (starved
            ==> steering.starved),
        final(serviced)@.window.queued == Some(TimeSpan { nanos: (1_000 * q) as u128 }),
{
    let v = transit@;
    frame_is_taken(v, bytes@, starved, stamp, payload, now);
    let sample = took(v, stamp, now);
    let d0 = v.window.delay;
    let d = serviced@.window.delay;
    let steps = d0.base.behind(now);
    assert(0 <= steps < 60);
    assert(d0.base.ages[0].unwrap() + q == sample);
    assert(d.base.ages[steps] == Some((sample - q) as i64));
    assert forall|i: int| 0 <= i < 60 && d.base.ages[i] is Some implies sample - q <= (
    #[trigger] d.base.ages[i]).unwrap() by {
        if i >= steps {
            let earlier = d0.base.ages[i - steps];
        }
    }
    base_is_the_smallest(d.base.ages);
    assert(least(d.base.ages) == Some((sample - q) as i64));
    assert(d.recent() =~= seq![q as u128]);
    median_of_one(q as u128);
}

} // verus!
