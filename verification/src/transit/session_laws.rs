//! What the calls on a connection and on its probe come to.

use bytes::BytesMut;
use vstd::prelude::*;

use super::connection::{data_wire, Config, SenderClock, Stats, Transit, TransitView};
use super::frame::{frames_round_trip, Frame, TransitError, HEADER_LEN};
use super::probe::{Finished, Outcome, Probe, Role, State};
use super::window::{Sizing, Steering, Window};
use crate::bytes_ext::{buffer_limit, held};
use crate::codec::encoder::joined;
use crate::poll::Poll;
use crate::stream_id::be32_bytes;
use crate::time::{TimeSpan, Timestamp};
use crate::wire_laws::number_of_four;

verus! {

/// Whether nothing may be written: an exchange of the probe runs, there is no
/// credit, or 128kB wait for the transport.
pub open spec fn nothing_may_go(v: TransitView) -> bool {
    !(v.probe.state is Idle) || v.credit.available == 0 || v.out.len() >= 131_072
}

/// Whether a write of `bytes` that took `n` of them at `now` did what it is to do:
/// it staged the first `n` of them as one frame, as many as there are, as fit a
/// frame of 64kB, and as there is credit for. The frame carries the microseconds
/// of our clock, and says so if the sender ran out of credit within the last
/// second and has not said it yet.
pub open spec fn wrote(
    before: TransitView,
    after: TransitView,
    bytes: Seq<u8>,
    n: int,
    now: Timestamp,
) -> bool {
    let starved = before.credit.unreported matches Some(since) && (now.nanos < since.nanos
        || now.nanos - since.nanos < 1_000_000_000);
    let stamp = ((now.nanos - before.started.nanos) / 1_000) % 0x1_0000_0000;
    &&& 0 < n <= bytes.len()
    &&& n <= 65_536
    &&& n <= before.credit.available
    &&& n == bytes.len() || n == 65_536 || n == before.credit.available
    &&& after.out == before.out + data_wire(starved, stamp as u32, bytes.take(n))
    &&& after.credit.available == before.credit.available - n
    &&& after.credit.unreported is None
    &&& after.credit.stalls == before.credit.stalls
    &&& after.payload == before.payload
    &&& after.window == before.window
    &&& after.probe == before.probe
}

/// Whether an attempt to write that could not go at `now` left everything as it
/// was, but for a sender that has run out of credit: that is counted and reported
/// later, once until there is credit again.
pub open spec fn was_held_up(before: TransitView, after: TransitView, now: Timestamp) -> bool {
    let stalled = before.credit.available == 0 && !before.credit.starved;
    &&& after == (TransitView { credit: after.credit, ..before })
    &&& after.credit.available == before.credit.available
    &&& stalled ==> {
        &&& after.credit.starved
        &&& after.credit.unreported == Some(now)
        &&& before.credit.stalls < u64::MAX ==> after.credit.stalls == before.credit.stalls + 1
    }
    &&& !stalled ==> after.credit == before.credit
}

/// A write takes as much as may go, as one frame, or nothing where nothing may go.
pub proof fn writes_take_what_may_go(
    transit: &mut Transit,
    bytes: &[u8],
    now: Timestamp,
    r: Poll<usize>,
)
    requires
        transit.wf(),
        call_ensures(Transit::write, (transit, bytes, now), r),
        transit@.started.nanos <= now.nanos,
    ensures
        ({
            let before = old(transit)@;
            let after = final(transit)@;
            if bytes@.len() == 0 {
                r == Poll::Ready(0usize) && after == before
            } else if nothing_may_go(before) {
                r is Pending && was_held_up(before, after, now)
            } else {
                r matches Poll::Ready(n) && wrote(before, after, bytes@, n as int, now)
            }
        }),
{
}

/// A batch of slices goes as if it were one: in one frame, as much as may go.
pub proof fn batches_go_as_one(
    transit: &mut Transit,
    bufs: &[&[u8]],
    now: Timestamp,
    r: Poll<usize>,
)
    requires
        transit.wf(),
        joined(bufs@).len() <= usize::MAX,
        call_ensures(Transit::write_vectored, (transit, bufs, now), r),
        transit@.started.nanos <= now.nanos,
    ensures
        ({
            let before = old(transit)@;
            let after = final(transit)@;
            if joined(bufs@).len() == 0 {
                r == Poll::Ready(0usize) && after == before
            } else if nothing_may_go(before) {
                r is Pending && was_held_up(before, after, now)
            } else {
                r matches Poll::Ready(n) && wrote(before, after, joined(bufs@), n as int, now)
            }
        }),
{
}

/// The room for a frame is what a write of as many bytes would take.
pub proof fn room_is_what_a_write_takes(
    asked: &mut Transit,
    written: &mut Transit,
    bytes: &[u8],
    now: Timestamp,
    room: Poll<usize>,
    r: Poll<usize>,
)
    requires
        *asked == *written,
        asked.wf(),
        call_ensures(Transit::frame_room, (asked, bytes.len(), now), room),
        call_ensures(Transit::write, (written, bytes, now), r),
    ensures
        room == r,
        room is Ready ==> final(asked)@ == old(asked)@,
        room is Pending ==> final(asked)@ == final(written)@,
{
}

/// The application reads the payload in order, as much of it as it has room for,
/// and waits only where there is none and more may come.
pub proof fn reads_take_the_front(
    transit: &mut Transit,
    room: usize,
    r: Poll<Vec<u8>>,
)
    requires
        transit.wf(),
        call_ensures(Transit::read, (transit, room), r),
    ensures
        ({
            let before = old(transit)@;
            let after = final(transit)@;
            &&& r is Pending <==> before.payload.len() == 0 && !before.eof
            &&& r is Pending ==> after == before
            &&& r matches Poll::Ready(bytes) ==> {
                &&& bytes@ + after.payload == before.payload
                &&& bytes@.len() <= room
                &&& bytes@.len() == room || after.payload.len() == 0
                &&& after.window == before.window && after.credit == before.credit && after.out
                    == before.out && after.raw == before.raw
            }
        }),
{
    let payload = transit@.payload;
    if let Poll::Ready(bytes) = r {
        assert(bytes@ + final(transit)@.payload =~= payload);
    }
}

/// Credit that the peer grants is added to what there is, and ends a stall. What
/// has not been reported yet is still to be.
pub proof fn grants_add_to_the_credit(
    transit: &mut Transit,
    bytes: &[u8],
    granted: u32,
    now: Timestamp,
    r: Result<(), TransitError>,
)
    requires
        transit.wf(),
        transit@.parse is Header,
        transit@.raw.len() == 0,
        transit@.fed(bytes@).roomy(),
        bytes@ == Frame::WindowUpdate(granted).wire(),
        call_ensures(Transit::receive, (transit, bytes, now), r),
        transit@.credit.available + granted <= u64::MAX,
    ensures
        r is Ok,
        final(transit)@.credit.available == old(transit)@.credit.available + granted,
        !final(transit)@.credit.starved,
        final(transit)@.credit.unreported == old(transit)@.credit.unreported,
        final(transit)@.credit.stalls == old(transit)@.credit.stalls,
        final(transit)@.window == old(transit)@.window,
        final(transit)@.payload == old(transit)@.payload,
        final(transit)@.out == old(transit)@.out,
{
    let v = transit@;
    let fed = v.fed(bytes@);
    frames_round_trip(Frame::WindowUpdate(granted));
    assert(fed.raw =~= bytes@);
    assert(bytes@.take(HEADER_LEN as int) =~= bytes@);
    let next = fed.step(now)->Go_0;
    assert(fed.step(now) is Go);
    assert(next.raw.len() == 0);
    assert(next.step(now) is Wait);
    reveal_with_fuel(TransitView::parsed, 3);
    assert(fed.parsed(now) == next.parsed(now));
}

/// A connection announces its initial window, has no credit of its own yet, and
/// probes the link before any data flows if it is the one to probe.
pub proof fn connections_announce_their_window(
    config: Config,
    now: Timestamp,
    r: Transit,
)
    requires
        call_ensures(Transit::new, (config, now), r),
    ensures
        r@.out == Frame::WindowUpdate(config.sizing.initial).wire(),
        r@.window.granted == config.sizing.initial,
        r@.window.granted_total == config.sizing.initial,
        r@.window.received_total == 0,
        r@.window.freed == 0,
        r@.window.desired == config.sizing.initial,
        r@.window.sizing == config.sizing,
        r@.window.queued is None,
        !r@.window.peer_starved,
        r@.window.controlled_at == now,
        r@.window.rate_samples.len() == 0,
        r@.window.rate.pending == 0,
        r@.window.rate.since == now,
        r@.credit.available == 0,
        !r@.credit.starved,
        r@.credit.unreported is None,
        r@.credit.stalls == 0,
        r@.raw.len() == 0,
        r@.payload.len() == 0,
        r@.parse is Header,
        !r@.eof,
        !r@.shut_down,
        r@.probe.state is Idle,
        r@.probe.role == config.role,
        r@.probe.wanted,
        r@.probe.timer == now,
        r@.probe.unspaced is None,
        r@.probe.clean_rtt is None,
        r@.probe.completed == 0,
        r@.probe.abandoned == 0,
        r@.started == now,
        r@.clock.last == 0,
        r@.clock.laps == 0,
{
}

/// Credit goes back to the peer as it is granted: what is staged for it is exactly
/// what the window hands out, and nothing goes after a shutdown.
pub proof fn returned_credit_is_staged(transit: &mut Transit, paced: Option<u32>)
    requires
        transit.wf(),
        transit@.out.len() + HEADER_LEN <= buffer_limit(),
        call_ensures(Transit::return_credit, (transit, paced), ()),
        transit@.window.granted_total < u64::MAX - u32::MAX,
    ensures
        ({
            let before = old(transit)@;
            let after = final(transit)@;
            let handed_out = after.window.granted_total - before.window.granted_total;
            &&& before.shut_down ==> after == before
            &&& 0 <= handed_out <= u32::MAX
            &&& after.out == if handed_out > 0 {
                before.out + Frame::WindowUpdate(handed_out as u32).wire()
            } else {
                before.out
            }
            &&& before.payload.len() >= before.window.granted ==> after == before
            &&& after.payload == before.payload && after.credit == before.credit
        }),
{
}

/// The peer's end of stream leaves what has arrived to be read, takes this end out
/// of any exchange, and has it open none again.
pub proof fn ends_of_stream_leave_the_payload(transit: &mut Transit)
    requires
        transit.wf(),
        call_ensures(Transit::receive_end, (transit,), ()),
    ensures
        final(transit)@.eof,
        final(transit)@.payload == old(transit)@.payload,
        final(transit)@.credit == old(transit)@.credit,
        final(transit)@.probe.state is Idle,
        !final(transit)@.probe.wanted,
        final(transit)@.probe.clean_rtt == old(transit)@.probe.clean_rtt,
        final(transit)@.probe.abandoned == old(transit)@.probe.abandoned,
{
}

/// The initiator opens an exchange as soon as one is due: it pauses, tells the
/// peer with a number that it has not used before, and has 30 seconds. An exchange
/// that overruns is given up and counted. A responder never opens one.
pub proof fn exchanges_are_opened_when_due(probe: &mut Probe, now: Timestamp, r: Option<Frame>)
    requires
        call_ensures(Probe::poll, (probe, now), r),
        now.nanos + 30_000_000_000 <= u128::MAX,
        probe.abandoned < u64::MAX,
        probe.paused_since.nanos <= now.nanos,
    ensures
        ({
            let before = *old(probe);
            let after = *final(probe);
            let reached = now.nanos >= before.timer.nanos;
            let due = reached && before.state is Idle && before.role is Initiator && before.wanted
                && before.unspaced is None;
            &&& r is Some <==> due
            &&& due ==> {
                &&& after.seq != before.seq
                &&& before.seq < u32::MAX ==> after.seq == before.seq + 1
                &&& r == Some(Frame::ClearLink(after.seq))
                &&& after.state == (State::AwaitingAck { seq: after.seq })
                &&& after.paused_since == now
                &&& after.timer.nanos == now.nanos + 30_000_000_000
                &&& after.abandoned == before.abandoned
            }
            &&& !(before.state is Idle) && reached ==> {
                &&& after.state is Idle
                &&& after.abandoned == before.abandoned + 1
                &&& after.unspaced matches Some(finished) && finished.at == now
                    && finished.took.nanos == now.nanos - before.paused_since.nanos
                &&& after.clean_rtt == before.clean_rtt
                &&& after.completed == before.completed
            }
            &&& !due && (before.state is Idle || !reached) ==> after == before
        }),
{
}

/// The frames of an exchange are answered each by the next one, with its number.
/// The initiator times its `PING` from when the link was drained, keeps the round
/// trip and reports it in microseconds; the responder takes over what is reported.
/// Whoever sees its last frame resumes.
pub proof fn exchanges_run_their_course(
    probe: &mut Probe,
    frame: Frame,
    now: Timestamp,
    r: Result<Outcome, TransitError>,
)
    requires
        call_ensures(Probe::on_frame, (probe, frame, now), r),
        now.nanos + 30_000_000_000 <= u128::MAX,
        probe.completed < u64::MAX,
        probe.state matches State::AwaitingPong { sent_at, .. } ==> sent_at.nanos <= now.nanos,
        probe.paused_since.nanos <= now.nanos,
    ensures
        ({
            let before = *old(probe);
            let after = *final(probe);
            match frame {
                Frame::ClearLink(seq) => if before.role is Initiator {
                    r == Err::<Outcome, TransitError>(TransitError::TwoInitiators) && after
                        == before
                } else {
                    &&& r == Ok::<Outcome, TransitError>(
                        Outcome { reply: Some(Frame::ClearAck(seq)), finished: false },
                    )
                    &&& after.state is Responding
                    &&& after.paused_since == now
                    &&& after.timer.nanos == now.nanos + 30_000_000_000
                },
                Frame::ClearAck(seq) => if before.state == (State::AwaitingAck { seq }) {
                    &&& r == Ok::<Outcome, TransitError>(
                        Outcome { reply: Some(Frame::Ping(seq)), finished: false },
                    )
                    &&& after.state == (State::AwaitingPong { seq, sent_at: now })
                    &&& after.timer == before.timer
                } else {
                    ignored(before, after, r)
                },
                Frame::Ping(seq) => if before.state is Responding {
                    &&& r == Ok::<Outcome, TransitError>(
                        Outcome { reply: Some(Frame::Pong(seq)), finished: true },
                    )
                    &&& after.state is Idle
                    &&& after.clean_rtt == before.clean_rtt
                } else {
                    ignored(before, after, r)
                },
                Frame::Pong(seq) => match before.state {
                    State::AwaitingPong { seq: ours, sent_at } if ours == seq => {
                        let rtt = now.nanos - sent_at.nanos;
                        &&& r matches Ok(outcome) && outcome.finished && outcome.reply == Some(
                            Frame::CleanRtt(
                                if rtt / 1_000 <= u32::MAX {
                                    (rtt / 1_000) as u32
                                } else {
                                    u32::MAX
                                },
                            ),
                        )
                        &&& after.state is Idle
                        &&& after.clean_rtt == Some(TimeSpan { nanos: rtt as u128 })
                        &&& after.completed == before.completed + 1
                        &&& after.abandoned == before.abandoned
                        &&& after.unspaced matches Some(finished) && finished.at == now
                            && finished.took.nanos == now.nanos - before.paused_since.nanos
                    },
                    _ => ignored(before, after, r),
                },
                Frame::CleanRtt(micros) => {
                    &&& r == Ok::<Outcome, TransitError>(Outcome { reply: None, finished: false })
                    &&& after == (Probe {
                        clean_rtt: Some(TimeSpan { nanos: (micros * 1_000) as u128 }),
                        ..before
                    })
                },
                _ => ignored(before, after, r),
            }
        }),
{
}

/// Nothing came of a frame.
pub open spec fn ignored(before: Probe, after: Probe, r: Result<Outcome, TransitError>) -> bool {
    &&& after == before
    &&& r == Ok::<Outcome, TransitError>(Outcome { reply: None, finished: false })
}

/// The next exchange is as far from the last one's end as was asked for, but no
/// closer than 100ms and no further than 30 seconds.
pub proof fn exchanges_are_spaced_as_asked(probe: &mut Probe, gap: TimeSpan)
    requires
        call_ensures(Probe::space, (probe, gap), ()),
        probe.unspaced matches Some(finished) ==> finished.at.nanos + 30_000_000_000 <= u128::MAX,
    ensures
        ({
            let before = *old(probe);
            let after = *final(probe);
            match before.unspaced {
                None => after == before,
                Some(finished) => {
                    &&& after.unspaced is None
                    &&& 100_000_000 <= gap.nanos <= 30_000_000_000 ==> after.interval == gap
                    &&& gap.nanos < 100_000_000 ==> after.interval.nanos == 100_000_000
                    &&& gap.nanos > 30_000_000_000 ==> after.interval.nanos == 30_000_000_000
                    &&& before.state is Idle ==> after.timer.nanos == finished.at.nanos
                        + after.interval.nanos
                    &&& !(before.state is Idle) ==> after.timer == before.timer
                    &&& after.state == before.state
                },
            }
        }),
{
}

/// Whoever drives a probe is told to come back no later than something happens
/// to it: an exchange that may be opened, or one that overruns.
pub proof fn probes_ask_to_be_woken_in_time(
    probe: &Probe,
    wake: Option<Timestamp>,
    polled: &mut Probe,
    now: Timestamp,
    r: Option<Frame>,
)
    requires
        call_ensures(Probe::next_wake, (probe,), wake),
        *polled == *probe,
        call_ensures(Probe::poll, (polled, now), r),
        wake is None || now.nanos < wake.unwrap().nanos,
    ensures
        r is None,
        *final(polled) == *old(polled),
{
}

/// Timestamps go on where they wrapped: a clock shows what the sender's showed, as
/// long as less than a lap of 2^32 microseconds is between two of them.
pub proof fn sender_clocks_go_on(clock: &mut SenderClock, sent: int, r: i64)
    requires
        clock.valid(),
        clock.laps < 0x7fff_ffff,
        clock.laps * 0x1_0000_0000 + clock.last <= sent,
        sent < clock.laps * 0x1_0000_0000 + clock.last + 0x1_0000_0000,
        call_ensures(SenderClock::unwrap, (clock, (sent % 0x1_0000_0000) as u32), r),
    ensures
        r == sent,
        final(clock).laps * 0x1_0000_0000 + final(clock).last == sent,
{
}

/// The kind of a frame on the wire.
pub open spec fn kind_byte(frame: Frame) -> int {
    match frame {
        Frame::Data { .. } => 1,
        Frame::WindowUpdate(_) => 2,
        Frame::ClearLink(_) => 3,
        Frame::ClearAck(_) => 4,
        Frame::Ping(_) => 5,
        Frame::Pong(_) => 6,
        Frame::CleanRtt(_) => 7,
    }
}

/// The number that a frame carries.
pub open spec fn carried(frame: Frame) -> int {
    match frame {
        Frame::Data { len, .. } => len as int,
        Frame::WindowUpdate(value) => value as int,
        Frame::ClearLink(value) => value as int,
        Frame::ClearAck(value) => value as int,
        Frame::Ping(value) => value as int,
        Frame::Pong(value) => value as int,
        Frame::CleanRtt(value) => value as int,
    }
}

/// A header is eight bytes: what the frame is, whether its sender ran out of
/// credit, two zeros, and its number with the most significant byte first.
pub open spec fn is_header(bytes: Seq<u8>, frame: Frame) -> bool {
    &&& bytes.len() == 8
    &&& bytes[0] == kind_byte(frame)
    &&& bytes[1] == if frame matches Frame::Data { starved: true, .. } {
        1int
    } else {
        0
    }
    &&& bytes[2] == 0 && bytes[3] == 0
    &&& number_of_four(bytes[4], bytes[5], bytes[6], bytes[7]) == carried(frame)
}

/// A frame is written as its header, behind what was written before. `DATA` has a
/// timestamp behind it.
pub proof fn frames_are_written_as_headers(
    frame: Frame,
    out: &mut BytesMut,
    len: u32,
    starved: bool,
    stamp: u32,
    other: &mut BytesMut,
)
    requires
        held(*out).len() + 8 <= buffer_limit(),
        held(*other).len() + 12 <= buffer_limit(),
        call_ensures(Frame::encode, (frame, out), ()),
        call_ensures(Frame::encode_data, (len, starved, stamp, other), ()),
    ensures
        held(*final(out)).take(held(*old(out)).len() as int) == held(*old(out)),
        is_header(held(*final(out)).skip(held(*old(out)).len() as int), frame),
        ({
            let before = held(*old(other));
            let added = held(*final(other)).skip(before.len() as int);
            &&& held(*final(other)).take(before.len() as int) == before
            &&& added.len() == 12
            &&& is_header(added.take(8), Frame::Data { len, starved })
            &&& number_of_four(added[8], added[9], added[10], added[11]) == stamp
        }),
{
    let before = held(*old(out));
    assert(held(*final(out)).take(before.len() as int) =~= before);
    assert(held(*final(out)).skip(before.len() as int) =~= frame.wire());
    let there = held(*old(other));
    let header = (Frame::Data { len, starved }).wire();
    let added = held(*final(other)).skip(there.len() as int);
    assert(held(*final(other)).take(there.len() as int) =~= there);
    assert(added =~= header + be32_bytes(stamp as int));
    assert(added.take(8) =~= header);
}

/// What a write stages is a header, a timestamp, and the payload.
pub proof fn staged_frames_have_their_layout(starved: bool, stamp: u32, payload: Seq<u8>)
    requires
        payload.len() <= u32::MAX,
    ensures
        ({
            let bytes = data_wire(starved, stamp, payload);
            &&& bytes.len() == 12 + payload.len()
            &&& is_header(bytes.take(8), Frame::Data { len: payload.len() as u32, starved })
            &&& number_of_four(bytes[8], bytes[9], bytes[10], bytes[11]) == stamp
            &&& bytes.skip(12) == payload
        }),
{
    let bytes = data_wire(starved, stamp, payload);
    let header = (Frame::Data { len: payload.len() as u32, starved }).wire();
    assert(bytes.take(8) =~= header);
    assert(bytes.skip(12) =~= payload);
}

/// A header is read as the frame that its first byte names, with the number behind
/// it. `DATA` of more than 64kB and what has no name are refused.
pub proof fn headers_are_read_as_frames(header: &[u8], r: Result<Frame, TransitError>)
    requires
        header@.len() == 8,
        call_ensures(Frame::decode, (header,), r),
    ensures
        ({
            let h = header@;
            let value = number_of_four(h[4], h[5], h[6], h[7]);
            &&& r matches Ok(frame) ==> {
                &&& h[0] == kind_byte(frame)
                &&& carried(frame) == value
                &&& frame matches Frame::Data { starved, .. } ==> starved == (h[1] as int % 2 == 1)
                    && value <= 65_536
            }
            &&& r is Ok <==> 1 <= h[0] <= 7 && (h[0] == 1 ==> value <= 65_536)
            &&& h[0] == 1 && value > 65_536 ==> r == Err::<Frame, TransitError>(
                TransitError::OversizedData(value as u32),
            )
            &&& h[0] == 0 || h[0] > 7 ==> r == Err::<Frame, TransitError>(
                TransitError::UnknownFrame(h[0]),
            )
        }),
{
    let h = header@;
    assert(h.skip(4)[0] == h[4] && h.skip(4)[1] == h[5] && h.skip(4)[2] == h[6] && h.skip(4)[3]
        == h[7]);
}

/// The tuned configuration: a window of 128kB that may grow to 16MB, re-grants of at
/// most 64kB and thirty-two to a round trip, and a median of four.
pub proof fn tuned_connections_are_configured(role: Role, r: Config, sizing: Sizing)
    requires
        call_ensures(Config::new, (role,), r),
        call_ensures(<Sizing as Default>::default, (), sizing),
    ensures
        r.role == role,
        r.sizing.initial == 128 * 1024,
        r.sizing.max == 16 * 1024 * 1024,
        r.sizing.re_grant == 64 * 1024,
        r.sizing.re_grants_per_rtt == 32,
        r.sizing.delay_filter == 4,
        sizing == r.sizing,
{
}

/// There is room for bytes where they fit what a connection holds already: behind
/// what was read and was not parsed yet, together with what it has to write, and
/// with what waits to be read, a quarter of the address space is not exceeded.
pub proof fn room_is_for_what_fits(transit: &Transit, more: usize, bytes: Seq<u8>, r: bool)
    requires
        bytes.len() == more,
        call_ensures(Transit::has_room, (transit, more), r),
    ensures
        r <==> transit@.fed(bytes).roomy(),
        r <==> 4 * (transit@.out.len() + transit@.raw.len() + more) <= isize::MAX && 4 * (
        transit@.payload.len() + transit@.raw.len() + more) <= isize::MAX,
{
}

/// What a connection says of itself is what it holds.
pub proof fn connections_tell_what_they_hold(
    transit: &Transit,
    stats: Stats,
    ended: bool,
    sizing: Sizing,
    output: &[u8],
    finished: Option<Finished>,
    wake: Option<Timestamp>,
    probe_wake: Option<Timestamp>,
)
    requires
        call_ensures(Transit::stats, (transit,), stats),
        call_ensures(Transit::is_ended, (transit,), ended),
        call_ensures(Transit::sizing, (transit,), sizing),
        call_ensures(Transit::output, (transit,), output),
        call_ensures(Transit::unspaced, (transit,), finished),
        call_ensures(Transit::next_wake, (transit,), wake),
        call_ensures(Probe::next_wake, (&transit@.probe,), probe_wake),
    ensures
        stats.window == transit@.window.granted,
        stats.credit == transit@.credit.available,
        stats.clean_rtt == transit@.probe.clean_rtt,
        stats.probes == transit@.probe.completed,
        stats.probe_timeouts == transit@.probe.abandoned,
        stats.probe_interval == transit@.probe.interval,
        stats.stalls == transit@.credit.stalls,
        stats.queued == transit@.window.queued,
        stats.desired == transit@.window.desired,
        ended == transit@.eof,
        sizing == transit@.window.sizing,
        output@ == transit@.out,
        finished == transit@.probe.unspaced,
        wake == probe_wake,
{
}

/// What a probe says of itself is what it holds, and one that is stopped takes part
/// in nothing any more.
pub proof fn probes_tell_what_they_hold(
    role: Role,
    wanted: bool,
    now: Timestamp,
    fresh: Probe,
    probe: &Probe,
    paused: bool,
    rtt: Option<TimeSpan>,
    completed: u64,
    abandoned: u64,
    interval: TimeSpan,
    finished: Option<Finished>,
    stopped: &mut Probe,
)
    requires
        call_ensures(Probe::new, (role, wanted, now), fresh),
        call_ensures(Probe::paused, (probe,), paused),
        call_ensures(Probe::clean_rtt, (probe,), rtt),
        call_ensures(Probe::completed, (probe,), completed),
        call_ensures(Probe::abandoned, (probe,), abandoned),
        call_ensures(Probe::interval, (probe,), interval),
        call_ensures(Probe::unspaced, (probe,), finished),
        call_ensures(Probe::stop, (stopped,), ()),
    ensures
        fresh.state is Idle && fresh.role == role && fresh.wanted == wanted,
        fresh.timer == now && fresh.unspaced is None && fresh.clean_rtt is None,
        fresh.completed == 0 && fresh.abandoned == 0,
        paused <==> !(probe.state is Idle),
        rtt == probe.clean_rtt,
        completed == probe.completed,
        abandoned == probe.abandoned,
        interval == probe.interval,
        finished == probe.unspaced,
        final(stopped).state is Idle,
        !final(stopped).wanted,
        *final(stopped) == (Probe { state: State::Idle, wanted: false, ..*old(stopped) }),
{
}

/// What is written leaves the output from its front. A shutdown changes nothing but
/// that nothing follows it.
pub proof fn output_leaves_from_the_front(
    transit: &mut Transit,
    count: usize,
    other: &mut Transit,
)
    requires
        transit.wf(),
        count <= transit@.out.len(),
        call_ensures(Transit::written, (transit, count), ()),
        other.wf(),
        call_ensures(Transit::shut_down, (other,), ()),
    ensures
        old(transit)@.out.take(count as int) + final(transit)@.out == old(transit)@.out,
        final(transit)@ == (TransitView { out: final(transit)@.out, ..old(transit)@ }),
        final(other)@ == (TransitView { shut_down: true, ..old(other)@ }),
{
    let out = old(transit)@.out;
    assert(out.take(count as int) + out.skip(count as int) =~= out);
}

/// Advancing the clock advances the probe and the control law: what the probe opens
/// is staged, and what the law reads is handed out. Behind a shutdown there is
/// neither, and what was staged is dropped.
pub proof fn clocks_advance_probe_and_law(
    transit: &mut Transit,
    now: Timestamp,
    r: Option<Steering>,
    probe: &mut Probe,
    opened: Option<Frame>,
    window: &mut Window,
    steering: Option<Steering>,
)
    requires
        transit.wf(),
        transit@.out.len() + 8 <= buffer_limit(),
        call_ensures(Transit::service, (transit, now), r),
        *probe == transit@.probe,
        call_ensures(Probe::poll, (probe, now), opened),
        window.wf(),
        window@ == transit@.window,
        call_ensures(Window::steer, (window, transit@.probe.clean_rtt, now), steering),
    ensures
        ({
            let before = old(transit)@;
            let after = final(transit)@;
            &&& before.shut_down ==> r is None && after.out.len() == 0 && after == (TransitView {
                out: after.out,
                ..before
            })
            &&& !before.shut_down ==> {
                &&& r == steering
                &&& after == (TransitView {
                    out: after.out,
                    probe: *final(probe),
                    window: final(window)@,
                    ..before
                })
                &&& after.out == match opened {
                    Some(frame) => before.out + frame.wire(),
                    None => before.out,
                }
            }
        }),
{
}

/// Credit goes back as the window grants it, and is staged; the size that is steered
/// towards and the gap to the next exchange are the window's and the probe's.
pub proof fn grants_are_the_windows(
    transit: &mut Transit,
    paced: Option<u32>,
    window: &mut Window,
    grant: Option<u32>,
    steered: &mut Transit,
    scaled: u32,
    starved: bool,
    resized: &mut Window,
    spaced: &mut Transit,
    gap: TimeSpan,
    probe: &mut Probe,
    undelivered: usize,
)
    requires
        transit.wf(),
        transit@.out.len() + 8 <= buffer_limit(),
        undelivered == transit@.payload.len(),
        call_ensures(Transit::return_credit, (transit, paced), ()),
        window.wf(),
        window@ == transit@.window,
        call_ensures(
            Window::take_grant,
            (window, undelivered, transit@.probe.clean_rtt, paced),
            grant,
        ),
        steered.wf(),
        call_ensures(Transit::steer_towards, (steered, scaled, starved), ()),
        resized.wf(),
        resized@ == steered@.window,
        call_ensures(Window::resize_towards, (resized, scaled, starved), ()),
        spaced.wf(),
        call_ensures(Transit::space_probe, (spaced, gap), ()),
        *probe == spaced@.probe,
        call_ensures(Probe::space, (probe, gap), ()),
    ensures
        old(transit)@.shut_down ==> final(transit)@ == old(transit)@,
        !old(transit)@.shut_down ==> {
            &&& final(transit)@ == (TransitView {
                out: final(transit)@.out,
                window: final(window)@,
                ..old(transit)@
            })
            &&& final(transit)@.out == match grant {
                Some(update) => old(transit)@.out + Frame::WindowUpdate(update).wire(),
                None => old(transit)@.out,
            }
        },
        final(steered)@ == (TransitView { window: final(resized)@, ..old(steered)@ }),
        final(spaced)@ == (TransitView { probe: *final(probe), ..old(spaced)@ }),
{
}

/// The frames of an exchange are the probe's: its answer is staged, a fault fails
/// the connection, and an exchange that ends restarts the control interval.
pub proof fn exchanges_are_the_probes(
    transit: &mut Transit,
    bytes: &[u8],
    frame: Frame,
    now: Timestamp,
    r: Result<(), TransitError>,
    probe: &mut Probe,
    outcome: Result<Outcome, TransitError>,
    window: &mut Window,
)
    requires
        transit.wf(),
        transit@.parse is Header,
        transit@.raw.len() == 0,
        transit@.fed(bytes@).roomy(),
        !(frame is Data) && !(frame is WindowUpdate),
        bytes@ == frame.wire(),
        call_ensures(Transit::receive, (transit, bytes, now), r),
        *probe == transit@.probe,
        call_ensures(Probe::on_frame, (probe, frame, now), outcome),
        window.wf(),
        window@ == transit@.window,
        call_ensures(Window::on_probe_end, (window, now), ()),
    ensures
        ({
            let before = old(transit)@;
            let after = final(transit)@;
            &&& r is Ok <==> outcome is Ok
            &&& outcome matches Err(error) ==> r == Err::<(), TransitError>(error) && after.probe
                == before.probe && after.window == before.window && after.out == before.out
            &&& outcome matches Ok(outcome) ==> {
                &&& after.probe == *final(probe)
                &&& after.out == match outcome.reply {
                    Some(reply) => before.out + reply.wire(),
                    None => before.out,
                }
                &&& after.window == if outcome.finished {
                    final(window)@
                } else {
                    before.window
                }
            }
            &&& after.credit == before.credit && after.payload == before.payload
                && after.raw.len() == 0
        }),
{
    let v = transit@;
    let fed = v.fed(bytes@);
    frames_round_trip(frame);
    assert(fed.raw =~= bytes@);
    assert(bytes@.take(HEADER_LEN as int) =~= bytes@);
    if outcome is Ok {
        let next = fed.step(now)->Go_0;
        assert(fed.step(now) is Go);
        assert(next.raw.len() == 0);
        assert(next.step(now) is Wait);
        reveal_with_fuel(TransitView::parsed, 3);
        assert(fed.parsed(now) == next.parsed(now));
    } else {
        assert(fed.step(now) is Fail);
    }
}

/// What cannot be a frame fails the connection.
pub proof fn unknown_frames_fail_the_connection(
    transit: &mut Transit,
    bytes: &[u8],
    now: Timestamp,
    r: Result<(), TransitError>,
)
    requires
        transit.wf(),
        transit@.parse is Header,
        transit@.raw.len() == 0,
        transit@.fed(bytes@).roomy(),
        bytes@.len() >= 8,
        bytes@[0] == 0 || bytes@[0] > 7 || bytes@[0] == 1 && number_of_four(
            bytes@[4],
            bytes@[5],
            bytes@[6],
            bytes@[7],
        ) > 65_536,
        call_ensures(Transit::receive, (transit, bytes, now), r),
    ensures
        r == Err::<(), TransitError>(
            if bytes@[0] == 1 {
                TransitError::OversizedData(
                    number_of_four(bytes@[4], bytes@[5], bytes@[6], bytes@[7]) as u32,
                )
            } else {
                TransitError::UnknownFrame(bytes@[0])
            },
        ),
        final(transit)@.payload == old(transit)@.payload,
{
    let fed = transit@.fed(bytes@);
    assert(fed.raw =~= bytes@);
    let h = bytes@.take(8);
    assert(h[0] == bytes@[0]);
    assert(h.skip(4)[0] == bytes@[4] && h.skip(4)[1] == bytes@[5] && h.skip(4)[2] == bytes@[6]
        && h.skip(4)[3] == bytes@[7]);
}

} // verus!
