//! What holds of the transport across calls, and of the two sides of a session.

use vstd::prelude::*;

use crate::codec::decoder::FrameView;
use crate::config::{RammuxRole, TransitReserve};
use crate::header::{ControlFlags, PingPayload};
use crate::probe::{
    AfterClear, DirtyPingState, DirtyPingView, ProbeFrame, ProbeState, ProbeView,
};
use crate::probe_laws::at_rest;
use crate::stream_id::StreamId;
use crate::time::{span, TimeSpan, Timestamp};
use crate::transport::transit_recv::TransitRecv;
use crate::transport::{MeasuredRtt, OwnFrame, TransportView};

verus! {

/// The accounts of one direction of the transit window: what the sender may
/// still send, what is in flight, and what the receiver has freed and not
/// returned yet make up the whole window.
pub open spec fn balanced(credit: int, in_flight: int, recv: TransitRecv) -> bool {
    &&& 0 <= credit
    &&& 0 <= in_flight
    &&& credit + in_flight + recv.freed == recv.current
}

/// The accounts of a transit window stay balanced: sending moves credit into
/// flight, receiving moves what was in flight to what is freed, and a grant
/// returns what is freed together with what the window grew by. So the payload
/// in flight never exceeds the window.
pub proof fn transit_credit_is_conserved(
    credit: int,
    in_flight: int,
    recv: TransitRecv,
    n: int,
    ceiling: Option<u32>,
    rtt: Option<TimeSpan>,
    now: Timestamp,
)
    requires
        recv.valid(),
        balanced(credit, in_flight, recv),
        0 <= n,
    ensures
        in_flight <= recv.current,
        n <= credit ==> balanced(credit - n, in_flight + n, recv),
        n <= in_flight ==> balanced(credit, in_flight - n, recv.after_freed(n, rtt, now)),
        match recv.grant(ceiling, rtt, now) {
            Some(update) => credit + update <= u32::MAX && balanced(
                credit + update,
                in_flight,
                recv.after_grant(ceiling, rtt, now),
            ),
            None => balanced(credit, in_flight, recv.after_grant(ceiling, rtt, now)),
        },
{
}

/// Credit is returned in time: once the receiver has been asked for a grant,
/// either it has freed nothing since the last, or the peer's credit and what is
/// in flight - which is what it can still use before the next grant - exceed the
/// reserve. Without a reserve, less than half the window waits to be returned, if
/// anything does.
pub proof fn credit_is_returned_in_time(
    credit: int,
    in_flight: int,
    recv: TransitRecv,
    ceiling: Option<u32>,
    rtt: Option<TimeSpan>,
    now: Timestamp,
)
    requires
        recv.valid(),
        balanced(credit, in_flight, recv),
    ensures
        ({
            let after = recv.after_grant(ceiling, rtt, now);
            let credited = credit + match recv.grant(ceiling, rtt, now) {
                Some(update) => update as int,
                None => 0,
            };
            match recv.reserve {
                Some(reserve) => after.freed == 0 || credited + in_flight > reserve,
                None => after.freed == 0 || after.freed < after.current / 2,
            }
        }),
{
}

/// Credit is reserved where the configuration says so: never where half the
/// window decides, and otherwise for the round trip it names.
pub proof fn credit_is_reserved_as_configured(v: TransportView, reserve: Option<u32>)
    requires
        v.valid(),
        v.transit_recv is Some,
    ensures
        ({
            let recv = v.reserving(reserve).transit_recv->Some_0;
            match v.update_reserve {
                TransitReserve::HalfWindow => v.transit_recv->Some_0.reserve is None
                    && recv.reserve is None,
                TransitReserve::CleanRtt => recv.reserve == if v.clean_rtt is Some {
                    reserve
                } else {
                    None
                },
                TransitReserve::DirtyRtt => recv.reserve == if v.dirty_rtt is Some {
                    reserve
                } else {
                    None
                },
            }
        }),
{
}

/// The transit window only grows, by no more than twice at a time, and never
/// past its limit; without a clean round trip it keeps its size.
pub proof fn transit_windows_grow_within_bounds(
    recv: TransitRecv,
    ceiling: Option<u32>,
    rtt: Option<TimeSpan>,
    now: Timestamp,
)
    requires
        recv.valid(),
    ensures
        recv.current <= recv.next_size(ceiling, rtt, now) <= recv.max,
        recv.next_size(ceiling, rtt, now) <= 2 * recv.current,
        ceiling matches Some(c) ==> (c >= recv.current ==> recv.next_size(ceiling, rtt, now) <= c),
        rtt is None ==> recv.next_size(ceiling, rtt, now) == recv.current,
{
}

/// Whether enough was freed to be returned: a half of the window at least, or as
/// much as leaves no more than the reserve.
pub open spec fn worth_returning(recv: TransitRecv) -> bool {
    match recv.reserve {
        None => recv.freed > 0 && 2 * recv.freed >= recv.current,
        Some(reserve) => recv.freed > 0 && recv.current <= recv.freed + reserve,
    }
}

/// A window that limits the peer grows. Where enough came in within two clean
/// round trips of the last update to be returned, the window becomes the largest
/// that is within its limit, no more than twice as large, and no larger than
/// `ceiling` unless it was so already. So it is strictly larger wherever there is
/// room, and what is granted is what was freed together with the growth.
pub proof fn limited_peers_get_a_larger_window(
    recv: TransitRecv,
    ceiling: u32,
    rtt: TimeSpan,
    now: Timestamp,
)
    requires
        recv.valid(),
        worth_returning(recv),
        recv.last_update.nanos <= now.nanos,
        now.nanos - recv.last_update.nanos < 2 * rtt.nanos <= u128::MAX,
    ensures
        ({
            let after = recv.after_grant(Some(ceiling), Some(rtt), now);
            let grant = recv.grant(Some(ceiling), Some(rtt), now);
            &&& recv.current <= after.current <= recv.max
            &&& after.current <= 2 * recv.current
            &&& after.current <= ceiling || after.current == recv.current
            &&& after.current == recv.max || after.current == 2 * recv.current || after.current
                >= ceiling
            &&& 0 < recv.current < ceiling && recv.current < recv.max ==> after.current
                > recv.current
            &&& after.freed == 0
            &&& after.last_update == now
            &&& recv.freed + after.current - recv.current <= u32::MAX ==> grant == Some(
                (recv.freed + after.current - recv.current) as u32,
            )
        }),
{
}

/// A window that does not limit the peer keeps its size: where two clean round
/// trips or more have passed since the last update, or where no round trip or no
/// ceiling is known, exactly what was freed is returned.
pub proof fn unlimited_peers_keep_their_window(
    recv: TransitRecv,
    ceiling: Option<u32>,
    rtt: Option<TimeSpan>,
    now: Timestamp,
)
    requires
        recv.valid(),
        worth_returning(recv),
        recv.last_update.nanos <= now.nanos,
        rtt matches Some(rtt) ==> {
            &&& 2 * rtt.nanos <= u128::MAX
            &&& ceiling is None || now.nanos - recv.last_update.nanos >= 2 * rtt.nanos
        },
    ensures
        recv.grant(ceiling, rtt, now) == Some(recv.freed),
        recv.after_grant(ceiling, rtt, now) == (TransitRecv {
            freed: 0,
            last_update: now,
            ..recv
        }),
{
}

/// Credit is not returned in dribs and drabs: before enough was freed there is no
/// grant, and nothing changes.
pub proof fn little_credit_is_kept(
    recv: TransitRecv,
    ceiling: Option<u32>,
    rtt: Option<TimeSpan>,
    now: Timestamp,
)
    requires
        recv.current > 1,
        match recv.reserve {
            None => 2 * recv.freed + 1 < recv.current,
            Some(reserve) => recv.freed == 0 || recv.freed + reserve < recv.current,
        },
    ensures
        recv.grant(ceiling, rtt, now) is None,
        recv.after_grant(ceiling, rtt, now) == recv,
{
}

/// Every byte that is received is freed once, whenever it comes, and nothing else
/// about the window's size changes by it.
pub proof fn received_bytes_are_freed(
    recv: TransitRecv,
    len: int,
    rtt: Option<TimeSpan>,
    now: Timestamp,
)
    requires
        0 <= len,
    ensures
        ({
            let after = recv.after_freed(len, rtt, now);
            &&& recv.freed + len <= u32::MAX ==> after.freed == recv.freed + len
            &&& recv.freed + len > u32::MAX ==> after.freed == u32::MAX
            &&& after.current == recv.current && after.max == recv.max && after.reserve
                == recv.reserve && after.last_update == recv.last_update
        }),
{
}

/// The arrival rate is measured over all that arrives: bytes are kept until a
/// sample carries them off, together with the time that they took since the last
/// sample. A sample is taken once two round trips have passed, ten milliseconds
/// at least, and not before; without a round trip, after ten milliseconds.
pub proof fn rate_samples_cover_all_that_arrives(
    recv: TransitRecv,
    len: int,
    rtt: Option<TimeSpan>,
    now: Timestamp,
)
    requires
        0 <= len <= u32::MAX,
        recv.rate_bucket_bytes + len <= u64::MAX,
        recv.rate_bucket_start.nanos <= now.nanos,
        rtt matches Some(rtt) ==> 2 * rtt.nanos <= u128::MAX,
    ensures
        ({
            let after = recv.after_freed(len, rtt, now);
            let elapsed = now.nanos - recv.rate_bucket_start.nanos;
            let ripe = elapsed >= 10_000_000 && (rtt matches Some(rtt) ==> elapsed >= 2
                * rtt.nanos);
            match recv.sample(len, rtt, now) {
                Some(sample) => {
                    &&& ripe
                    &&& sample.bytes == recv.rate_bucket_bytes + len
                    &&& sample.elapsed.nanos == elapsed
                    &&& after.rate_bucket_bytes == 0
                    &&& after.rate_bucket_start == now
                },
                None => {
                    &&& !ripe
                    &&& after.rate_bucket_bytes == recv.rate_bucket_bytes + len
                    &&& after.rate_bucket_start == recv.rate_bucket_start
                },
            }
        }),
{
}

/// Payload is paid for byte by byte. Whoever has the credit may send it and has
/// that much less; whoever has not may not, and credit is all that is asked for.
pub proof fn payload_costs_what_it_weighs(
    v: TransportView,
    stream_id: StreamId,
    flags: ControlFlags,
    data: Seq<u8>,
    now: Timestamp,
)
    requires
        data.len() <= u32::MAX,
    ensures
        ({
            let frame = FrameView::Data { stream_id, flags, data };
            match v.transit_send {
                Some(credit) => {
                    &&& v.affords(frame) <==> data.len() <= credit
                    &&& v.affords(frame) ==> v.after_send(frame, now).transit_send == Some(
                        (credit - data.len()) as u32,
                    )
                },
                None => v.affords(frame) && v.after_send(frame, now).transit_send is None,
            }
        }),
{
}

/// The loaded round trip of a session is always the latest: a pong that answers
/// the plain ping in flight replaces it by the time since that ping was sent,
/// whatever it was before. The clean one is left alone.
pub proof fn answered_pings_replace_the_loaded_rtt(
    v: TransportView,
    payload: PingPayload,
    sent_at: Timestamp,
    now: Timestamp,
)
    requires
        v.valid(),
        v.probe.ping.state == (DirtyPingState::Awaiting { payload, sent_at }),
        sent_at.nanos <= now.nanos,
    ensures
        ({
            let pong = FrameView::Ping { payload, is_response: true };
            let after = v.after_frame(pong, now);
            &&& v.accepts(pong, now)
            &&& after.dirty_rtt == Some(
                MeasuredRtt {
                    value: TimeSpan { nanos: (now.nanos - sent_at.nanos) as u128 },
                    at: now,
                },
            )
            &&& after.clean_rtt == v.clean_rtt
            &&& after.probe.last_dirty is None
        }),
{
}

/// A ping that is sent is timed from when it goes out: between the request and
/// the answer the session sends it once, and once it is answered the loaded round
/// trip is the time between the two, whatever it was before.
pub proof fn pings_measure_the_loaded_rtt(
    v: TransportView,
    payload: PingPayload,
    fresh: PingPayload,
    ceiling: Option<u32>,
    t0: Timestamp,
    t1: Timestamp,
)
    requires
        at_rest(v.probe),
        !v.term_sent,
        t0.nanos <= t1.nanos,
    ensures
        ({
            let requested = TransportView {
                probe: ProbeView {
                    ping: DirtyPingView {
                        state: DirtyPingState::Queued { payload },
                        ..v.probe.ping
                    },
                    ..v.probe
                },
                ..v
            };
            let sent = requested.after_own_frame(ceiling, t0, fresh);
            let pong = FrameView::Ping { payload, is_response: true };
            let answered = sent.after_frame(pong, t1);
            &&& requested.own_frame(ceiling, t0, fresh) == Some(
                OwnFrame::Probe(ProbeFrame::Ping(payload)),
            )
            &&& sent.accepts(pong, t1)
            &&& answered.dirty_rtt matches Some(rtt) && rtt.value.nanos == t1.nanos - t0.nanos
                && rtt.at == t1
            &&& answered.clean_rtt == v.clean_rtt
            &&& at_rest(answered.probe)
        }),
{
}

/// A probe replaces both round trips, on the side that began it and on the other:
/// the clean one by the time its own ping took over the drained link, the loaded
/// one by the time from its `CLEAR_LINK` - or from the peer's - to the answer.
pub proof fn probes_replace_both_rtts(
    i: TransportView,
    r: TransportView,
    t: Seq<Timestamp>,
    p: PingPayload,
    q: PingPayload,
)
    requires
        at_rest(i.probe),
        at_rest(r.probe),
        !i.term_sent,
        !r.term_sent,
        t.len() == 8,
        forall|a: int, b: int| 0 <= a <= b < 8 ==> t[a].nanos <= t[b].nanos,
        !i.probe.ping.forgotten.contains(p),
        !r.probe.ping.forgotten.contains(q),
    ensures
        ({
            let ping = |payload: PingPayload, is_response: bool| FrameView::Ping {
                payload,
                is_response,
            };
            let i0 = TransportView {
                probe: i.probe.begun(true, AfterClear::AwaitClear { collided: false }),
                ..i
            };
            let i1 = i0.after_own_frame(None, t[0], p);
            let r1 = r.after_frame(FrameView::ClearLink { syn: true }, t[1]);
            let r2 = r1.after_own_frame(None, t[1], q);
            let i2 = i1.after_frame(FrameView::ClearLink { syn: false }, t[2]);
            let i3 = i2.after_own_frame(None, t[3], p);
            let r3 = r2.after_frame(ping(p, false), t[4]);
            let r4 = r3.after_own_frame(None, t[5], q).after_own_frame(None, t[5], q);
            let i4 = i3.after_frame(ping(p, true), t[6]).after_frame(ping(q, false), t[6]);
            let r5 = r4.after_frame(ping(q, true), t[7]);
            &&& i4.clean_rtt matches Some(rtt) && rtt.value.nanos == t[6].nanos - t[3].nanos
                && rtt.at == t[6]
            &&& i4.dirty_rtt matches Some(rtt) && rtt.value.nanos == t[2].nanos - t[0].nanos
                && rtt.at == t[6]
            &&& r5.clean_rtt matches Some(rtt) && rtt.value.nanos == t[7].nanos - t[5].nanos
                && rtt.at == t[7]
            &&& r5.dirty_rtt matches Some(rtt) && rtt.value.nanos == t[4].nanos - t[1].nanos
                && rtt.at == t[4]
            &&& i4.unblocked && r4.unblocked
        }),
{
    let i0 = TransportView {
        probe: i.probe.begun(true, AfterClear::AwaitClear { collided: false }),
        ..i
    };
    let i1 = i0.after_own_frame(None, t[0], p);
    let i2 = i1.after_frame(FrameView::ClearLink { syn: false }, t[2]);
    let i3 = i2.after_own_frame(None, t[3], p);
    assert(i3.probe.state == ProbeState::AwaitPong {
        payload: p,
        sent_at: t[3],
        resumed: false,
        peer_pinged: false,
        rtt: None,
        opening: false,
    });
    let r1 = r.after_frame(FrameView::ClearLink { syn: true }, t[1]);
    let r2 = r1.after_own_frame(None, t[1], q);
    let r3 = r2.after_frame(FrameView::Ping { payload: p, is_response: false }, t[4]);
    let r4 = r3.after_own_frame(None, t[5], q).after_own_frame(None, t[5], q);
    assert(r4.probe.state == ProbeState::AwaitPong {
        payload: q,
        sent_at: t[5],
        resumed: true,
        peer_pinged: true,
        rtt: None,
        opening: false,
    });
}

/// The sender's side of the same accounts: sending costs exactly the payload,
/// and a grant adds exactly its value.
pub proof fn send_budget_follows_payload_and_grants(
    v: TransportView,
    frame: FrameView,
    update: u32,
    now: Timestamp,
)
    requires
        v.transit_send is Some,
    ensures
        v.affords(frame) ==> v.after_send(frame, now).transit_send == Some(
            (v.transit_send->Some_0 - TransportView::cost(frame)) as u32,
        ),
        ({
            let grant = FrameView::SessionWindowUpdate { update };
            v.accepts(grant, now) ==> v.after_frame(grant, now).transit_send == Some(
                (v.transit_send->Some_0 + update) as u32,
            )
        }),
{
}

/// Window updates cost no transit credit.
pub proof fn window_updates_are_free(v: TransportView, frame: FrameView, now: Timestamp)
    requires
        frame is WindowUpdate,
    ensures
        v.affords(frame),
        v.after_send(frame, now) == v,
{
}

/// While a probe holds the link, the transport itself sends nothing but probe
/// frames, and past its own `TERM` it sends nothing at all.
pub proof fn own_frames_respect_the_pause_and_the_end(
    v: TransportView,
    ceiling: Option<u32>,
    now: Timestamp,
    fresh: PingPayload,
)
    ensures
        v.probe.paused() && v.own_frame(ceiling, now, fresh) is Some ==> v.own_frame(
            ceiling,
            now,
            fresh,
        )->Some_0 is Probe,
        v.term_sent ==> v.own_frame(ceiling, now, fresh) is None && v.after_own_frame(
            ceiling,
            now,
            fresh,
        ) == v,
{
}

/// A session that opens measures itself: once both pings are answered, the
/// sample stands both as the clean and as the loaded round trip, nothing was
/// surfaced, and stream frames flow.
pub proof fn opening_fills_in_both_samples(
    v: TransportView,
    role: RammuxRole,
    t: Seq<Timestamp>,
    p: PingPayload,
    q: PingPayload,
)
    requires
        v.probe == ProbeView::opening(role),
        v.dirty_rtt is None,
        !v.term_sent,
        t.len() == 4,
    ensures
        ({
            let v1 = v.after_own_frame(None, t[0], p);
            let v2 = v1.after_frame(FrameView::Ping { payload: q, is_response: false }, t[1]);
            let v3 = v2.after_own_frame(None, t[2], p);
            let v4 = v3.after_frame(FrameView::Ping { payload: p, is_response: true }, t[3]);
            let sample = MeasuredRtt { value: span(t[0], t[3]), at: t[3] };
            &&& v.own_frame(None, t[0], p)->Some_0.frame() == FrameView::Ping {
                payload: p,
                is_response: false,
            }
            &&& v1.accepts(FrameView::Ping { payload: q, is_response: false }, t[1])
            &&& v2.own_frame(None, t[2], p)->Some_0.frame() == FrameView::Ping {
                payload: q,
                is_response: true,
            }
            &&& v3.accepts(FrameView::Ping { payload: p, is_response: true }, t[3])
            &&& v4.clean_rtt == Some(sample)
            &&& v4.dirty_rtt == Some(sample)
            &&& at_rest(v4.probe)
            &&& v.probe.paused() && v2.probe.paused() && !v3.probe.paused()
            &&& v3.unblocked
        }),
{
}

/// A stall is counted once, from the pass that found the budget spent to the
/// grant or the payload that ended it.
pub proof fn stalls_are_timed(v: TransportView, t0: Timestamp, t1: Timestamp, t2: Timestamp)
    requires
        v.stalled_since is None,
        v.stalled_events < u64::MAX,
        v.stalled_total.nanos + span(t0, t2).nanos <= u128::MAX,
    ensures
        ({
            let stalled = v.passed(true, t0).passed(true, t1);
            let over = stalled.passed(false, t2);
            &&& stalled == v.passed(true, t0)
            &&& over.stalled_since is None
            &&& over.stalled_events == v.stalled_events + 1
            &&& over.stalled_total.nanos == v.stalled_total.nanos + span(t0, t2).nanos
        }),
{
}

} // verus!
