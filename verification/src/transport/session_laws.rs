//! What each call on a transport comes to.

use vstd::prelude::*;

use super::frame::StreamFrame;
use super::laws::worth_returning;
use super::transit_recv::{RateSample, TransitRecv};
use super::{Inbound, MeasuredRtt, OwnFrame, SendGate, Transport, TransportView};
use crate::codec::decoder::{DecodedFrame, FrameView};
use crate::codec::encoder::EncoderItem;
use crate::config::{RammuxConfig, RammuxRole, TransitReserve};
use crate::error::ErrorKind;
use crate::header::PingPayload;
use crate::probe::{DirtyPingState, Probe, ProbeDone, ProbeEvent, ProbeFrame, ProbeView};
use crate::time::{TimeSpan, Timestamp};

verus! {

/// A window starts at the size that it was given, with nothing to return, and may
/// grow up to its limit, which is no smaller.
pub proof fn windows_start_as_given(initial: u32, max: u32, now: Timestamp, r: TransitRecv)
    requires
        call_ensures(TransitRecv::new, (initial, max, now), r),
    ensures
        r.current == initial,
        r.freed == 0,
        r.max >= initial && r.max >= max && (r.max == initial || r.max == max),
        r.reserve is None,
        r.rate_bucket_bytes == 0,
        r.rate_bucket_start == now,
        r.last_update == now,
{
}

/// A peer that its window limits is granted a larger one. Where enough came in
/// within two clean round trips of the last update to be returned, the window
/// becomes twice as large, as far as its limit and the ceiling let it, and it
/// never becomes smaller. The grant is what was freed together with the growth.
pub proof fn limited_peers_are_granted_more(
    recv: &mut TransitRecv,
    ceiling: u32,
    rtt: TimeSpan,
    now: Timestamp,
    r: Option<u32>,
)
    requires
        recv.valid(),
        worth_returning(*recv),
        recv.last_update.nanos <= now.nanos,
        now.nanos - recv.last_update.nanos < 2 * rtt.nanos <= u128::MAX,
        call_ensures(TransitRecv::take_grant, (recv, Some(ceiling), Some(rtt), now), r),
    ensures
        ({
            let before = *old(recv);
            let after = *final(recv);
            let doubled = 2 * before.current;
            let target = if doubled <= ceiling {
                doubled
            } else {
                ceiling as int
            };
            let wanted = if target >= before.current {
                target
            } else {
                before.current as int
            };
            &&& after.current == if wanted <= before.max {
                wanted
            } else {
                before.max as int
            }
            &&& 0 < before.current < ceiling && before.current < before.max ==> after.current
                > before.current
            &&& r matches Some(update) && (before.freed + after.current - before.current
                <= u32::MAX ==> update == before.freed + after.current - before.current)
            &&& after.freed == 0
            &&& after.last_update == now
            &&& after.max == before.max && after.reserve == before.reserve
                && after.rate_bucket_start == before.rate_bucket_start
                && after.rate_bucket_bytes == before.rate_bucket_bytes
        }),
{
}

/// A peer that its window does not limit keeps it, and is granted what was freed:
/// where two clean round trips or more have passed since the last update, or no
/// round trip or no ceiling is known.
pub proof fn other_peers_are_granted_what_was_freed(
    recv: &mut TransitRecv,
    ceiling: Option<u32>,
    rtt: Option<TimeSpan>,
    now: Timestamp,
    r: Option<u32>,
)
    requires
        recv.valid(),
        worth_returning(*recv),
        recv.last_update.nanos <= now.nanos,
        rtt matches Some(rtt) ==> {
            &&& 2 * rtt.nanos <= u128::MAX
            &&& ceiling is None || now.nanos - recv.last_update.nanos >= 2 * rtt.nanos
        },
        call_ensures(TransitRecv::take_grant, (recv, ceiling, rtt, now), r),
    ensures
        r == Some(old(recv).freed),
        *final(recv) == (TransitRecv { freed: 0, last_update: now, ..*old(recv) }),
{
}

/// Credit is not returned in dribs and drabs: before half of the window was freed,
/// or all but the reserve, there is no grant and nothing changes. Whether there is
/// one can be asked.
pub proof fn little_credit_is_not_granted(
    recv: &mut TransitRecv,
    ceiling: Option<u32>,
    rtt: Option<TimeSpan>,
    now: Timestamp,
    r: Option<u32>,
    due: bool,
)
    requires
        recv.valid(),
        call_ensures(TransitRecv::can_update, (&*old(recv),), due),
        call_ensures(TransitRecv::take_grant, (recv, ceiling, rtt, now), r),
    ensures
        due <==> match old(recv).reserve {
            None => 2 * old(recv).freed + 1 >= old(recv).current,
            Some(reserve) => old(recv).freed > 0 && old(recv).current <= old(recv).freed + reserve,
        },
        !due ==> r is None && *final(recv) == *old(recv),
        due && old(recv).freed > 0 ==> r is Some,
        r matches Some(update) ==> update > 0,
{
}

/// Every byte that is received is freed, and counts towards the arrival rate until
/// a sample carries it off. A sample covers the time since the last one; it comes
/// once that is two round trips and ten milliseconds, and not before.
pub proof fn received_bytes_are_freed_and_sampled(
    recv: &mut TransitRecv,
    len: usize,
    rtt: Option<TimeSpan>,
    now: Timestamp,
    r: Option<RateSample>,
)
    requires
        recv.valid(),
        recv.freed + len <= u32::MAX,
        recv.rate_bucket_bytes + len <= u64::MAX,
        recv.rate_bucket_start.nanos <= now.nanos,
        rtt matches Some(rtt) ==> 2 * rtt.nanos <= u128::MAX,
        call_ensures(TransitRecv::note_freed, (recv, len, rtt, now), r),
    ensures
        ({
            let before = *old(recv);
            let after = *final(recv);
            let elapsed = now.nanos - before.rate_bucket_start.nanos;
            let ripe = elapsed >= 10_000_000 && (rtt matches Some(rtt) ==> elapsed >= 2
                * rtt.nanos);
            &&& after.freed == before.freed + len
            &&& after.current == before.current && after.max == before.max && after.reserve
                == before.reserve && after.last_update == before.last_update
            &&& r is Some <==> ripe
            &&& r matches Some(sample) ==> {
                &&& sample.bytes == before.rate_bucket_bytes + len
                &&& sample.elapsed.nanos == elapsed
                &&& after.rate_bucket_bytes == 0
                &&& after.rate_bucket_start == now
            }
            &&& r is None ==> {
                &&& after.rate_bucket_bytes == before.rate_bucket_bytes + len
                &&& after.rate_bucket_start == before.rate_bucket_start
            }
        }),
{
}

/// A transport starts with the opening exchange, no sample, and transit windows
/// where they are enabled: a window of zero bytes is none.
pub proof fn transports_start_as_configured(
    role: RammuxRole,
    config: &RammuxConfig,
    now: Timestamp,
    r: Transport,
    probe: Probe,
)
    requires
        call_ensures(Transport::new, (role, config, now), r),
        call_ensures(Probe::new, (role,), probe),
    ensures
        r@.probe == probe@,
        r@.clean_rtt is None,
        r@.dirty_rtt is None,
        !r@.terminated && !r@.term_sent && !r@.unblocked,
        r@.held is None,
        r@.stalled_since is None && r@.stalled_total.nanos == 0 && r@.stalled_events == 0,
        r@.update_reserve == config.transit_update_reserve,
        r@.transit_send == if config.remote_transit_window == 0 {
            None
        } else {
            Some(config.remote_transit_window)
        },
        config.local_transit_window == 0 <==> r@.transit_recv is None,
        r@.transit_recv matches Some(recv) ==> {
            &&& recv.current == config.local_transit_window
            &&& recv.max >= config.local_transit_window
            &&& recv.max == config.transit_window_max || recv.max == config.local_transit_window
            &&& recv.max >= config.transit_window_max
            &&& recv.freed == 0 && recv.reserve is None
        },
{
}

/// A ping, a probe, and giving up on a ping are up to the machinery, except that
/// nothing is begun once the peer has ended the session.
pub proof fn measurements_are_up_to_the_machinery(
    transport: &mut Transport,
    payload: PingPayload,
    pinged: bool,
    probe: &mut Probe,
    queued: bool,
    second: &mut Transport,
    probed: bool,
    probe_two: &mut Probe,
    started: bool,
    third: &mut Transport,
    gave_up: bool,
    probe_three: &mut Probe,
    abandoned: bool,
)
    requires
        transport@.valid() && second@.valid() && third@.valid(),
        *probe == transport.probe,
        *probe_two == second.probe,
        *probe_three == third.probe,
        call_ensures(Transport::init_ping, (transport, payload), pinged),
        call_ensures(Probe::send_ping, (probe, payload), queued),
        call_ensures(Transport::init_probe, (second,), probed),
        call_ensures(Probe::start, (probe_two,), started),
        call_ensures(Transport::abandon_ping, (third,), gave_up),
        call_ensures(Probe::give_up_ping, (probe_three,), abandoned),
    ensures
        old(transport)@.terminated ==> !pinged && final(transport)@ == old(transport)@,
        !old(transport)@.terminated ==> pinged == queued && final(transport)@ == (TransportView {
            probe: final(probe)@,
            ..old(transport)@
        }),
        old(second)@.terminated ==> !probed && final(second)@ == old(second)@,
        !old(second)@.terminated ==> probed == started && final(second)@ == (TransportView {
            probe: final(probe_two)@,
            ..old(second)@
        }),
        gave_up == abandoned,
        final(third)@ == (TransportView { probe: final(probe_three)@, ..old(third)@ }),
{
}

/// The latest samples, the budget, the granted window and the end of the session
/// are reported as they are, and events in order.
pub proof fn transports_report_what_they_hold(
    transport: &Transport,
    clean: Option<MeasuredRtt>,
    dirty: Option<MeasuredRtt>,
    budget: Option<u32>,
    window: Option<u32>,
    ended: bool,
    other: &mut Transport,
    event: Option<ProbeEvent>,
)
    requires
        call_ensures(Transport::clean_rtt, (transport,), clean),
        call_ensures(Transport::dirty_rtt, (transport,), dirty),
        call_ensures(Transport::send_budget, (transport,), budget),
        call_ensures(Transport::transit_window, (transport,), window),
        call_ensures(Transport::terminated, (transport,), ended),
        other@.valid(),
        call_ensures(Transport::next_event, (other,), event),
    ensures
        clean == transport@.clean_rtt,
        dirty == transport@.dirty_rtt,
        budget == transport@.transit_send,
        window is Some <==> transport@.transit_recv is Some,
        transport@.transit_recv matches Some(recv) ==> window == Some(recv.current),
        ended == transport@.terminated,
        match event {
            Some(event) => seq![event] + final(other)@.probe.events == old(other)@.probe.events,
            None => old(other)@.probe.events.len() == 0 && final(other)@.probe.events.len() == 0,
        },
        final(other)@ == (TransportView {
            probe: ProbeView { events: final(other)@.probe.events, ..old(other)@.probe },
            ..old(other)@
        }),
{
    let events = old(other)@.probe.events;
    if events.len() > 0 {
        assert(seq![events[0]] + events.drop_first() =~= events);
    }
}

/// The signal to a held-back sender is given once.
pub proof fn senders_are_unblocked_once(
    transport: &mut Transport,
    r: bool,
    second: &mut Transport,
    again: bool,
)
    requires
        transport@.valid(),
        *second == *final(transport),
        call_ensures(Transport::take_unblocked, (transport,), r),
        call_ensures(Transport::take_unblocked, (second,), again),
    ensures
        r == old(transport)@.unblocked,
        !again,
        final(transport)@ == (TransportView { unblocked: false, ..old(transport)@ }),
        final(second)@ == final(transport)@,
{
}

/// A stall begins with the first pass that found the budget spent and ends with
/// the first that did not. It counts once, and its whole time is added up; while
/// it lasts, what it has lasted is part of the total.
pub proof fn stalls_are_added_up(
    transport: &mut Transport,
    blocked: bool,
    now: Timestamp,
    other: &Transport,
    stalls: (TimeSpan, u64),
)
    requires
        transport@.valid(),
        call_ensures(Transport::note_send_pass, (transport, blocked, now), ()),
        call_ensures(Transport::transit_stalls, (other, now), stalls),
        transport@.stalled_events < u64::MAX,
        transport@.stalled_since matches Some(at) ==> at.nanos <= now.nanos
            && transport@.stalled_total.nanos + now.nanos - at.nanos <= u128::MAX,
        other@.stalled_since matches Some(at) ==> at.nanos <= now.nanos
            && other@.stalled_total.nanos + now.nanos - at.nanos <= u128::MAX,
    ensures
        ({
            let before = old(transport)@;
            let after = final(transport)@;
            match before.stalled_since {
                None => if blocked {
                    after == (TransportView {
                        stalled_since: Some(now),
                        stalled_events: (before.stalled_events + 1) as u64,
                        ..before
                    })
                } else {
                    after == before
                },
                Some(at) => if blocked {
                    after == before
                } else {
                    after == (TransportView {
                        stalled_since: None,
                        stalled_total: TimeSpan {
                            nanos: (before.stalled_total.nanos + now.nanos - at.nanos) as u128,
                        },
                        ..before
                    })
                },
            }
        }),
        stalls.0.nanos == other@.stalled_total.nanos + match other@.stalled_since {
            Some(at) => now.nanos - at.nanos,
            None => 0,
        },
        stalls.1 == other@.stalled_events,
{
}

/// Credit is reserved for the round trip that the configuration names, once there
/// is a sample of it.
pub proof fn reserves_follow_the_configuration(
    transport: &Transport,
    rtt: Option<TimeSpan>,
    other: &mut Transport,
    reserve: Option<u32>,
)
    requires
        call_ensures(Transport::reserve_rtt, (transport,), rtt),
        other@.valid(),
        call_ensures(Transport::set_transit_reserve, (other, reserve), ()),
    ensures
        match transport@.update_reserve {
            TransitReserve::HalfWindow => rtt is None,
            TransitReserve::CleanRtt => match transport@.clean_rtt {
                Some(sample) => rtt == Some(sample.value),
                None => rtt is None,
            },
            TransitReserve::DirtyRtt => match transport@.dirty_rtt {
                Some(sample) => rtt == Some(sample.value),
                None => rtt is None,
            },
        },
        match old(other)@.transit_recv {
            None => final(other)@ == old(other)@,
            Some(recv) => {
                let counts = match old(other)@.update_reserve {
                    TransitReserve::HalfWindow => false,
                    TransitReserve::CleanRtt => old(other)@.clean_rtt is Some,
                    TransitReserve::DirtyRtt => old(other)@.dirty_rtt is Some,
                };
                final(other)@ == (TransportView {
                    transit_recv: Some(
                        TransitRecv {
                            reserve: if counts {
                                reserve
                            } else {
                                None
                            },
                            ..recv
                        },
                    ),
                    ..old(other)@
                })
            },
        },
{
}

/// The machinery's frames go first; then credit goes back, unless a probe holds the
/// link or the peer has ended the session. Nothing goes behind our `TERM`.
pub proof fn own_frames_go_in_order(
    transport: &mut Transport,
    ceiling: Option<u32>,
    now: Timestamp,
    fresh: PingPayload,
    r: Option<OwnFrame>,
    probe: &mut Probe,
    next: Option<(ProbeFrame, bool)>,
    paused: bool,
    recv: &mut TransitRecv,
    rtt: Option<TimeSpan>,
    grant: Option<u32>,
)
    requires
        transport@.valid(),
        *probe == transport.probe,
        call_ensures(Transport::next_own_frame, (transport, ceiling, now, fresh), r),
        call_ensures(Probe::next_frame, (probe, now, fresh), next),
        call_ensures(Probe::paused, (&old(transport).probe,), paused),
        transport.transit_recv matches Some(held) ==> held == *recv,
        transport.clean_rtt is None <==> rtt is None,
        transport.clean_rtt matches Some(sample) ==> rtt == Some(sample.value),
        call_ensures(TransitRecv::take_grant, (recv, ceiling, rtt, now), grant),
    ensures
        ({
            let before = old(transport)@;
            let after = final(transport)@;
            if before.term_sent {
                r is None && after == before
            } else {
                match next {
                    Some((frame, resume)) => {
                        &&& r == Some(OwnFrame::Probe(frame))
                        &&& after == (TransportView {
                            probe: final(probe)@,
                            unblocked: before.unblocked || resume,
                            ..before
                        })
                    },
                    None => if before.terminated || paused || before.transit_recv is None {
                        r is None && after == before
                    } else {
                        &&& r == match grant {
                            Some(update) => Some(OwnFrame::SessionWindowUpdate(update)),
                            None => None,
                        }
                        &&& after == (TransportView {
                            transit_recv: Some(*final(recv)),
                            ..before
                        })
                    },
                }
            }
        }),
{
}

/// What the machinery measured is taken over with the frame that brought it: a
/// loaded sample replaces the one before it, whatever that was, and a completed
/// exchange replaces the clean one. The opening stands for both. A sender that was
/// held back is told if data resumes.
pub open spec fn took_over(
    before: TransportView,
    after: TransportView,
    probe: ProbeView,
    done: Option<ProbeDone>,
    now: Timestamp,
) -> bool {
    &&& after == (TransportView {
        probe: ProbeView { last_dirty: None, ..probe },
        dirty_rtt: after.dirty_rtt,
        clean_rtt: after.clean_rtt,
        unblocked: after.unblocked,
        ..before
    })
    &&& probe.last_dirty matches Some(value) ==> after.dirty_rtt == Some(
        MeasuredRtt { value, at: now },
    )
    &&& probe.last_dirty is None && before.dirty_rtt is Some ==> after.dirty_rtt
        == before.dirty_rtt
    &&& probe.last_dirty is None && before.dirty_rtt is None && done is None
        ==> after.dirty_rtt is None
    &&& match done {
        Some(done) => {
            &&& after.clean_rtt == Some(MeasuredRtt { value: done.rtt, at: now })
            &&& probe.last_dirty is None && before.dirty_rtt is None ==> after.dirty_rtt
                == after.clean_rtt
            &&& after.unblocked <==> before.unblocked || done.resume
        },
        None => after.clean_rtt == before.clean_rtt && after.unblocked == before.unblocked,
    }
}

/// A pong is for the machinery, and what comes of it is taken over.
pub proof fn pongs_are_measured(
    transport: &mut Transport,
    frame: DecodedFrame,
    payload: PingPayload,
    now: Timestamp,
    r: Result<Inbound, ErrorKind>,
    probe: &mut Probe,
    done: Result<Option<ProbeDone>, ErrorKind>,
)
    requires
        transport@.valid(),
        frame@ == (FrameView::Ping { payload, is_response: true }),
        *probe == transport.probe,
        call_ensures(Transport::on_frame, (transport, frame, now), r),
        call_ensures(Probe::on_pong, (probe, payload, now), done),
    ensures
        r is Ok <==> done is Ok,
        r matches Ok(inbound) ==> inbound is Absorbed,
        r matches Err(error) ==> error == ErrorKind::UnexpectedPing(payload) && final(transport)@
            == old(transport)@,
        done matches Ok(done) ==> took_over(
            old(transport)@,
            final(transport)@,
            final(probe)@,
            done,
            now,
        ),
{
}

/// The plain ping in flight that is answered at `now` replaces the loaded round trip
/// by the time since it went out, whatever that was before, and leaves the clean
/// one alone.
pub proof fn answered_pings_are_the_loaded_rtt(
    transport: &mut Transport,
    frame: DecodedFrame,
    payload: PingPayload,
    sent_at: Timestamp,
    now: Timestamp,
    r: Result<Inbound, ErrorKind>,
)
    requires
        transport@.valid(),
        frame@ == (FrameView::Ping { payload, is_response: true }),
        transport@.probe.ping.state == (DirtyPingState::Awaiting { payload, sent_at }),
        sent_at.nanos <= now.nanos,
        call_ensures(Transport::on_frame, (transport, frame, now), r),
    ensures
        r is Ok,
        final(transport)@.dirty_rtt matches Some(sample) && sample.value.nanos == now.nanos
            - sent_at.nanos && sample.at == now,
        final(transport)@.clean_rtt == old(transport)@.clean_rtt,
        final(transport)@.probe.ping.state is Idle,
        final(transport)@.probe.last_dirty is None,
{
}

/// A ping is for the machinery, and what comes of it is taken over.
pub proof fn pings_are_answered(
    transport: &mut Transport,
    frame: DecodedFrame,
    payload: PingPayload,
    now: Timestamp,
    r: Result<Inbound, ErrorKind>,
    probe: &mut Probe,
    done: Result<Option<ProbeDone>, ErrorKind>,
)
    requires
        transport@.valid(),
        frame@ == (FrameView::Ping { payload, is_response: false }),
        *probe == transport.probe,
        call_ensures(Transport::on_frame, (transport, frame, now), r),
        call_ensures(Probe::on_ping, (probe, payload, now), done),
    ensures
        r is Ok <==> done is Ok,
        r matches Ok(inbound) ==> inbound is Absorbed,
        r matches Err(error) ==> error == ErrorKind::UnexpectedPing(payload) && final(transport)@
            == old(transport)@,
        done matches Ok(done) ==> took_over(
            old(transport)@,
            final(transport)@,
            final(probe)@,
            done,
            now,
        ),
{
}

/// A `CLEAR_LINK` is for the machinery.
pub proof fn barriers_are_for_the_machinery(
    transport: &mut Transport,
    frame: DecodedFrame,
    syn: bool,
    now: Timestamp,
    r: Result<Inbound, ErrorKind>,
    probe: &mut Probe,
    done: Result<(), ErrorKind>,
)
    requires
        transport@.valid(),
        frame@ == (FrameView::ClearLink { syn }),
        *probe == transport.probe,
        call_ensures(Transport::on_frame, (transport, frame, now), r),
        call_ensures(Probe::on_clear_link, (probe, syn, now), done),
    ensures
        r is Ok <==> done is Ok,
        r matches Ok(inbound) ==> inbound is Absorbed,
        r matches Err(ErrorKind::Probe(message)) ==> (done matches Err(ErrorKind::Probe(same))
            && message@ == same@),
        r matches Err(error) ==> error is Probe,
        final(transport)@ == (TransportView { probe: final(probe)@, ..old(transport)@ }),
{
}

/// The peer's `TERM` ends the session, and with it whatever a sender waits for.
pub proof fn terms_end_the_session(
    transport: &mut Transport,
    frame: DecodedFrame,
    now: Timestamp,
    r: Result<Inbound, ErrorKind>,
)
    requires
        transport@.valid(),
        frame@ is Terminate,
        call_ensures(Transport::on_frame, (transport, frame, now), r),
    ensures
        r matches Ok(Inbound::Terminated),
        final(transport)@ == (TransportView {
            terminated: true,
            unblocked: true,
            ..old(transport)@
        }),
{
}

/// Session credit adds to the budget. It is refused where the peer has to be
/// silent, where there is no budget, and where it would overflow. Where it is more
/// than none it ends a stall, and a sender that was held back is told.
pub proof fn session_credit_adds_to_the_budget(
    transport: &mut Transport,
    frame: DecodedFrame,
    update: u32,
    now: Timestamp,
    r: Result<Inbound, ErrorKind>,
    silent: bool,
)
    requires
        transport@.valid(),
        frame@ == (FrameView::SessionWindowUpdate { update }),
        call_ensures(Transport::on_frame, (transport, frame, now), r),
        call_ensures(Probe::peer_must_be_silent, (&old(transport).probe,), silent),
        transport@.stalled_since matches Some(at) ==> at.nanos <= now.nanos
            && transport@.stalled_total.nanos + now.nanos - at.nanos <= u128::MAX,
    ensures
        ({
            let before = old(transport)@;
            let after = final(transport)@;
            let fits = before.transit_send matches Some(credit) && credit + update <= u32::MAX;
            &&& r is Ok <==> !silent && fits
            &&& r matches Ok(inbound) ==> inbound is Absorbed
            &&& r is Err ==> after == before
            &&& r matches Err(error) ==> if silent {
                error matches ErrorKind::Probe(message) && message@
                    == "received a non-probe frame while the link is being cleared"@
            } else if before.transit_send is None {
                error matches ErrorKind::Transit(message) && message@
                    == "transit window is not enabled"@
            } else {
                error matches ErrorKind::Transit(message) && message@ == "transit window overflow"@
            }
            &&& r is Ok ==> {
                &&& before.transit_send matches Some(credit) && after.transit_send == Some(
                    (credit + update) as u32,
                )
                &&& after == (TransportView {
                    transit_send: after.transit_send,
                    stalled_since: after.stalled_since,
                    stalled_total: after.stalled_total,
                    unblocked: before.unblocked || update > 0,
                    ..before
                })
                &&& match before.stalled_since {
                    Some(at) if update > 0 => {
                        &&& after.stalled_since is None
                        &&& after.stalled_total.nanos == before.stalled_total.nanos + now.nanos
                            - at.nanos
                    },
                    _ => {
                        &&& after.stalled_since == before.stalled_since
                        &&& after.stalled_total == before.stalled_total
                    },
                }
            }
        }),
{
}

/// Stream frames are handed on as they are, unless the peer has to be silent. The
/// payload of `DATA` is freed as soon as it is here.
pub proof fn stream_frames_are_handed_on(
    transport: &mut Transport,
    frame: DecodedFrame,
    now: Timestamp,
    r: Result<Inbound, ErrorKind>,
    silent: bool,
)
    requires
        transport@.valid(),
        frame@ is Data || frame@ is WindowUpdate,
        call_ensures(Transport::on_frame, (transport, frame, now), r),
        call_ensures(Probe::peer_must_be_silent, (&old(transport).probe,), silent),
    ensures
        ({
            let before = old(transport)@;
            let after = final(transport)@;
            &&& r is Ok <==> !silent
            &&& r matches Err(error) ==> after == before && (error matches ErrorKind::Probe(message)
                && message@ == "received a non-probe frame while the link is being cleared"@)
            &&& r matches Ok(inbound) ==> {
                &&& inbound matches Inbound::Frame(out, sample) && out@ == frame@ && (
                frame@ is WindowUpdate ==> sample is None)
                &&& after == (TransportView { transit_recv: after.transit_recv, ..before })
                &&& frame@ is WindowUpdate ==> after == before
                &&& frame@ matches FrameView::Data { data, .. } ==> match (
                    before.transit_recv,
                    after.transit_recv,
                ) {
                    (Some(recv), Some(freed)) => {
                        &&& recv.freed + data.len() <= u32::MAX ==> freed.freed == recv.freed
                            + data.len()
                        &&& freed.current == recv.current
                    },
                    (None, None) => true,
                    _ => false,
                }
            }
        }),
{
}

/// The end of the inbound flow is a failure unless the peer has said so.
pub proof fn sudden_ends_are_failures(transport: &Transport, r: Option<ErrorKind>)
    requires
        call_ensures(Transport::on_end, (transport,), r),
    ensures
        r is None <==> transport@.terminated,
        r matches Some(error) ==> error is Io,
{
}

/// A sender is held back while a probe holds the link, unless the peer has ended
/// the session: then it takes the frame that waits for the reader, or reads.
pub proof fn senders_wait_for_the_probe(
    transport: &Transport,
    r: SendGate,
    paused: bool,
)
    requires
        call_ensures(Transport::send_gate, (transport,), r),
        call_ensures(Probe::paused, (&transport.probe,), paused),
    ensures
        r is Open <==> transport@.terminated || !paused,
        r is TakeHeld <==> !transport@.terminated && paused && transport@.held is Some,
        r is Read <==> !transport@.terminated && paused && transport@.held is None,
{
}

/// A frame that is held is the next one taken, and taken once.
pub proof fn held_frames_are_taken_once(
    transport: &mut Transport,
    frame: StreamFrame,
    second: &mut Transport,
    r: Option<StreamFrame>,
    third: &mut Transport,
    again: Option<StreamFrame>,
)
    requires
        transport@.valid(),
        *second == *final(transport),
        *third == *final(second),
        call_ensures(Transport::hold, (transport, frame), ()),
        call_ensures(Transport::take_held, (second,), r),
        call_ensures(Transport::take_held, (third,), again),
    ensures
        r matches Some(out) && out@ == frame@,
        again is None,
        final(transport)@ == (TransportView { held: Some(frame@), ..old(transport)@ }),
        final(second)@ == (TransportView { held: None, ..old(transport)@ }),
{
}

/// A frame is sent as it is. Its payload is taken off the budget, and is refused
/// where that does not hold it; payload that goes out ends a stall. Nothing is sent
/// once the peer has ended the session.
pub proof fn payload_is_taken_off_the_budget(
    transport: &mut Transport,
    frame: StreamFrame,
    now: Timestamp,
    r: Result<Option<StreamFrame>, ErrorKind>,
    weight: int,
)
    requires
        transport@.valid(),
        weight == match frame@ {
            FrameView::Data { data, .. } => data.len() as int,
            _ => 0,
        },
        weight <= u32::MAX,
        call_ensures(Transport::start_send, (transport, frame, now), r),
        transport@.stalled_since matches Some(at) ==> at.nanos <= now.nanos
            && transport@.stalled_total.nanos + now.nanos - at.nanos <= u128::MAX,
    ensures
        ({
            let before = old(transport)@;
            let after = final(transport)@;
            let lacks = before.transit_send matches Some(credit) && credit < weight;
            if before.terminated {
                r matches Ok(None) && after == before
            } else if lacks {
                &&& r matches Err(ErrorKind::Transit(message)) && message@
                    == "sent more data than the transit window allows"@
                &&& after == before
            } else {
                &&& r == Ok::<Option<StreamFrame>, ErrorKind>(Some(frame))
                &&& after == (TransportView {
                    transit_send: after.transit_send,
                    stalled_since: after.stalled_since,
                    stalled_total: after.stalled_total,
                    ..before
                })
                &&& match before.transit_send {
                    Some(credit) => after.transit_send == Some((credit - weight) as u32),
                    None => after.transit_send is None,
                }
                &&& match before.stalled_since {
                    Some(at) if weight > 0 => {
                        &&& after.stalled_since is None
                        &&& after.stalled_total.nanos == before.stalled_total.nanos + now.nanos
                            - at.nanos
                    },
                    _ => {
                        &&& after.stalled_since == before.stalled_since
                        &&& after.stalled_total == before.stalled_total
                    },
                }
            }
        }),
{
}

/// Our `TERM` is queued once, and nothing of ours goes behind it.
pub proof fn terms_are_queued_once(
    transport: &mut Transport,
    r: bool,
    second: &mut Transport,
    again: bool,
    third: &mut Transport,
    ceiling: Option<u32>,
    now: Timestamp,
    fresh: PingPayload,
    own: Option<OwnFrame>,
)
    requires
        transport@.valid(),
        *second == *final(transport),
        *third == *final(second),
        call_ensures(Transport::start_close, (transport,), r),
        call_ensures(Transport::start_close, (second,), again),
        call_ensures(Transport::next_own_frame, (third, ceiling, now, fresh), own),
    ensures
        r == !old(transport)@.term_sent,
        !again,
        own is None,
        final(transport)@ == (TransportView { term_sent: true, ..old(transport)@ }),
{
}

/// Pings and pongs have an encoding of their own; the rest is up to the driver.
pub proof fn only_pings_are_encoded(frame: OwnFrame, r: Option<EncoderItem>)
    requires
        call_ensures(OwnFrame::encode, (frame,), r),
    ensures
        r is Some <==> (frame matches OwnFrame::Probe(own) && !(own is Clear)),
{
}

} // verus!
