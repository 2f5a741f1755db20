//! What each call on the round trip machinery comes to.

use vstd::prelude::*;

use crate::config::RammuxRole;
use crate::error::ErrorKind;
use crate::header::PingPayload;
use crate::probe::{
    AfterClear, DirtyPing, DirtyPingState, DirtyPingView, DirtyPong, PingKind, Probe, ProbeDone,
    ProbeEvent, ProbeFrame, ProbeState, ProbeView,
};
use crate::time::{TimeSpan, Timestamp};

verus! {

/// The time from `from` to `to`.
pub open spec fn between(from: Timestamp, to: Timestamp) -> TimeSpan {
    TimeSpan { nanos: (to.nanos - from.nanos) as u128 }
}

/// Whether `after` is `before` with the plain ping given up: one that is on the
/// wire is announced as abandoned and its payload remembered, one that is not is
/// dropped without a word. Nothing else has changed.
pub open spec fn gave_up_ping(before: ProbeView, after: ProbeView) -> bool {
    &&& after == (ProbeView { ping: after.ping, events: after.events, ..before })
    &&& after.ping.state is Idle
    &&& match before.ping.state {
        DirtyPingState::Awaiting { payload, .. } => {
            &&& after.ping.forgotten == before.ping.forgotten.push(payload)
            &&& after.events == before.events.push(ProbeEvent::PingAbandoned)
        },
        _ => {
            &&& after.ping.forgotten == before.ping.forgotten
            &&& after.events == before.events
        },
    }
}

/// A plain ping is queued where there is none, goes out as it was asked for, and
/// is timed from there.
pub proof fn plain_pings_go_out_once(
    ping: &mut DirtyPing,
    payload: PingPayload,
    queued: bool,
    other: &mut DirtyPing,
    now: Timestamp,
    taken: Option<PingPayload>,
    fresh: DirtyPing,
)
    requires
        call_ensures(DirtyPing::new, (), fresh),
        call_ensures(DirtyPing::send, (ping, payload), queued),
        call_ensures(DirtyPing::take_frame, (other, now), taken),
    ensures
        fresh@.state is Idle && fresh@.forgotten.len() == 0,
        queued <==> old(ping)@.state is Idle,
        queued ==> final(ping)@.state == (DirtyPingState::Queued { payload }),
        !queued ==> final(ping)@ == old(ping)@,
        final(ping)@.forgotten == old(ping)@.forgotten,
        match old(other)@.state {
            DirtyPingState::Queued { payload: asked } => {
                &&& taken == Some(asked)
                &&& final(other)@.state == (DirtyPingState::Awaiting {
                    payload: asked,
                    sent_at: now,
                })
            },
            _ => taken is None && final(other)@.state == old(other)@.state,
        },
        final(other)@.forgotten == old(other)@.forgotten,
{
}

/// A pong answers the ping in flight that carries the same payload, and is worth
/// the time since that went out. Else it answers one that was given up, once for
/// each time that was; and else it is none of the plain ping's business.
pub proof fn plain_pongs_are_matched(
    ping: &mut DirtyPing,
    payload: PingPayload,
    now: Timestamp,
    r: DirtyPong,
)
    requires
        call_ensures(DirtyPing::on_pong, (ping, payload, now), r),
        ping@.state matches DirtyPingState::Awaiting { sent_at, .. } ==> sent_at.nanos <= now.nanos,
    ensures
        ({
            let before = old(ping)@;
            let after = final(ping)@;
            let ours = before.state matches DirtyPingState::Awaiting { payload: sent, .. } && sent
                == payload;
            &&& ours ==> {
                &&& before.state matches DirtyPingState::Awaiting { sent_at, .. } && r
                    == DirtyPong::Matched(between(sent_at, now))
                &&& after.state is Idle
                &&& after.forgotten == before.forgotten
            }
            &&& !ours ==> after.state == before.state
            &&& !ours && before.forgotten.contains(payload) ==> {
                &&& r is Forgotten
                &&& after.forgotten.to_multiset() == before.forgotten.to_multiset().remove(payload)
            }
            &&& !ours && !before.forgotten.contains(payload) ==> {
                &&& r is Other
                &&& after.forgotten == before.forgotten
            }
        }),
{
    let forgotten = ping@.forgotten;
    forgotten.index_of_first_ensures(payload);
    forgotten.to_multiset_ensures();
}

/// Giving up on a ping remembers its payload if it is on the wire.
pub proof fn given_up_pings_are_remembered(ping: &mut DirtyPing, r: bool)
    requires
        call_ensures(DirtyPing::abandon, (ping,), r),
    ensures
        final(ping)@.state is Idle,
        r <==> old(ping)@.state is Awaiting,
        match old(ping)@.state {
            DirtyPingState::Awaiting { payload, .. } => final(ping)@.forgotten == old(
                ping)@.forgotten.push(payload),
            _ => final(ping)@.forgotten == old(ping)@.forgotten,
        },
{
}

/// A machine starts with the opening exchange, which is announced: a ping is the
/// first thing to be sent, without any `CLEAR_LINK`.
pub proof fn machines_start_with_the_opening(role: RammuxRole, r: Probe)
    requires
        call_ensures(Probe::new, (role,), r),
    ensures
        r@.state == (ProbeState::SendPing { resume: false, peer_pinged: false, opening: true }),
        r@.pong is None,
        r@.role == role,
        r@.clear_at is None,
        r@.last_dirty is None,
        r@.ping.state is Idle,
        r@.ping.forgotten.len() == 0,
        r@.plain_pongs.len() == 0,
        r@.events == seq![ProbeEvent::ProbeStarted { initiated: true }],
{
}

/// A probe is started where none runs. It gives up the plain ping, is announced as
/// ours, and has a `CLEAR_LINK` with `SYN` to send, whose receipt it waits for.
pub proof fn probes_take_the_link(probe: &mut Probe, r: bool)
    requires
        probe@.valid(),
        call_ensures(Probe::start, (probe,), r),
    ensures
        r <==> old(probe)@.state is Idle,
        !r ==> final(probe)@ == old(probe)@,
        r ==> {
            let after = final(probe)@;
            &&& after.state == (ProbeState::SendClear {
                syn: true,
                next: AfterClear::AwaitClear { collided: false },
            })
            &&& after.events.len() > 0
            &&& after.events.last() == (ProbeEvent::ProbeStarted { initiated: true })
            &&& gave_up_ping(
                old(probe)@,
                ProbeView {
                    state: old(probe)@.state,
                    events: after.events.drop_last(),
                    ..after
                },
            )
        },
{
    if r {
        let before = old(probe)@;
        let after = final(probe)@;
        assert(after.events.drop_last() =~= before.without_ping().events);
        assert(gave_up_ping(before, before.without_ping()));
        assert((ProbeView { state: before.state, events: after.events.drop_last(), ..after })
            =~= before.without_ping());
    }
}

/// A plain ping is queued where no probe runs and none is outstanding.
pub proof fn pings_leave_probes_alone(probe: &mut Probe, payload: PingPayload, r: bool)
    requires
        probe@.valid(),
        call_ensures(Probe::send_ping, (probe, payload), r),
    ensures
        r <==> old(probe)@.state is Idle && old(probe)@.ping.state is Idle,
        !r ==> final(probe)@ == old(probe)@,
        r ==> final(probe)@.ping.state == (DirtyPingState::Queued { payload }),
        r ==> final(probe)@.ping.forgotten == old(probe)@.ping.forgotten,
        final(probe)@ == (ProbeView { ping: final(probe)@.ping, ..old(probe)@ }),
{
}

/// Giving up on the plain ping is announced if it was on the wire.
pub proof fn giving_up_is_announced(probe: &mut Probe, r: bool)
    requires
        call_ensures(Probe::give_up_ping, (probe,), r),
    ensures
        r <==> old(probe)@.ping.state is Awaiting,
        gave_up_ping(old(probe)@, final(probe)@),
{
}

/// Events are handed over one by one, the oldest first, and none is lost.
pub proof fn events_are_handed_over_in_order(probe: &mut Probe, r: Option<ProbeEvent>)
    requires
        call_ensures(Probe::next_event, (probe,), r),
    ensures
        match r {
            Some(event) => seq![event] + final(probe)@.events == old(probe)@.events,
            None => old(probe)@.events.len() == 0 && final(probe)@.events.len() == 0,
        },
        final(probe)@ == (ProbeView { events: final(probe)@.events, ..old(probe)@ }),
{
    let events = old(probe)@.events;
    if events.len() > 0 {
        assert(seq![events[0]] + events.drop_first() =~= events);
    }
}

/// The loaded sample is handed over once.
pub proof fn loaded_samples_are_taken_once(probe: &mut Probe, r: Option<TimeSpan>)
    requires
        call_ensures(Probe::take_dirty_rtt, (probe,), r),
    ensures
        r == old(probe)@.last_dirty,
        final(probe)@.last_dirty is None,
        final(probe)@ == (ProbeView { last_dirty: None, ..old(probe)@ }),
{
}

/// Data is held back from the start of an exchange until it is resumed, and the
/// peer is to be silent from its `CLEAR_LINK` until the exchange is over. The
/// opening has no `CLEAR_LINK`.
pub proof fn data_waits_while_the_link_is_cleared(
    probe: &Probe,
    running: bool,
    paused: bool,
    silent: bool,
)
    requires
        call_ensures(Probe::in_progress, (probe,), running),
        call_ensures(Probe::paused, (probe,), paused),
        call_ensures(Probe::peer_must_be_silent, (probe,), silent),
    ensures
        running <==> !(probe@.state is Idle),
        paused <==> running && !(probe@.state matches ProbeState::AwaitPong { resumed: true, .. }),
        silent ==> running,
        match probe@.state {
            ProbeState::Idle => true,
            ProbeState::SendClear { next: AfterClear::AwaitPing, .. } => silent,
            ProbeState::SendClear { next: AfterClear::AwaitClear { collided }, .. } => silent
                == collided,
            ProbeState::AwaitClear { collided } => silent == collided,
            ProbeState::AwaitPing => silent,
            ProbeState::SendPing { opening, .. } => silent == !opening,
            ProbeState::AwaitPong { opening, .. } => silent == !opening,
        },
{
}

/// A ping belongs to the dance where the dance waits for one: a responder's first,
/// or the peer's behind our own. The opening takes one at any time. A peer that has
/// cleared the link and owes us something else must not ping; any other ping is a
/// plain one.
pub proof fn pings_belong_to_the_dance_that_waits(probe: &Probe, r: PingKind)
    requires
        call_ensures(Probe::classify_ping, (probe,), r),
    ensures
        match probe@.state {
            ProbeState::Idle => r is Plain,
            ProbeState::SendClear { .. } => r is Plain,
            ProbeState::AwaitClear { collided: false } => r is Plain,
            ProbeState::AwaitClear { collided: true } => r is Illegal,
            ProbeState::AwaitPing => r is Probe,
            ProbeState::SendPing { opening: true, peer_pinged: false, .. } => r is Probe,
            ProbeState::SendPing { .. } => r is Illegal,
            ProbeState::AwaitPong { peer_pinged: false, .. } => r is Probe,
            ProbeState::AwaitPong { peer_pinged: true, .. } => r is Plain,
        },
{
}

/// A `CLEAR_LINK` with `SYN` that meets no probe begins one, which the peer has
/// initiated: it is announced so, and a receipt is to be sent. The time is noted.
/// The plain ping is given up.
pub proof fn initiations_are_answered(
    probe: &mut Probe,
    now: Timestamp,
    r: Result<(), ErrorKind>,
)
    requires
        probe@.valid(),
        probe@.state is Idle,
        call_ensures(Probe::on_clear_link, (probe, true, now), r),
    ensures
        r is Ok,
        ({
            let before = old(probe)@;
            let after = final(probe)@;
            &&& after.state == (ProbeState::SendClear { syn: false, next: AfterClear::AwaitPing })
            &&& after.clear_at == Some(now)
            &&& after.last_dirty == before.last_dirty
            &&& after.pong == before.pong
            &&& after.role == before.role
            &&& after.plain_pongs == before.plain_pongs
            &&& after.ping.state is Idle
            &&& after.events.len() > 0
            &&& after.events.last() == (ProbeEvent::ProbeStarted { initiated: false })
            &&& match before.ping.state {
                DirtyPingState::Awaiting { payload, .. } => {
                    &&& after.ping.forgotten == before.ping.forgotten.push(payload)
                    &&& after.events.drop_last() == before.events.push(ProbeEvent::PingAbandoned)
                },
                _ => {
                    &&& after.ping.forgotten == before.ping.forgotten
                    &&& after.events.drop_last() == before.events
                },
            }
        }),
{
    let before = old(probe)@;
    let after = final(probe)@;
    assert(after.events.drop_last() =~= before.without_ping().events);
}

/// A receipt that meets our initiation proves that the link is drained: a ping is
/// next, and the time since our `CLEAR_LINK` is a loaded sample. Anywhere else a
/// receipt is a fault.
pub proof fn receipts_prove_the_link_is_drained(
    probe: &mut Probe,
    now: Timestamp,
    r: Result<(), ErrorKind>,
)
    requires
        probe@.valid(),
        call_ensures(Probe::on_clear_link, (probe, false, now), r),
        probe@.clear_at matches Some(at) ==> at.nanos <= now.nanos,
    ensures
        ({
            let before = old(probe)@;
            let after = final(probe)@;
            if before.state is AwaitClear {
                &&& r is Ok
                &&& after == (ProbeView {
                    state: ProbeState::SendPing {
                        resume: false,
                        peer_pinged: false,
                        opening: false,
                    },
                    last_dirty: match before.clear_at {
                        Some(at) => Some(between(at, now)),
                        None => None,
                    },
                    ..before
                })
            } else {
                &&& r matches Err(ErrorKind::Probe(message)) && message@ == if before.state is Idle {
                    "CLEAR_LINK receipt without initiation"@
                } else {
                    "unexpected CLEAR_LINK"@
                }
                &&& gave_up_ping(before, after)
            }
        }),
{
}

/// Two initiations that cross are told apart by role: the client stays the
/// initiator and notes the collision, the server becomes the responder, with a
/// receipt to send. A second crossing, or an initiation in the midst of the dance,
/// is a fault.
pub proof fn collisions_are_settled_by_role(
    probe: &mut Probe,
    now: Timestamp,
    r: Result<(), ErrorKind>,
)
    requires
        probe@.valid(),
        !(probe@.state is Idle),
        call_ensures(Probe::on_clear_link, (probe, true, now), r),
    ensures
        ({
            let before = old(probe)@;
            let after = final(probe)@;
            let queued = before.state == (ProbeState::SendClear {
                syn: true,
                next: AfterClear::AwaitClear { collided: false },
            });
            let sent = before.state == (ProbeState::AwaitClear { collided: false });
            &&& r is Ok <==> queued || sent
            &&& r matches Err(error) ==> (error matches ErrorKind::Probe(message) && message@
                == "unexpected CLEAR_LINK"@) && after == before
            &&& r is Ok ==> after == (ProbeView { state: after.state, ..before })
            &&& r is Ok && before.role is Server ==> after.state == (ProbeState::SendClear {
                syn: false,
                next: AfterClear::AwaitPing,
            })
            &&& queued && before.role is Client ==> after.state == (ProbeState::SendClear {
                syn: true,
                next: AfterClear::AwaitClear { collided: true },
            })
            &&& sent && before.role is Client ==> after.state == (ProbeState::AwaitClear {
                collided: true,
            })
        }),
{
}

/// A plain ping is to be answered, behind those that came before it.
pub proof fn plain_pings_are_answered_in_turn(
    probe: &mut Probe,
    payload: PingPayload,
    now: Timestamp,
    r: Result<Option<ProbeDone>, ErrorKind>,
    kind: PingKind,
)
    requires
        probe@.valid(),
        call_ensures(Probe::classify_ping, (&*old(probe),), kind),
        call_ensures(Probe::on_ping, (probe, payload, now), r),
    ensures
        kind is Plain ==> {
            &&& r matches Ok(None)
            &&& final(probe)@ == (ProbeView {
                plain_pongs: old(probe)@.plain_pongs.push(payload),
                ..old(probe)@
            })
        },
        kind is Illegal ==> {
            &&& r == Err::<Option<ProbeDone>, ErrorKind>(ErrorKind::UnexpectedPing(payload))
            &&& final(probe)@ == old(probe)@
        },
{
}

/// A responder takes the ping that it waited for: it is to be answered, our own is
/// next, data resumes with that, and the time since the `CLEAR_LINK` is a loaded
/// sample.
pub proof fn responders_ping_back(
    probe: &mut Probe,
    payload: PingPayload,
    now: Timestamp,
    r: Result<Option<ProbeDone>, ErrorKind>,
)
    requires
        probe@.valid(),
        probe@.state is AwaitPing,
        probe@.pong is None,
        call_ensures(Probe::on_ping, (probe, payload, now), r),
        probe@.clear_at matches Some(at) ==> at.nanos <= now.nanos,
    ensures
        r matches Ok(None),
        final(probe)@ == (ProbeView {
            state: ProbeState::SendPing { resume: true, peer_pinged: true, opening: false },
            pong: Some(payload),
            last_dirty: match old(probe)@.clear_at {
                Some(at) => Some(between(at, now)),
                None => None,
            },
            ..old(probe)@
        }),
{
}

/// A ping of the opening that comes before ours was sent is to be answered, and
/// data resumes with our own.
pub proof fn early_openings_are_answered(
    probe: &mut Probe,
    payload: PingPayload,
    now: Timestamp,
    r: Result<Option<ProbeDone>, ErrorKind>,
    resume: bool,
)
    requires
        probe@.valid(),
        probe@.state == (ProbeState::SendPing { resume, peer_pinged: false, opening: true }),
        probe@.pong is None,
        call_ensures(Probe::on_ping, (probe, payload, now), r),
    ensures
        r matches Ok(None),
        final(probe)@ == (ProbeView {
            state: ProbeState::SendPing { resume: true, peer_pinged: true, opening: true },
            pong: Some(payload),
            ..old(probe)@
        }),
{
}

/// A ping that comes while ours is out completes the exchange where ours was
/// answered: the sample is handed over and announced, and the peer's ping is to be
/// answered. Only in the opening may it come before that.
pub proof fn exchanges_complete_with_the_last_ping(
    probe: &mut Probe,
    payload: PingPayload,
    now: Timestamp,
    r: Result<Option<ProbeDone>, ErrorKind>,
    ours: PingPayload,
    sent_at: Timestamp,
    resumed: bool,
    rtt: Option<TimeSpan>,
    opening: bool,
)
    requires
        probe@.valid(),
        probe@.state == (ProbeState::AwaitPong {
            payload: ours,
            sent_at,
            resumed,
            peer_pinged: false,
            rtt,
            opening,
        }),
        probe@.pong is None,
        call_ensures(Probe::on_ping, (probe, payload, now), r),
    ensures
        match rtt {
            Some(rtt) => {
                &&& r matches Ok(Some(done)) && done.rtt == rtt && done.resume == !resumed
                &&& final(probe)@ == (ProbeView {
                    state: ProbeState::Idle,
                    pong: Some(payload),
                    events: old(probe)@.events.push(ProbeEvent::ProbeCompleted { rtt }),
                    ..old(probe)@
                })
            },
            None => if opening {
                &&& r matches Ok(None)
                &&& final(probe)@ == (ProbeView {
                    state: ProbeState::AwaitPong {
                        payload: ours,
                        sent_at,
                        resumed,
                        peer_pinged: true,
                        rtt: None,
                        opening,
                    },
                    pong: Some(payload),
                    ..old(probe)@
                })
            } else {
                &&& r == Err::<Option<ProbeDone>, ErrorKind>(ErrorKind::UnexpectedPing(payload))
                &&& final(probe)@ == old(probe)@
            },
        },
{
}

/// A pong that the plain ping waits for is a loaded sample, whatever the last one
/// was, and is announced; one that answers a ping that was given up is nothing.
/// Neither completes a probe.
pub proof fn pongs_of_plain_pings_are_loaded_samples(
    probe: &mut Probe,
    payload: PingPayload,
    now: Timestamp,
    r: Result<Option<ProbeDone>, ErrorKind>,
    ping: &mut DirtyPing,
    meaning: DirtyPong,
)
    requires
        probe@.valid(),
        call_ensures(Probe::on_pong, (probe, payload, now), r),
        *ping == probe.ping,
        call_ensures(DirtyPing::on_pong, (ping, payload, now), meaning),
    ensures
        final(probe)@.ping == final(ping)@ || r is Err,
        meaning matches DirtyPong::Matched(rtt) ==> {
            &&& r matches Ok(None)
            &&& final(probe)@ == (ProbeView {
                ping: final(ping)@,
                last_dirty: Some(rtt),
                events: old(probe)@.events.push(ProbeEvent::PingAnswered { rtt }),
                ..old(probe)@
            })
        },
        meaning is Forgotten ==> {
            &&& r matches Ok(None)
            &&& final(probe)@ == (ProbeView { ping: final(ping)@, ..old(probe)@ })
        },
{
}

/// A pong that the plain ping knows nothing of answers the ping of the dance, if
/// it carries the same payload and is the first to. The clean sample is the time
/// since that ping went out; it completes the exchange if the peer has pinged
/// already, and is kept if not. Any other pong is a fault.
pub proof fn pongs_of_the_dance_are_clean_samples(
    probe: &mut Probe,
    payload: PingPayload,
    now: Timestamp,
    r: Result<Option<ProbeDone>, ErrorKind>,
)
    requires
        probe@.valid(),
        call_ensures(Probe::on_pong, (probe, payload, now), r),
        !probe@.ping.forgotten.contains(payload),
        !(probe@.ping.state matches DirtyPingState::Awaiting { payload: sent, .. } && sent
            == payload),
        probe@.state matches ProbeState::AwaitPong { sent_at, .. } ==> sent_at.nanos <= now.nanos,
    ensures
        ({
            let before = old(probe)@;
            let after = final(probe)@;
            match before.state {
                ProbeState::AwaitPong {
                    payload: ours,
                    sent_at,
                    resumed,
                    peer_pinged,
                    rtt: None,
                    opening,
                } if ours == payload => {
                    let rtt = between(sent_at, now);
                    &&& peer_pinged ==> {
                        &&& r matches Ok(Some(done)) && done.rtt == rtt && done.resume == !resumed
                        &&& after == (ProbeView {
                            state: ProbeState::Idle,
                            events: before.events.push(ProbeEvent::ProbeCompleted { rtt }),
                            ..before
                        })
                    }
                    &&& !peer_pinged ==> {
                        &&& r matches Ok(None)
                        &&& after == (ProbeView {
                            state: ProbeState::AwaitPong {
                                payload: ours,
                                sent_at,
                                resumed,
                                peer_pinged: false,
                                rtt: Some(rtt),
                                opening,
                            },
                            ..before
                        })
                    }
                },
                _ => {
                    &&& r == Err::<Option<ProbeDone>, ErrorKind>(
                        ErrorKind::UnexpectedPing(payload),
                    )
                    &&& after == before
                },
            }
        }),
{
}

/// Answers go first: the one of the dance, which resumes data in the opening, then
/// those to plain pings in turn. The plain ping follows, and is announced and
/// timed. The dance comes last.
pub proof fn answers_go_first(
    probe: &mut Probe,
    now: Timestamp,
    fresh: PingPayload,
    r: Option<(ProbeFrame, bool)>,
)
    requires
        probe@.valid(),
        call_ensures(Probe::next_frame, (probe, now, fresh), r),
    ensures
        ({
            let before = old(probe)@;
            let after = final(probe)@;
            match before.pong {
                Some(payload) => {
                    let resumes = before.state matches ProbeState::AwaitPong {
                        resumed: false,
                        opening: true,
                        ..
                    };
                    &&& r == Some((ProbeFrame::Pong(payload), resumes))
                    &&& after == (ProbeView { pong: None, state: after.state, ..before })
                    &&& !resumes ==> after.state == before.state
                    &&& resumes ==> (before.state matches ProbeState::AwaitPong {
                        payload,
                        sent_at,
                        peer_pinged,
                        rtt,
                        ..
                    } && after.state == (ProbeState::AwaitPong {
                        payload,
                        sent_at,
                        resumed: true,
                        peer_pinged,
                        rtt,
                        opening: true,
                    }))
                },
                None => if before.plain_pongs.len() > 0 {
                    &&& r == Some((ProbeFrame::Pong(before.plain_pongs[0]), false))
                    &&& seq![before.plain_pongs[0]] + after.plain_pongs == before.plain_pongs
                    &&& after == (ProbeView { plain_pongs: after.plain_pongs, ..before })
                } else {
                    match (before.ping.state, before.state) {
                        (DirtyPingState::Queued { payload }, _) => {
                            &&& r == Some((ProbeFrame::Ping(payload), false))
                            &&& after == (ProbeView {
                                ping: DirtyPingView {
                                    state: DirtyPingState::Awaiting { payload, sent_at: now },
                                    forgotten: before.ping.forgotten,
                                },
                                events: before.events.push(ProbeEvent::PingSent),
                                ..before
                            })
                        },
                        (_, ProbeState::SendClear { syn, next }) => {
                            &&& r == Some((ProbeFrame::Clear(syn), false))
                            &&& after == (ProbeView {
                                clear_at: if syn {
                                    Some(now)
                                } else {
                                    before.clear_at
                                },
                                state: after.state,
                                ..before
                            })
                            &&& next is AwaitPing ==> after.state is AwaitPing
                            &&& next matches AfterClear::AwaitClear { collided } ==> after.state
                                == (ProbeState::AwaitClear { collided })
                        },
                        (_, ProbeState::SendPing { resume, peer_pinged, opening }) => {
                            &&& r == Some((ProbeFrame::Ping(fresh), resume))
                            &&& after == (ProbeView {
                                state: ProbeState::AwaitPong {
                                    payload: fresh,
                                    sent_at: now,
                                    resumed: resume,
                                    peer_pinged,
                                    rtt: None,
                                    opening,
                                },
                                ..before
                            })
                        },
                        _ => r is None && after == before,
                    }
                },
            }
        }),
{
    let before = old(probe)@;
    if before.plain_pongs.len() > 0 {
        assert(seq![before.plain_pongs[0]] + before.plain_pongs.drop_first()
            =~= before.plain_pongs);
    }
}

} // verus!
