//! What holds of the probe machine across transitions, and of two machines
//! talking to each other.

use vstd::prelude::*;

use crate::config::RammuxRole;
use crate::header::PingPayload;
use crate::probe::{
    AfterClear, DirtyPingView, DirtyPingState, ProbeDone, ProbeEvent, ProbeFrame, ProbeState,
    ProbeView,
};
use crate::time::{span, TimeSpan, Timestamp};

verus! {

/// How an event changes the number of probes announced and not yet ended.
pub open spec fn probe_weight(e: ProbeEvent) -> int {
    match e {
        ProbeEvent::ProbeStarted { .. } => 1,
        ProbeEvent::ProbeCompleted { .. } => -1,
        _ => 0,
    }
}

/// How an event changes the number of pings announced and not yet ended.
pub open spec fn ping_weight(e: ProbeEvent) -> int {
    match e {
        ProbeEvent::PingSent => 1,
        ProbeEvent::PingAnswered { .. } => -1,
        ProbeEvent::PingAbandoned => -1,
        _ => 0,
    }
}

/// Probes announced as started and not as ended in `events`.
pub open spec fn open_probes(events: Seq<ProbeEvent>) -> int
    decreases events.len(),
{
    if events.len() == 0 {
        0
    } else {
        open_probes(events.drop_last()) + probe_weight(events.last())
    }
}

/// Plain pings announced as sent and not as ended in `events`.
pub open spec fn open_pings(events: Seq<ProbeEvent>) -> int
    decreases events.len(),
{
    if events.len() == 0 {
        0
    } else {
        open_pings(events.drop_last()) + ping_weight(events.last())
    }
}

/// One event more changes the counts by its weight.
proof fn counts_of_push(events: Seq<ProbeEvent>, e: ProbeEvent)
    ensures
        open_probes(events.push(e)) == open_probes(events) + probe_weight(e),
        open_pings(events.push(e)) == open_pings(events) + ping_weight(e),
{
    assert(events.push(e).drop_last() =~= events);
}

/// One while an exchange runs that pauses data, zero otherwise.
pub open spec fn probes_running(v: ProbeView) -> int {
    if v.state is Idle {
        0
    } else {
        1
    }
}

/// One while a plain ping is on the wire, zero otherwise.
pub open spec fn pings_running(v: ProbeView) -> int {
    if v.ping.state is Awaiting {
        1
    } else {
        0
    }
}

/// Whether going from `a` to `b` announced exactly what began and ended: what
/// was announced before still stands, and the open announcements changed by as
/// much as the running exchanges did.
pub open spec fn announced_faithfully(a: ProbeView, b: ProbeView) -> bool {
    &&& a.events.is_prefix_of(b.events)
    &&& open_probes(b.events) - open_probes(a.events) == probes_running(b) - probes_running(a)
    &&& open_pings(b.events) - open_pings(a.events) == pings_running(b) - pings_running(a)
}

proof fn lemma_without_ping(v: ProbeView)
    ensures
        announced_faithfully(v, v.without_ping()),
        v.without_ping().ping.state is Idle,
        v.without_ping().state == v.state,
{
    counts_of_push(v.events, ProbeEvent::PingAbandoned);
}

proof fn lemma_begun(v: ProbeView, syn: bool, next: AfterClear)
    requires
        v.state is Idle,
    ensures
        announced_faithfully(v, v.begun(syn, next)),
{
    lemma_without_ping(v);
    counts_of_push(v.without_ping().events, ProbeEvent::ProbeStarted { initiated: syn });
}

/// Every transition of the machine announces what it starts and what it ends:
/// each started exchange is announced once when it starts and once when it
/// ends, and nothing else is.
pub proof fn every_exchange_is_announced(
    v: ProbeView,
    syn: bool,
    payload: PingPayload,
    now: Timestamp,
    fresh: PingPayload,
)
    requires
        v.valid(),
    ensures
        v.state is Idle ==> announced_faithfully(
            v,
            v.begun(true, AfterClear::AwaitClear { collided: false }),
        ),
        announced_faithfully(v, v.without_ping()),
        v.accepts_clear_link(syn) ==> announced_faithfully(v, v.after_clear_link(syn, now)),
        v.accepts_ping() ==> announced_faithfully(v, v.after_ping(payload, now)),
        v.accepts_pong(payload, now) ==> announced_faithfully(v, v.after_pong(payload, now)),
        announced_faithfully(v, v.after_frame(now, fresh)),
{
    lemma_without_ping(v);
    if v.state is Idle {
        lemma_begun(v, true, AfterClear::AwaitClear { collided: false });
    }
    if v.accepts_clear_link(syn) && v.state is Idle {
        let at = ProbeView { clear_at: Some(now), ..v.without_ping() };
        lemma_begun(at, false, AfterClear::AwaitPing);
    }
    if v.accepts_ping() {
        if let ProbeState::AwaitPong { rtt: Some(rtt), .. } = v.state {
            counts_of_push(v.events, ProbeEvent::ProbeCompleted { rtt });
        }
    }
    if v.accepts_pong(payload, now) {
        if let DirtyPingState::Awaiting { sent_at, .. } = v.ping.state {
            counts_of_push(v.events, ProbeEvent::PingAnswered { rtt: span(sent_at, now) });
        }
        if let ProbeState::AwaitPong { sent_at, .. } = v.state {
            counts_of_push(v.events, ProbeEvent::ProbeCompleted { rtt: span(sent_at, now) });
        }
    }
    counts_of_push(v.events, ProbeEvent::PingSent);
}

/// A machine with nothing under way and nothing owed.
pub open spec fn at_rest(v: ProbeView) -> bool {
    &&& v.state is Idle
    &&& v.ping.state is Idle
    &&& v.pong is None
    &&& v.plain_pongs.len() == 0
}

/// The dance between an initiator and a responder at rest completes: each frame
/// is legal where it arrives, the initiator times its own `PING` from `t3` to
/// `t6`, the responder times its own from `t5` to `t8`, both are back at rest,
/// and data is paused on both sides while the link drains.
pub proof fn dance_completes(
    i: ProbeView,
    r: ProbeView,
    t: Seq<Timestamp>,
    p: PingPayload,
    q: PingPayload,
)
    requires
        at_rest(i),
        at_rest(r),
        t.len() == 9,
        !i.ping.forgotten.contains(p),
        !r.ping.forgotten.contains(q),
    ensures
        ({
            let i0 = i.begun(true, AfterClear::AwaitClear { collided: false });
            // The initiation crosses.
            let i1 = i0.after_frame(t[0], p);
            let r1 = r.after_clear_link(true, t[1]);
            // The receipt crosses back.
            let r2 = r1.after_frame(t[2], q);
            let i2 = i1.after_clear_link(false, t[3]);
            // The initiator's ping crosses.
            let i3 = i2.after_frame(t[3], p);
            let r3 = r2.after_ping(p, t[4]);
            // The responder's pong and ping cross back.
            let r4 = r3.after_frame(t[5], q);
            let r5 = r4.after_frame(t[5], q);
            let i4 = i3.after_pong(p, t[6]);
            let i5 = i4.after_ping(q, t[7]);
            // The initiator's pong crosses.
            let i6 = i5.after_frame(t[7], p);
            let r6 = r5.after_pong(q, t[8]);
            &&& i0.next_frame(p) == Some((ProbeFrame::Clear(true), false))
            &&& r.accepts_clear_link(true)
            &&& r1.next_frame(q) == Some((ProbeFrame::Clear(false), false))
            &&& i1.accepts_clear_link(false)
            &&& i2.next_frame(p) == Some((ProbeFrame::Ping(p), false))
            &&& r2.accepts_ping()
            &&& r3.next_frame(q) == Some((ProbeFrame::Pong(p), false))
            &&& r4.next_frame(q) == Some((ProbeFrame::Ping(q), true))
            &&& i3.accepts_pong(p, t[6])
            &&& i4.accepts_ping()
            &&& i4.completed_by_ping() == Some(
                ProbeDone { rtt: span(t[3], t[6]), resume: true },
            )
            &&& i5.next_frame(p) == Some((ProbeFrame::Pong(q), false))
            &&& r5.accepts_pong(q, t[8])
            &&& r5.completed_by_pong(q, t[8]) == Some(
                ProbeDone { rtt: span(t[5], t[8]), resume: false },
            )
            &&& at_rest(i6)
            &&& at_rest(r6)
            &&& i0.paused() && i1.paused() && i2.paused() && i3.paused() && i4.paused()
            &&& r1.paused() && r2.paused() && r3.paused() && r4.paused()
            &&& !r5.paused() && !i5.paused()
            &&& i2.last_dirty == Some(span(t[0], t[3]))
            &&& r3.last_dirty == Some(span(t[1], t[4]))
        }),
{
    let i0 = i.begun(true, AfterClear::AwaitClear { collided: false });
    let i1 = i0.after_frame(t[0], p);
    let r1 = r.after_clear_link(true, t[1]);
    let r2 = r1.after_frame(t[2], q);
    let i2 = i1.after_clear_link(false, t[3]);
    let i3 = i2.after_frame(t[3], p);
    let r3 = r2.after_ping(p, t[4]);
    let r4 = r3.after_frame(t[5], q);
    let r5 = r4.after_frame(t[5], q);
    assert(r5.state == ProbeState::AwaitPong {
        payload: q,
        sent_at: t[5],
        resumed: true,
        peer_pinged: true,
        rtt: None,
        opening: false,
    });
    assert(i3.state == ProbeState::AwaitPong {
        payload: p,
        sent_at: t[3],
        resumed: false,
        peer_pinged: false,
        rtt: None,
        opening: false,
    });
}

/// Two initiations that cross are one probe: the client stays initiator and may
/// not ping on the server's initiation, the server demotes and still owes the
/// receipt, and from there the dance goes on as if the client alone had begun.
pub proof fn collision_has_one_initiator(
    c: ProbeView,
    s: ProbeView,
    t: Seq<Timestamp>,
    p: PingPayload,
    q: PingPayload,
)
    requires
        at_rest(c),
        at_rest(s),
        c.role == RammuxRole::Client,
        s.role == RammuxRole::Server,
        t.len() == 5,
    ensures
        ({
            let c0 = c.begun(true, AfterClear::AwaitClear { collided: false });
            let s0 = s.begun(true, AfterClear::AwaitClear { collided: false });
            let c1 = c0.after_frame(t[0], p);
            let s1 = s0.after_frame(t[1], q);
            let c2 = c1.after_clear_link(true, t[2]);
            let s2 = s1.after_clear_link(true, t[3]);
            let s3 = s2.after_frame(t[4], q);
            let c3 = c2.after_clear_link(false, t[4]);
            &&& c1.accepts_clear_link(true)
            &&& s1.accepts_clear_link(true)
            &&& c2.next_frame(p) is None
            &&& !c2.accepts_clear_link(true)
            &&& c2.peer_must_be_silent()
            &&& s2.next_frame(q) == Some((ProbeFrame::Clear(false), false))
            &&& s3.state is AwaitPing
            &&& c2.accepts_clear_link(false)
            &&& c3.next_frame(p) == Some((ProbeFrame::Ping(p), false))
            &&& s3.accepts_ping()
            &&& open_probes(c3.events) == open_probes(c.events) + 1
            &&& open_probes(s3.events) == open_probes(s.events) + 1
        }),
{
    lemma_begun(c, true, AfterClear::AwaitClear { collided: false });
    lemma_begun(s, true, AfterClear::AwaitClear { collided: false });
}

/// The opening exchange completes whichever ping arrives first: both sides ping
/// without any `CLEAR_LINK`, each answers the other, data resumes on each side
/// with the later of its own ping and its pong, and each sample is the time its
/// ping spent on the wire.
pub proof fn opening_exchange_completes(
    role: RammuxRole,
    t: Seq<Timestamp>,
    p: PingPayload,
    q: PingPayload,
)
    requires
        t.len() == 4,
    ensures
        ({
            let v = ProbeView::opening(role);
            // Our ping goes out first.
            let a1 = v.after_frame(t[0], p);
            let a2 = a1.after_ping(q, t[1]);
            let a3 = a2.after_frame(t[2], p);
            let a4 = a3.after_pong(p, t[3]);
            // The peer's ping arrives first.
            let b1 = v.after_ping(q, t[0]);
            let b2 = b1.after_frame(t[1], p);
            let b3 = b2.after_frame(t[2], p);
            let b4 = b3.after_pong(p, t[3]);
            &&& v.next_frame(p) == Some((ProbeFrame::Ping(p), false))
            &&& a1.accepts_ping()
            &&& a2.next_frame(p) == Some((ProbeFrame::Pong(q), true))
            &&& a3.accepts_pong(p, t[3])
            &&& a3.completed_by_pong(p, t[3]) == Some(
                ProbeDone { rtt: span(t[0], t[3]), resume: false },
            )
            &&& at_rest(a4)
            &&& v.accepts_ping()
            &&& b1.next_frame(p) == Some((ProbeFrame::Pong(q), false))
            &&& b2.next_frame(p) == Some((ProbeFrame::Ping(p), true))
            &&& b3.accepts_pong(p, t[3])
            &&& b3.completed_by_pong(p, t[3]) == Some(
                ProbeDone { rtt: span(t[2], t[3]), resume: false },
            )
            &&& at_rest(b4)
            &&& v.paused() && a1.paused() && a2.paused() && !a3.paused()
            &&& b1.paused() && b2.paused() && !b3.paused()
            &&& !v.peer_must_be_silent() && !a1.peer_must_be_silent() && !b1.peer_must_be_silent()
        }),
{
}

/// A ping given up in flight leaves its pong harmless, however many others were
/// given up before it or since: when it arrives it is accepted, it produces
/// neither a sample nor an event nor a completed probe, and it is accepted as
/// often as the payload was given up. Only a ping in flight with the very same
/// payload takes the pong for its own.
pub proof fn forgotten_pong_is_ignored(v: ProbeView, payload: PingPayload, now: Timestamp)
    requires
        v.ping.forgotten.contains(payload),
        v.ping.state matches DirtyPingState::Awaiting { payload: sent, .. } ==> sent != payload,
    ensures
        ({
            let after = v.after_pong(payload, now);
            &&& v.accepts_pong(payload, now)
            &&& v.completed_by_pong(payload, now) is None
            &&& after == (ProbeView {
                ping: DirtyPingView { forgotten: after.ping.forgotten, ..v.ping },
                ..v
            })
            &&& after.ping.forgotten.to_multiset() == v.ping.forgotten.to_multiset().remove(payload)
        }),
{
    let forgotten = v.ping.forgotten;
    forgotten.index_of_first_ensures(payload);
    forgotten.to_multiset_ensures();
}

/// A ping that is given up in flight is remembered, whoever gave it up, until its
/// pong arrives: nothing else makes the machine forget that it was.
pub proof fn abandoned_pings_are_remembered(
    v: ProbeView,
    payload: PingPayload,
    other: PingPayload,
    syn: bool,
    next: AfterClear,
    now: Timestamp,
)
    ensures
        v.ping.state matches DirtyPingState::Awaiting { payload: sent, .. } ==> (sent == payload
            ==> {
            &&& v.without_ping().ping.forgotten.contains(payload)
            &&& v.begun(syn, next).ping.forgotten.contains(payload)
            &&& v.after_clear_link(syn, now).ping.forgotten.contains(payload)
        }),
        v.ping.forgotten.contains(payload) ==> {
            &&& v.without_ping().ping.forgotten.contains(payload)
            &&& v.begun(syn, next).ping.forgotten.contains(payload)
            &&& v.after_clear_link(syn, now).ping.forgotten.contains(payload)
            &&& v.after_ping(other, now).ping.forgotten.contains(payload)
            &&& v.after_frame(now, other).ping.forgotten.contains(payload)
            &&& other != payload ==> v.after_pong(other, now).ping.forgotten.contains(payload)
        },
{
    let forgotten = v.ping.forgotten;
    if let DirtyPingState::Awaiting { payload: sent, .. } = v.ping.state {
        let dropped = forgotten.push(sent);
        assert(dropped[forgotten.len() as int] == sent);
    }
    if forgotten.contains(payload) {
        let at = forgotten.index_of(payload);
        if let DirtyPingState::Awaiting { payload: sent, .. } = v.ping.state {
            assert(forgotten.push(sent)[at] == payload);
        }
        if other != payload && forgotten.contains(other) {
            forgotten.index_of_first_ensures(other);
            let gone = forgotten.index_of_first(other).unwrap();
            let left = forgotten.remove(gone);
            if at < gone {
                assert(left[at] == payload);
            } else {
                assert(left[at - 1] == payload);
            }
        }
    }
}

/// A plain ping that is queued, sent at `t0` and answered at `t1` reports the
/// span between the two as the loaded round trip, and leaves data flowing.
pub proof fn plain_ping_measures_the_loaded_rtt(
    v: ProbeView,
    payload: PingPayload,
    fresh: PingPayload,
    t0: Timestamp,
    t1: Timestamp,
)
    requires
        at_rest(v),
    ensures
        ({
            let queued = ProbeView {
                ping: DirtyPingView { state: DirtyPingState::Queued { payload }, ..v.ping },
                ..v
            };
            let sent = queued.after_frame(t0, fresh);
            let answered = sent.after_pong(payload, t1);
            let rtt: TimeSpan = span(t0, t1);
            &&& queued.next_frame(fresh) == Some((ProbeFrame::Ping(payload), false))
            &&& !queued.paused() && !sent.paused()
            &&& sent.accepts_pong(payload, t1)
            &&& sent.completed_by_pong(payload, t1) is None
            &&& answered.last_dirty == Some(rtt)
            &&& answered.events == v.events.push(ProbeEvent::PingSent).push(
                ProbeEvent::PingAnswered { rtt },
            )
            &&& at_rest(answered)
        }),
{
}

} // verus!
