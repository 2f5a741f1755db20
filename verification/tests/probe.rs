use std::ops::Deref;

use rammux::config::RammuxRole;
use rammux::error::ErrorKind;
use rammux::header::PingPayload;
use rammux::probe::{
    PingKind, Probe, ProbeDone, ProbeEvent, ProbeFrame, ProbeState,
};
use rammux::time::{TimeSpan, Timestamp};

/// A probe with a clock and a source of payloads.
struct Machine {
    probe: Probe,
    now: Timestamp,
}

impl Deref for Machine {
    type Target = Probe;

    fn deref(&self) -> &Probe {
        &self.probe
    }
}

impl Machine {
    fn new(role: RammuxRole) -> Self {
        Machine {
            probe: Probe::new(role),
            now: Timestamp { nanos: 0 },
        }
    }

    fn advance(&mut self, ms: u64) {
        self.now = self.now.plus(TimeSpan::from_millis(ms));
    }

    fn start(&mut self) -> bool {
        self.probe.start()
    }

    fn send_ping(&mut self) -> bool {
        self.probe.send_ping(PingPayload::random())
    }

    fn give_up_ping(&mut self) -> bool {
        self.probe.give_up_ping()
    }

    fn next_event(&mut self) -> Option<ProbeEvent> {
        self.probe.next_event()
    }

    fn take_dirty_rtt(&mut self) -> Option<TimeSpan> {
        self.probe.take_dirty_rtt()
    }

    fn on_clear_link(&mut self, syn: bool) -> Result<(), ErrorKind> {
        self.probe.on_clear_link(syn, self.now)
    }

    fn on_ping(&mut self, payload: PingPayload) -> Result<Option<ProbeDone>, ErrorKind> {
        self.probe.on_ping(payload, self.now)
    }

    fn on_pong(&mut self, payload: PingPayload) -> Result<Option<ProbeDone>, ErrorKind> {
        self.probe.on_pong(payload, self.now)
    }

    fn next_frame(&mut self) -> Option<(ProbeFrame, bool)> {
        self.probe.next_frame(self.now, PingPayload::random())
    }
}

/// Compact rendering of [`Probe::next_frame`]: the frame's kind and
/// whether sending it resumes data flow.
fn frame_kind(frame: Option<(ProbeFrame, bool)>) -> Option<(&'static str, bool)> {
    frame.map(|(frame, resume)| {
        let kind = match frame {
            ProbeFrame::Clear(true) => "clear+syn",
            ProbeFrame::Clear(false) => "clear",
            ProbeFrame::Ping(..) => "ping",
            ProbeFrame::Pong(..) => "pong",
        };
        (kind, resume)
    })
}

fn events(probe: &mut Machine) -> Vec<ProbeEvent> {
    std::iter::from_fn(|| probe.next_event()).collect()
}

/// A machine that has settled its opening exchange. Past that it has
/// no clock of its own, so nothing happens until something starts an
/// exchange.
fn idle_probe(role: RammuxRole) -> Machine {
    let mut probe = Machine::new(role);
    settle_opening(&mut probe);
    assert!(!probe.paused());
    assert!(!probe.peer_must_be_silent());
    assert!(frame_kind(probe.next_frame()).is_none());
    probe
}

/// Drives the opening `PING` exchange to completion.
fn settle_opening(probe: &mut Machine) {
    assert_eq!(
        events(probe),
        [ProbeEvent::ProbeStarted { initiated: true }],
        "the opening exchange is announced like any other"
    );
    assert!(probe.paused(), "the opening exchange holds data back");
    assert_eq!(frame_kind(probe.next_frame()), Some(("ping", false)));
    let ProbeState::AwaitPong { payload, .. } = probe.state else {
        panic!("expected AwaitPong");
    };
    assert!(probe.on_ping(PingPayload::random()).unwrap().is_none());
    assert!(probe.paused(), "still held: the owed pong has not left yet");
    assert_eq!(
        frame_kind(probe.next_frame()),
        Some(("pong", true)),
        "the owed pong releases the pause"
    );
    assert!(
        !probe.paused(),
        "data resumes without waiting for our own pong"
    );
    let done = probe.on_pong(payload).unwrap().unwrap();
    assert!(!done.resume, "already resumed at the pong");
    assert!(matches!(probe.state, ProbeState::Idle));
    let _ = events(probe);
}

/// The link is clear before either side has sent anything, so the
/// opening sample costs one round trip and needs no `CLEAR_LINK`.
#[test]
fn opens_with_a_bare_ping_exchange() {
    for role in [RammuxRole::Client, RammuxRole::Server] {
        let mut probe = Machine::new(role);
        assert!(
            !probe.peer_must_be_silent(),
            "no CLEAR_LINK went out, so the peer owes us no silence"
        );
        settle_opening(&mut probe);
    }
}

/// The peer's opening ping can beat ours out the door: the exchange
/// is symmetric, unlike the responder's ping in the full dance.
#[test]
fn opening_ping_may_arrive_first() {
    let mut probe = Machine::new(RammuxRole::Client);
    assert!(probe.on_ping(PingPayload::random()).unwrap().is_none());
    assert!(probe.paused());
    // Our pong leads, then our own ping - and data resumes with it,
    // because nothing we send can queue in front of either now.
    assert_eq!(frame_kind(probe.next_frame()), Some(("pong", false)));
    assert_eq!(frame_kind(probe.next_frame()), Some(("ping", true)));
    assert!(!probe.paused());
    let ProbeState::AwaitPong { payload, .. } = probe.state else {
        panic!("expected AwaitPong");
    };
    let done = probe.on_pong(payload).unwrap().unwrap();
    assert!(!done.resume, "already resumed at the ping");
}

/// Neither mechanism runs until the opening exchange is out of the
/// way: both would put an ambiguous `PING` on the link.
#[test]
fn nothing_runs_during_the_opening_exchange() {
    let mut probe = Machine::new(RammuxRole::Client);
    assert!(!probe.start());
    assert!(!probe.send_ping());
    probe.next_frame();
    assert!(!probe.start());
    assert!(!probe.send_ping());
}

#[test]
fn initiator_flow() {
    let mut probe = idle_probe(RammuxRole::Client);
    assert!(probe.start());
    assert_eq!(
        events(&mut probe),
        [ProbeEvent::ProbeStarted { initiated: true }]
    );
    assert!(probe.paused());
    assert_eq!(frame_kind(probe.next_frame()), Some(("clear+syn", false)));
    assert!(frame_kind(probe.next_frame()).is_none());
    // The peer's receipt arrives: both directions drained, ping.
    probe.on_clear_link(false).unwrap();
    assert_eq!(frame_kind(probe.next_frame()), Some(("ping", false)));
    assert!(probe.paused());
    let ProbeState::AwaitPong { payload, .. } = probe.state else {
        panic!("expected AwaitPong");
    };
    // Pong arrives first, then the peer's own ping (wire order).
    assert!(probe.on_pong(payload).unwrap().is_none());
    assert!(
        probe.paused(),
        "pause holds until the peer's ping is answered"
    );
    let done = probe.on_ping(PingPayload::random()).unwrap().unwrap();
    assert!(done.resume);
    assert!(!probe.paused());
    assert_eq!(
        events(&mut probe),
        [ProbeEvent::ProbeCompleted { rtt: done.rtt }]
    );
    // The owed pong goes out before resumed data.
    assert_eq!(frame_kind(probe.next_frame()), Some(("pong", false)));
    assert!(frame_kind(probe.next_frame()).is_none());
}

/// The clean RTT is the time our own probe `PING` spent on the wire.
#[test]
fn initiator_times_the_drained_ping() {
    let mut probe = idle_probe(RammuxRole::Client);
    assert!(probe.start());
    probe.next_frame();
    probe.on_clear_link(false).unwrap();
    probe.next_frame();
    let ProbeState::AwaitPong { payload, .. } = probe.state else {
        panic!("expected AwaitPong");
    };
    probe.advance(40);
    probe.on_pong(payload).unwrap();
    let done = probe.on_ping(PingPayload::random()).unwrap().unwrap();
    assert_eq!(done.rtt, TimeSpan::from_millis(40));
}

#[test]
fn responder_flow() {
    let mut probe = idle_probe(RammuxRole::Server);
    // The peer initiates; we answer with a receipt.
    probe.on_clear_link(true).unwrap();
    assert_eq!(
        events(&mut probe),
        [ProbeEvent::ProbeStarted { initiated: false }],
        "a peer-initiated probe pauses our data too, so it is announced"
    );
    assert!(probe.paused());
    assert!(probe.peer_must_be_silent());
    assert_eq!(frame_kind(probe.next_frame()), Some(("clear", false)));
    // The peer's probe ping arrives over the drained link.
    assert!(probe.on_ping(PingPayload::random()).unwrap().is_none());
    // Pong leads, then our own ping resumes data.
    assert_eq!(frame_kind(probe.next_frame()), Some(("pong", false)));
    assert_eq!(frame_kind(probe.next_frame()), Some(("ping", true)));
    assert!(!probe.paused());
    let ProbeState::AwaitPong { payload, .. } = probe.state else {
        panic!("expected AwaitPong");
    };
    let done = probe.on_pong(payload).unwrap().unwrap();
    assert!(!done.resume, "responder resumed at ping send already");
    assert_eq!(
        events(&mut probe),
        [ProbeEvent::ProbeCompleted { rtt: done.rtt }]
    );
}

/// A plain ping is a self-contained exchange that leaves the probe
/// machine alone: it just goes out and comes back with a loaded sample.
#[test]
fn plain_ping_measures_the_loaded_rtt() {
    let mut probe = idle_probe(RammuxRole::Client);
    assert!(probe.send_ping());
    assert!(events(&mut probe).is_empty(), "nothing has left yet");
    assert!(!probe.paused(), "a plain ping travels inline with data");
    let Some((ProbeFrame::Ping(payload), false)) = probe.next_frame() else {
        panic!("expected a plain ping");
    };
    assert_eq!(events(&mut probe), [ProbeEvent::PingSent]);
    assert!(
        !probe.send_ping(),
        "only one plain ping is outstanding at a time"
    );

    probe.advance(80);
    assert!(probe.on_pong(payload).unwrap().is_none());
    let rtt = TimeSpan::from_millis(80);
    assert_eq!(events(&mut probe), [ProbeEvent::PingAnswered { rtt }]);
    assert_eq!(probe.take_dirty_rtt(), Some(rtt));
    assert!(probe.send_ping(), "the next one is free to go");
}

/// The peer's plain ping is answered wherever it can legally arrive.
#[test]
fn plain_ping_is_answered() {
    let mut probe = idle_probe(RammuxRole::Server);
    assert!(probe.on_ping(PingPayload::random()).unwrap().is_none());
    assert_eq!(frame_kind(probe.next_frame()), Some(("pong", false)));
    assert!(
        events(&mut probe).is_empty(),
        "answering is not a transition"
    );
}

/// A probe takes the link from a ping in flight rather than waiting
/// for it: two pongs on the wire would be indistinguishable, and the
/// probe is the measurement worth keeping.
#[test]
fn probe_gives_up_a_ping_in_flight() {
    let mut probe = idle_probe(RammuxRole::Client);
    assert!(probe.send_ping());
    let Some((ProbeFrame::Ping(outstanding), _)) = probe.next_frame() else {
        panic!("expected a plain ping");
    };
    assert_eq!(events(&mut probe), [ProbeEvent::PingSent]);

    assert!(probe.start());
    assert_eq!(
        events(&mut probe),
        [
            ProbeEvent::PingAbandoned,
            ProbeEvent::ProbeStarted { initiated: true }
        ]
    );
    assert_eq!(frame_kind(probe.next_frame()), Some(("clear+syn", false)));

    // The pong that eventually answers it is ignored, not an error.
    assert!(probe.on_pong(outstanding).unwrap().is_none());
    assert!(probe.take_dirty_rtt().is_none());
}

/// Giving up on a ping frees the next one to go, and the pong that
/// eventually answers it is ignored rather than failing the
/// connection. This is how a caller enforces its own deadline.
#[test]
fn abandoning_a_ping_frees_the_next() {
    let mut probe = idle_probe(RammuxRole::Client);
    assert!(probe.send_ping());
    let Some((ProbeFrame::Ping(abandoned), _)) = probe.next_frame() else {
        panic!("expected a plain ping");
    };
    assert_eq!(events(&mut probe), [ProbeEvent::PingSent]);

    assert!(probe.give_up_ping());
    assert!(!probe.give_up_ping(), "nothing left to give up on");
    assert_eq!(events(&mut probe), [ProbeEvent::PingAbandoned]);
    assert!(probe.send_ping(), "the next ping is free to go");

    assert!(probe.on_pong(abandoned).unwrap().is_none());
    assert!(
        probe.take_dirty_rtt().is_none(),
        "a forgotten ping must not produce a sample"
    );
}

/// Every ping that was given up on may still be answered, in whatever order and
/// however late; none of the answers says anything about the link.
#[test]
fn every_abandoned_ping_may_be_answered_late() {
    let mut probe = idle_probe(RammuxRole::Client);
    let mut abandoned = Vec::new();
    for _ in 0..3 {
        assert!(probe.send_ping());
        let Some((ProbeFrame::Ping(payload), _)) = probe.next_frame() else {
            panic!("expected a plain ping");
        };
        abandoned.push(payload);
        assert!(probe.give_up_ping());
    }
    events(&mut probe);
    for payload in [abandoned[1], abandoned[0], abandoned[2]] {
        assert!(probe.on_pong(payload).unwrap().is_none());
        assert!(probe.take_dirty_rtt().is_none());
        assert!(events(&mut probe).is_empty());
        assert!(
            abandoned.iter().filter(|&p| *p == payload).count() > 1
                || probe.on_pong(payload).is_err(),
            "one answer per ping"
        );
    }
}

/// A queued ping that never reached the wire is dropped silently:
/// there is nothing outstanding to announce or to ignore later.
#[test]
fn abandoning_a_queued_ping_is_silent() {
    let mut probe = idle_probe(RammuxRole::Client);
    assert!(probe.send_ping());
    assert!(!probe.give_up_ping());
    assert!(events(&mut probe).is_empty());
    assert!(frame_kind(probe.next_frame()).is_none(), "ping was dropped");
}

/// An inbound `CLEAR_LINK` gives up a ping in flight: the probe owns
/// the link from there, and an ambiguous pong must not be on it.
#[test]
fn clear_link_forgets_a_ping_in_flight() {
    let mut probe = idle_probe(RammuxRole::Server);
    assert!(probe.send_ping());
    let Some((ProbeFrame::Ping(abandoned), _)) = probe.next_frame() else {
        panic!("expected a plain ping");
    };
    assert_eq!(events(&mut probe), [ProbeEvent::PingSent]);

    // The peer initiates: our ping is forgotten and we answer normally.
    probe.on_clear_link(true).unwrap();
    assert_eq!(
        events(&mut probe),
        [
            ProbeEvent::PingAbandoned,
            ProbeEvent::ProbeStarted { initiated: false }
        ]
    );
    assert_eq!(frame_kind(probe.next_frame()), Some(("clear", false)));

    // The late pong is neither an error nor a loaded-RTT sample.
    assert!(probe.on_pong(abandoned).unwrap().is_none());
    assert!(
        probe.take_dirty_rtt().is_none(),
        "a forgotten ping must not produce a sample"
    );
    // A pong for something never sent is still a violation.
    assert!(probe.on_pong(PingPayload::random()).is_err());
}

/// A plain ping cannot be started under a running probe: on the wire
/// it would be indistinguishable from the dance's own `PING`.
#[test]
fn plain_ping_is_refused_under_a_probe() {
    let mut probe = idle_probe(RammuxRole::Client);
    assert!(probe.start());
    assert!(!probe.send_ping());
    probe.next_frame();
    probe.on_clear_link(false).unwrap();
    assert!(!probe.send_ping());
    probe.next_frame();
    assert!(!probe.send_ping());
}

/// The probe's own `CLEAR_LINK`-to-receipt leg is a loaded sample: it
/// crosses the link with both sides' queues still standing.
#[test]
fn probe_measures_the_loaded_leg_too() {
    let mut probe = idle_probe(RammuxRole::Client);
    assert!(probe.start());
    assert_eq!(frame_kind(probe.next_frame()), Some(("clear+syn", false)));
    probe.advance(120);
    probe.on_clear_link(false).unwrap();
    assert_eq!(probe.take_dirty_rtt(), Some(TimeSpan::from_millis(120)));
}

#[test]
fn collision_client_waits_for_receipt() {
    let mut probe = idle_probe(RammuxRole::Client);
    assert!(probe.start());
    assert_eq!(frame_kind(probe.next_frame()), Some(("clear+syn", false)));
    // The peer's colliding initiation is no license to ping: it
    // proves nothing about our own direction having drained.
    probe.on_clear_link(true).unwrap();
    assert!(probe.peer_must_be_silent());
    assert!(
        frame_kind(probe.next_frame()).is_none(),
        "no ping before the receipt"
    );
    // The demoted server's receipt arrives: now we ping.
    probe.on_clear_link(false).unwrap();
    assert_eq!(frame_kind(probe.next_frame()), Some(("ping", false)));
    assert_eq!(
        events(&mut probe),
        [ProbeEvent::ProbeStarted { initiated: true }],
        "a collision is one probe, not two"
    );
}

#[test]
fn collision_server_demotes() {
    let mut probe = idle_probe(RammuxRole::Server);
    assert!(probe.start());
    assert_eq!(frame_kind(probe.next_frame()), Some(("clear+syn", false)));
    // The client's colliding initiation demotes us to responder:
    // we owe a receipt and wait for the client's ping.
    probe.on_clear_link(true).unwrap();
    assert_eq!(frame_kind(probe.next_frame()), Some(("clear", false)));
    assert!(matches!(probe.state, ProbeState::AwaitPing));
    assert!(probe.on_ping(PingPayload::random()).unwrap().is_none());
    assert_eq!(frame_kind(probe.next_frame()), Some(("pong", false)));
    assert_eq!(frame_kind(probe.next_frame()), Some(("ping", true)));
}

#[test]
fn collision_server_demotes_before_send() {
    let mut probe = idle_probe(RammuxRole::Server);
    assert!(probe.start());
    // The client's initiation arrives before our own went out: our
    // queued CLEAR_LINK becomes the receipt - a single frame.
    probe.on_clear_link(true).unwrap();
    assert_eq!(frame_kind(probe.next_frame()), Some(("clear", false)));
    assert!(matches!(probe.state, ProbeState::AwaitPing));
    assert!(frame_kind(probe.next_frame()).is_none());
}

#[test]
fn strictness() {
    let mut probe = idle_probe(RammuxRole::Server);
    // A bare pong answers nothing we sent, and a receipt without an
    // initiation is a violation.
    assert!(probe.on_pong(PingPayload::random()).is_err());
    assert!(probe.on_clear_link(false).is_err());
    // A running probe cannot be started again.
    probe.on_clear_link(true).unwrap();
    assert!(!probe.send_ping(), "no plain PING inside the dance");
    assert!(!probe.start());
    probe.next_frame();
    // Responder cannot receive another CLEAR_LINK of either kind.
    assert!(probe.on_clear_link(true).is_err());
    assert!(probe.on_clear_link(false).is_err());
}

#[test]
fn strictness_collided_client() {
    let mut probe = idle_probe(RammuxRole::Client);
    assert!(probe.start());
    probe.next_frame();
    probe.on_clear_link(true).unwrap();
    // A second colliding initiation is a violation.
    assert!(probe.on_clear_link(true).is_err());
    // The peer's ping cannot legally precede our own.
    let ProbeState::AwaitClear { collided: true } = probe.state else {
        panic!("expected collided AwaitClear");
    };
    assert!(probe.on_ping(PingPayload::random()).is_err());
}

/// A whole dance between two machines, frame by frame.
#[test]
fn a_dance_measures_both_sides() {
    let mut client = idle_probe(RammuxRole::Client);
    let mut server = idle_probe(RammuxRole::Server);
    assert!(client.start());
    let mut done = Vec::new();
    for _ in 0..4 {
        while let Some((frame, _)) = client.next_frame() {
            match frame {
                ProbeFrame::Clear(syn) => server.on_clear_link(syn).unwrap(),
                ProbeFrame::Ping(payload) => done.extend(server.on_ping(payload).unwrap()),
                ProbeFrame::Pong(payload) => done.extend(server.on_pong(payload).unwrap()),
            }
        }
        client.advance(10);
        server.advance(10);
        while let Some((frame, _)) = server.next_frame() {
            match frame {
                ProbeFrame::Clear(syn) => client.on_clear_link(syn).unwrap(),
                ProbeFrame::Ping(payload) => done.extend(client.on_ping(payload).unwrap()),
                ProbeFrame::Pong(payload) => done.extend(client.on_pong(payload).unwrap()),
            }
        }
    }
    assert_eq!(done.len(), 2);
    assert!(!client.in_progress() && !server.in_progress());
    assert!(!client.paused() && !server.paused());
}

#[test]
fn pings_are_classified_by_where_the_dance_stands() {
    let mut probe = Machine::new(RammuxRole::Client);
    assert_eq!(probe.classify_ping(), PingKind::Probe);
    probe.on_ping(PingPayload::random()).unwrap();
    assert_eq!(probe.classify_ping(), PingKind::Illegal);
    let probe = idle_probe(RammuxRole::Client);
    assert_eq!(probe.classify_ping(), PingKind::Plain);
}

#[test]
fn a_stray_pong_names_its_payload() {
    let mut probe = idle_probe(RammuxRole::Server);
    let payload = PingPayload::from_random(7, 9);
    match probe.on_pong(payload) {
        Err(ErrorKind::UnexpectedPing(unexpected)) => assert_eq!(unexpected, payload),
        other => panic!("{other:?}"),
    }
    assert!(matches!(probe.on_clear_link(false), Err(ErrorKind::Probe(_))));
}

#[test]
fn fresh_pings_carry_fresh_payloads() {
    let payloads: Vec<PingPayload> = (0..16).map(|_| PingPayload::random()).collect();
    assert!(payloads.iter().any(|payload| *payload != payloads[0]));
    assert_eq!(PingPayload::from_random(0xFFFF_FFFF, 5).stream_id.value(), 0xFF_FFFF);
}
