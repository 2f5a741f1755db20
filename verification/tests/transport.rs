use std::collections::VecDeque;

use bytes::Bytes;
use rammux::codec::decoder::{DecodedFrame, Decoder};
use rammux::codec::encoder::EncoderItem;
use rammux::config::{RammuxConfig, RammuxRole, TransitReserve};
use rammux::error::{ErrorKind, RammuxError};
use rammux::header::{ControlFlags, PingPayload};
use rammux::probe::ProbeFrame;
use rammux::stream_id::StreamId;
use rammux::time::{TimeSpan, Timestamp};
use rammux::transport::frame::{Data, StreamFrame, StreamWindowUpdate};
use rammux::transport::transit_recv::TransitRecv;
use rammux::transport::{Inbound, OwnFrame, SendGate, Transport};

/// One direction of an in-memory link.
struct Wire {
    frames: VecDeque<DecodedFrame>,
    decoder: Decoder,
}

impl Wire {
    fn new() -> Self {
        Wire {
            frames: VecDeque::new(),
            decoder: Decoder::new(16 * 1024),
        }
    }

    /// Frames travel as bytes, all but those that have no header of their own.
    fn encoded(&mut self, item: EncoderItem) {
        let bytes: Vec<u8> = item.chunks_vectored(2).concat();
        let mut bytes = &bytes[..];
        while !bytes.is_empty() {
            let (now, later) = bytes.split_at(self.decoder.wanted().min(bytes.len()));
            self.frames.extend(self.decoder.feed(now).unwrap());
            bytes = later;
        }
    }

    fn own(&mut self, frame: OwnFrame) {
        match (frame.encode(), frame) {
            (Some(item), _) => self.encoded(item),
            (None, OwnFrame::Probe(ProbeFrame::Clear(syn))) => {
                self.frames.push_back(DecodedFrame::ClearLink { syn });
            }
            (None, OwnFrame::SessionWindowUpdate(update)) => {
                self.frames
                    .push_back(DecodedFrame::SessionWindowUpdate { update });
            }
            (None, other) => panic!("{other:?} does not travel"),
        }
    }
}

/// Two transports over one in-memory link, plus what each has read.
struct Link {
    client: Transport,
    server: Transport,
    forward: Wire,
    backward: Wire,
    /// Stream frames the server read.
    to_server: Vec<StreamFrame>,
    /// Stream frames the client read.
    to_client: Vec<StreamFrame>,
    now: Timestamp,
}

fn pump(
    side: &mut Transport,
    inbound: &mut Wire,
    outbound: &mut Wire,
    read: &mut Vec<StreamFrame>,
    now: Timestamp,
) {
    while let Some(frame) = inbound.frames.pop_front() {
        match side.on_frame(frame, now).expect("a frame was refused") {
            Inbound::Frame(frame, _) => read.push(frame),
            Inbound::Absorbed | Inbound::Terminated => {}
        }
    }
    while let Some(frame) = side.next_own_frame(None, now, PingPayload::random()) {
        outbound.own(frame);
    }
}

impl Link {
    fn new(config: &RammuxConfig) -> Self {
        let now = Timestamp { nanos: 0 };
        Link {
            client: Transport::new(RammuxRole::Client, config, now),
            server: Transport::new(RammuxRole::Server, config, now),
            forward: Wire::new(),
            backward: Wire::new(),
            to_server: Vec::new(),
            to_client: Vec::new(),
            now,
        }
    }

    /// One pass over both sides.
    fn step(&mut self) {
        pump(
            &mut self.client,
            &mut self.backward,
            &mut self.forward,
            &mut self.to_client,
            self.now,
        );
        pump(
            &mut self.server,
            &mut self.forward,
            &mut self.backward,
            &mut self.to_server,
            self.now,
        );
        self.now = self.now.plus(TimeSpan::from_millis(1));
    }

    /// Runs both sides until `done`.
    fn run(&mut self, done: impl Fn(&Self) -> bool) {
        for _ in 0..64 {
            if done(self) {
                return;
            }
            self.step();
        }
        panic!("the transports stalled");
    }

    /// Runs the opening exchange out of the way.
    fn settle(&mut self) {
        self.run(|link| link.client.clean_rtt().is_some() && link.server.clean_rtt().is_some());
        assert!(
            self.to_client.is_empty() && self.to_server.is_empty(),
            "the opening exchange never reaches the caller"
        );
    }

    /// Hands one frame to the client, which must be ready.
    fn send(&mut self, frame: StreamFrame) -> Result<(), RammuxError> {
        assert_eq!(
            self.client.send_gate(),
            SendGate::Open,
            "the sink is not ready"
        );
        match self.client.start_send(frame, self.now) {
            Ok(Some(frame)) => self.forward.encoded(frame.encode()),
            Ok(None) => {}
            Err(error) => return Err(RammuxError(error)),
        }
        Ok(())
    }
}

fn data(id: u8, payload: &'static [u8]) -> StreamFrame {
    StreamFrame::Data(Data {
        stream_id: StreamId::from_be_bytes([0, 0, id]),
        flags: ControlFlags::default(),
        payload: Bytes::from_static(payload).into(),
    })
}

fn window_update(id: u8, update: u32) -> StreamFrame {
    StreamFrame::WindowUpdate(StreamWindowUpdate {
        stream_id: StreamId::from_be_bytes([0, 0, id]),
        flags: ControlFlags::default(),
        update,
    })
}

/// The opening exchange never surfaces: a caller sees stream frames and an RTT
/// that filled itself in.
#[test]
fn the_opening_exchange_is_transparent() {
    let mut link = Link::new(&RammuxConfig::new());
    assert!(link.client.clean_rtt().is_none());
    link.settle();

    for side in [&link.client, &link.server] {
        assert!(side.clean_rtt().is_some());
        assert!(
            side.dirty_rtt().is_some(),
            "on an empty link the clean sample is also the loaded one"
        );
    }
}

#[test]
fn stream_frames_round_trip() {
    let mut link = Link::new(&RammuxConfig::new());
    link.settle();

    link.send(data(2, b"payload")).unwrap();
    link.send(window_update(2, 4096)).unwrap();
    link.run(|link| link.to_server.len() == 2);
    assert!(link.to_server[0] == data(2, b"payload"));
    assert!(link.to_server[1] == window_update(2, 4096));
    assert!(link.to_client.is_empty());
}

/// The transit window paces payload and refills itself: the peer's session
/// updates are consumed here, never surfaced.
#[test]
fn the_transit_window_paces_and_refills() {
    let mut config = RammuxConfig::new();
    config.local_transit_window = 64;
    config.remote_transit_window = 64;
    config.transit_window_max = 64;
    let mut link = Link::new(&config);
    link.settle();

    assert_eq!(link.client.send_budget(), Some(64));
    link.send(data(2, &[b'x'; 48])).unwrap();
    assert_eq!(link.client.send_budget(), Some(16), "payload cost credit");
    // Window updates are free: they are what keeps the peer sending, so an
    // exhausted transit window must not hold them back.
    link.send(window_update(2, 1024)).unwrap();
    assert_eq!(link.client.send_budget(), Some(16));

    // The peer frees the credit as soon as it reads the payload, and returning it
    // is the transport's own business.
    link.run(|link| link.client.send_budget() == Some(64));
    assert!(link.to_server[0] == data(2, &[b'x'; 48]));
    assert!(link.to_server[1] == window_update(2, 1024));
    assert_eq!(link.to_server.len(), 2);
    assert!(
        link.client.take_unblocked(),
        "the grant has to wake whoever was waiting on it"
    );
}

/// Overspending the transit window is a protocol violation, not a silent overrun:
/// the caller has to respect the budget.
#[test]
fn overspending_the_transit_window_fails() {
    let mut config = RammuxConfig::new();
    config.local_transit_window = 16;
    config.remote_transit_window = 16;
    let mut link = Link::new(&config);
    link.settle();

    let error = link.send(data(2, &[b'x'; 32])).unwrap_err();
    assert!(error.is_protocol_violation());
}

/// A probe holds stream frames back until it completes.
#[test]
fn a_probe_holds_the_sink() {
    let mut link = Link::new(&RammuxConfig::new());
    link.settle();

    assert!(link.client.init_probe());
    assert_eq!(
        link.client.send_gate(),
        SendGate::Read,
        "the probe owns the link"
    );
    link.client.hold(data(3, b"held"));
    assert_eq!(link.client.send_gate(), SendGate::TakeHeld);
    assert!(link.client.take_held() == Some(data(3, b"held")));
}

/// The dance runs itself through once both sides are polled, and the sink opens up
/// again with nothing of it visible to either caller.
#[test]
fn a_probe_completes_on_its_own() {
    let mut link = Link::new(&RammuxConfig::new());
    link.settle();
    let before = link.client.clean_rtt().expect("opening sample");

    assert!(link.client.init_probe());
    assert!(!link.client.init_probe(), "one probe at a time");
    link.run(|link| link.client.clean_rtt() != Some(before));

    link.run(|link| link.client.send_gate() == SendGate::Open);
    link.send(data(2, b"after")).unwrap();
    link.run(|link| !link.to_server.is_empty());
    assert!(link.to_server[0] == data(2, b"after"));
    assert!(link.to_client.is_empty(), "the dance stayed out of sight");
}

/// `TERM` exhausts the stream, and what the caller writes afterwards is dropped
/// rather than failing: nobody is left to read it.
#[test]
fn term_exhausts_the_stream() {
    let mut link = Link::new(&RammuxConfig::new());
    link.settle();

    assert!(link.client.start_close());
    assert!(!link.client.start_close(), "one TERM is enough");
    link.forward.encoded(EncoderItem::new_terminate());
    link.run(|link| link.server.terminated());

    assert_eq!(link.server.send_gate(), SendGate::Open);
    let dropped = link.server.start_send(data(3, b"into the void"), link.now);
    assert!(dropped.unwrap().is_none());
    assert!(!link.server.init_ping(PingPayload::random()));
    assert!(!link.server.init_probe());
    assert!(
        link.client
            .next_own_frame(None, link.now, PingPayload::random())
            .is_none(),
        "something of ours followed the TERM"
    );

    let unread = link.forward.decoder.into_unread();
    assert!(unread.is_empty(), "the decoder never reads past a frame");
}

#[test]
fn the_wire_may_end_behind_a_term_only() {
    let mut link = Link::new(&RammuxConfig::new());
    link.settle();
    let error = RammuxError(link.server.on_end().unwrap());
    assert_eq!(
        error.into_io().unwrap().kind(),
        std::io::ErrorKind::UnexpectedEof
    );

    assert!(link.client.start_close());
    link.forward.encoded(EncoderItem::new_terminate());
    link.run(|link| link.server.terminated());
    assert!(link.server.on_end().is_none());
    assert!(link.client.on_end().is_some(), "the other way is still open");
}

#[test]
fn data_on_a_cleared_link_is_refused() {
    let mut link = Link::new(&RammuxConfig::new());
    link.settle();
    let now = link.now;
    link.server
        .on_frame(DecodedFrame::ClearLink { syn: true }, now)
        .unwrap();
    let refused = link
        .server
        .on_frame(DecodedFrame::SessionWindowUpdate { update: 1 }, now);
    assert!(matches!(refused, Err(ErrorKind::Probe(_))));
}

#[test]
fn credit_nobody_asked_for_is_refused() {
    let mut link = Link::new(&RammuxConfig::new());
    link.settle();
    let refused = link
        .client
        .on_frame(DecodedFrame::SessionWindowUpdate { update: 1 }, link.now);
    assert!(matches!(refused, Err(ErrorKind::Transit(_))));

    let mut config = RammuxConfig::new();
    config.local_transit_window = 16;
    config.remote_transit_window = 16;
    let mut link = Link::new(&config);
    link.settle();
    let refused = link.client.on_frame(
        DecodedFrame::SessionWindowUpdate { update: u32::MAX },
        link.now,
    );
    assert!(matches!(refused, Err(ErrorKind::Transit(_))));
    assert_eq!(link.client.send_budget(), Some(16));
}

#[test]
fn stalls_are_timed_from_the_pass_that_found_nothing() {
    let at = |ms: u64| Timestamp {
        nanos: u128::from(ms) * 1_000_000,
    };
    let mut config = RammuxConfig::new();
    config.remote_transit_window = 16;
    let mut transport = Transport::new(RammuxRole::Client, &config, at(0));
    transport.note_send_pass(true, at(10));
    transport.note_send_pass(true, at(20));
    assert_eq!(
        transport.transit_stalls(at(30)),
        (TimeSpan::from_millis(20), 1)
    );
    transport.note_send_pass(false, at(40));
    assert_eq!(
        transport.transit_stalls(at(100)),
        (TimeSpan::from_millis(30), 1)
    );
}

#[test]
fn barriers_and_session_credit_have_no_header() {
    assert!(OwnFrame::SessionWindowUpdate(4).encode().is_none());
    assert!(OwnFrame::Probe(ProbeFrame::Clear(true)).encode().is_none());
    let ping = OwnFrame::Probe(ProbeFrame::Ping(PingPayload::random()));
    assert_eq!(ping.encode().unwrap().remaining(), 8);
}

/// With a reserve, credit is returned before the peer runs into it.
#[test]
fn credit_is_returned_as_configured() {
    for (yardstick, reserved) in [
        (TransitReserve::HalfWindow, false),
        (TransitReserve::CleanRtt, true),
        (TransitReserve::DirtyRtt, true),
    ] {
        let mut config = RammuxConfig::default();
        config.local_transit_window = 64;
        config.remote_transit_window = 64;
        config.transit_update_reserve = yardstick;
        let mut link = Link::new(&config);
        assert!(link.server.reserve_rtt().is_none());
        link.server.set_transit_reserve(Some(60));
        assert!(link.server.transit_recv.unwrap().reserve.is_none(), "nothing to reserve for");
        link.settle();
        let rtt = link.server.reserve_rtt();
        assert_eq!(rtt.is_some(), reserved);
        if let Some(rtt) = rtt {
            assert_eq!(rtt, link.server.clean_rtt().unwrap().value);
        }

        link.server.set_transit_reserve(Some(60));
        link.send(data(2, b"xyz")).unwrap();
        for _ in 0..8 {
            link.step();
        }
        assert_eq!(link.client.send_budget(), Some(61), "61 is more than is reserved");
        link.send(data(2, b"!")).unwrap();
        for _ in 0..8 {
            link.step();
        }
        assert_eq!(link.client.send_budget(), Some(if reserved { 64 } else { 60 }));
    }
}

#[test]
fn a_reserve_decides_when_credit_is_returned() {
    let now = Timestamp { nanos: 0 };
    let mut recv = TransitRecv::new(100, 100, now);
    recv.reserve = Some(100);
    assert!(!recv.can_update(), "there is nothing to return");
    recv.note_freed(1, None, now);
    assert_eq!(recv.take_grant(None, None, now), Some(1));
    recv.reserve = Some(0);
    recv.note_freed(99, None, now);
    assert_eq!(recv.take_grant(None, None, now), None);
    recv.note_freed(1, None, now);
    assert_eq!(recv.take_grant(None, None, now), Some(100));
}

#[test]
fn a_transit_window_is_returned_in_halves() {
    let now = Timestamp { nanos: 0 };
    let mut recv = TransitRecv::new(100, 100, now);
    recv.note_freed(49, None, now);
    assert!(!recv.can_update());
    assert_eq!(recv.take_grant(None, None, now), None);
    recv.note_freed(1, None, now);
    assert!(recv.can_update());
    assert_eq!(recv.take_grant(None, None, now), Some(50));
    assert_eq!(recv.take_grant(None, None, now), None);
}
