use std::collections::{BTreeMap, VecDeque};
use std::ops::ControlFlow;
use std::task::Waker;

use bytes::Bytes;
use rammux::buffer::Data;
use rammux::codec::decoder::{DecodedFrame, Decoder};
use rammux::codec::encoder::EncoderItem;
use rammux::config::{RammuxConfig, RammuxRole};
use rammux::connection::downgrade::{Downgraded, Recovery, WriterStep};
use rammux::connection::pass::{InboundPass, Outbox};
use rammux::connection::state::{Active, ConnState};
use rammux::connection::{Progress, RammuxConnection, RammuxStats, Route};
use rammux::error::{DecodeError, ErrorKind, IoFailure, RammuxError, StreamError};
use rammux::header::{ControlFlags, PingPayload, RawFlags, RawHeader};
use rammux::poll::Poll;
use rammux::probe::{ProbeEvent, ProbeFrame};
use rammux::stream::duplex::RammuxDuplex;
use rammux::stream::fin::FinState;
use rammux::stream::updates::{StreamOutput, StreamUpdates};
use rammux::stream::waker::Wakes;
use rammux::stream::SharedStreamState;
use rammux::stream_id::StreamId;
use rammux::time::{TimeSpan, Timestamp};
use rammux::transport::frame::{self, Payload, StreamFrame, StreamWindowUpdate};
use rammux::transport::{Inbound, OwnFrame, SendGate, Transport};

/// One direction of an in-memory link. Frames travel as bytes, all but those that
/// have no header of their own.
struct Wire {
    frames: VecDeque<DecodedFrame>,
    decoder: Decoder,
}

impl Wire {
    fn new(frame_limit: u32) -> Self {
        Wire {
            frames: VecDeque::new(),
            decoder: Decoder::new(frame_limit),
        }
    }

    fn encoded(&mut self, item: EncoderItem) {
        let bytes: Vec<u8> = item.chunks_vectored(2).concat();
        let mut bytes = &bytes[..];
        while !bytes.is_empty() {
            let (now, later) = bytes.split_at(self.decoder.wanted().min(bytes.len()));
            self.frames.extend(self.decoder.feed(now).unwrap());
            bytes = later;
        }
    }

    fn own(&mut self, frame: OwnFrame) {
        match (frame.encode(), frame) {
            (Some(item), _) => self.encoded(item),
            (None, OwnFrame::Probe(ProbeFrame::Clear(syn))) => {
                self.frames.push_back(DecodedFrame::ClearLink { syn });
            }
            (None, OwnFrame::SessionWindowUpdate(update)) => {
                self.frames
                    .push_back(DecodedFrame::SessionWindowUpdate { update });
            }
            (None, other) => panic!("{other:?} does not travel"),
        }
    }
}

/// A stream as the driver and the application hold it.
struct Stream {
    state: SharedStreamState,
    updates: Option<StreamUpdates>,
    duplex: RammuxDuplex,
    to_write: usize,
    read: usize,
    finished: bool,
}

/// One side of a connection with everything around it.
struct Side {
    conn: RammuxConnection,
    streams: BTreeMap<u32, Stream>,
    schedule: VecDeque<u32>,
    events: Vec<ProbeEvent>,
    started: Vec<u32>,
    now: Timestamp,
    data_in_stream: usize,
}

fn active(conn: &mut RammuxConnection) -> &mut Active {
    match &mut conn.state {
        ConnState::Active(active) => active,
        _ => panic!("the connection is over"),
    }
}

impl Side {
    fn new(role: RammuxRole, config: RammuxConfig, data_in_stream: usize) -> Self {
        let now = Timestamp { nanos: 0 };
        Side {
            conn: RammuxConnection::new(role, config, now),
            streams: BTreeMap::new(),
            schedule: VecDeque::new(),
            events: Vec::new(),
            started: Vec::new(),
            now,
            data_in_stream,
        }
    }

    fn add_stream(&mut self, id: StreamId, is_outbound: bool) {
        let (state, updates, duplex) =
            rammux::stream::new(id, is_outbound, &self.conn.config, self.now);
        let stream = Stream {
            state,
            updates: Some(updates),
            duplex,
            to_write: self.data_in_stream,
            read: 0,
            finished: false,
        };
        self.streams.insert(id.value(), stream);
        self.schedule.push_back(id.value());
    }

    fn read_frames(&mut self, inbound: &mut Wire) {
        while let Some(frame) = inbound.frames.pop_front() {
            let transport = &mut active(&mut self.conn).transport;
            let frame = match transport.on_frame(frame, self.now).unwrap() {
                Inbound::Frame(frame, _) => frame,
                Inbound::Absorbed => continue,
                Inbound::Terminated => return,
            };
            let id = frame.stream_id();
            let progress = match self.conn.route(id, frame.flags()).unwrap() {
                Route::New => {
                    self.add_stream(id, false);
                    self.started.push(id.value());
                    Some(Progress::Inbound(id))
                }
                Route::Existing => Some(Progress::Empty),
            };
            let stream = self.streams.get_mut(&id.value()).unwrap();
            self.conn.deliver(frame, &mut stream.state, &mut Wakes::new()).unwrap();
            if let Some(Progress::Probe(event)) = self.conn.report(progress).unwrap() {
                self.events.push(event);
            }
        }
        while let Some(Progress::Probe(event)) = self.conn.report(None).unwrap() {
            self.events.push(event);
        }
    }

    fn send_frames(&mut self, outbound: &mut Wire) {
        loop {
            let transport = &mut active(&mut self.conn).transport;
            while let Some(frame) = transport.next_own_frame(None, self.now, PingPayload::random())
            {
                outbound.own(frame);
            }
            if transport.send_gate() != SendGate::Open {
                return;
            }
            self.conn.refresh_pool().unwrap();
            let Some(output) = self.poll_streams() else {
                self.conn.note_send_pass(true, self.now).unwrap();
                return;
            };
            let id = output.first.stream_id();
            for frame in [Some(output.first), output.second].into_iter().flatten() {
                if let Some(frame) = self.conn.send(frame, self.now).unwrap() {
                    outbound.encoded(frame.encode());
                }
            }
            self.conn.retire(id, output.fin_state).unwrap();
        }
    }

    /// The next stream in turn that has something to say.
    fn poll_streams(&mut self) -> Option<StreamOutput> {
        for _ in 0..self.schedule.len() {
            let id = self.schedule.pop_front()?;
            let stream = self.streams.get_mut(&id).unwrap();
            let Some(updates) = &mut stream.updates else {
                continue;
            };
            let polled = updates.poll_progress(
                &mut stream.state,
                &mut active(&mut self.conn).global,
                Waker::noop(),
                0,
                self.now,
                &mut Wakes::new(),
            );
            match polled {
                Poll::Ready(ControlFlow::Break(output)) => {
                    stream.updates = None;
                    return Some(output);
                }
                Poll::Ready(ControlFlow::Continue(output)) => {
                    self.schedule.push_back(id);
                    return Some(output);
                }
                Poll::Pending => self.schedule.push_back(id),
            }
        }
        None
    }

    /// What the application does with its streams.
    fn run_streams(&mut self) {
        for stream in self.streams.values_mut() {
            let waker = Waker::noop();
            while stream.to_write > 0 {
                match stream.duplex.sink.poll_ready(&mut stream.state, waker) {
                    Poll::Ready(result) => result.unwrap(),
                    Poll::Pending => break,
                }
                let chunk = Bytes::from(vec![b'A'; stream.to_write.min(64 * 1024)]);
                stream.to_write -= chunk.len();
                stream
                    .duplex
                    .sink
                    .start_send(&mut stream.state, chunk, &mut Wakes::new())
                    .unwrap();
            }
            if stream.to_write == 0 {
                let _ = stream.duplex.sink.poll_close(&mut stream.state, waker, &mut Wakes::new());
            }
            while !stream.finished {
                match stream.duplex.stream.poll_next(&mut stream.state, waker, &mut Wakes::new()) {
                    Poll::Ready(Some(data)) => stream.read += data.len(),
                    Poll::Ready(None) => stream.finished = true,
                    Poll::Pending => break,
                }
            }
        }
    }

    fn step(&mut self, inbound: &mut Wire, outbound: &mut Wire) {
        self.read_frames(inbound);
        self.run_streams();
        if self.conn.take_unblocked().unwrap() {
            // Every stream is polled again below.
        }
        self.send_frames(outbound);
        self.now = self.now.plus(TimeSpan::from_millis(1));
    }
}

fn config() -> RammuxConfig {
    let mut config = RammuxConfig::new();
    config.frame_limit = 256;
    config.local_recv_window = 1024;
    config.remote_recv_window = 1024;
    config.max_inbound_streams = 16;
    config.max_outbound_streams = 16;
    config
}

fn run_two_sides(streams: u32) {
    const DATA: usize = 32 * 1024;
    let mut sides = [
        Side::new(RammuxRole::Client, config(), DATA),
        Side::new(RammuxRole::Server, config(), DATA),
    ];
    let mut wires = [Wire::new(256), Wire::new(256)];
    let mut remaining_outbound = [streams; 2];
    let mut done = [0; 2];
    for pass in 0..20_000 {
        for (i, side) in sides.iter_mut().enumerate() {
            while remaining_outbound[i] > 0 {
                let Some(id) = side.conn.try_start_outbound().unwrap() else {
                    break;
                };
                remaining_outbound[i] -= 1;
                side.add_stream(id, true);
            }
            // The schedule an application is expected to impose.
            if pass % 25 == 0 && !side.conn.start_probe().unwrap() {
                side.conn.abandon_ping().unwrap();
            }
            if pass % 7 == 0 {
                side.conn.send_ping(PingPayload::random()).unwrap();
            }
            let (left, right) = wires.split_at_mut(1);
            if i == 0 {
                side.step(&mut right[0], &mut left[0]);
            } else {
                side.step(&mut left[0], &mut right[0]);
            }
            let over: Vec<u32> = side
                .streams
                .iter()
                .filter(|(_, stream)| {
                    stream.finished && stream.to_write == 0 && stream.state.fin_state().is_dead()
                })
                .map(|(id, _)| *id)
                .collect();
            for id in over {
                let stream = side.streams.remove(&id).unwrap();
                side.schedule.retain(|other| *other != id);
                assert_eq!(stream.read, DATA);
                done[i] += 1;
            }
        }
        if done == [2 * streams; 2] {
            break;
        }
    }
    assert_eq!(done, [2 * streams; 2], "the streams stalled");
    for side in &mut sides {
        let stats = side.conn.stats(side.now);
        assert_eq!((stats.inbound_streams, stats.outbound_streams), (0, 0));
        assert_eq!(stats.available_global_recv_window, 4 * 1024 * 1024);
        assert!(stats.rtt.is_some());
        assert_eq!(side.started.len() as u32, streams);
    }

    // Both sides give the transport back.
    let [mut client, mut server] = sides;
    let mut downgraded = [
        client.conn.downgrade(false).unwrap(),
        server.conn.downgrade(false).unwrap(),
    ];
    for side in &mut downgraded {
        assert_eq!(side.writer_step(), WriterStep::Close);
        assert!(side.transport.start_close());
        side.writer_done();
        assert_eq!(side.recovery(&[]), Recovery::Pending);
        side.on_inbound(&Inbound::Absorbed);
        assert!(side.reading());
        side.on_inbound(&Inbound::Terminated);
        assert_eq!(side.recovery(&[]), Recovery::Clean);
        assert_eq!(side.recovery(b"B"), Recovery::Dirty);
    }
    assert!(client.conn.try_start_outbound().unwrap_err().is_user());
    assert_eq!(client.conn.stats(client.now), RammuxStats::default());
}

#[test]
fn two_sides() {
    for streams in [1, 16, 64] {
        run_two_sides(streams);
    }
}

fn pair() -> ([Side; 2], [Wire; 2]) {
    let config = RammuxConfig::new();
    (
        [
            Side::new(RammuxRole::Client, config, 0),
            Side::new(RammuxRole::Server, config, 0),
        ],
        [Wire::new(16 * 1024), Wire::new(16 * 1024)],
    )
}

/// Runs both sides until each has reported the transitions asked of it.
fn exchange(
    sides: &mut [Side; 2],
    wires: &mut [Wire; 2],
    want: [usize; 2],
) -> [Vec<ProbeEvent>; 2] {
    for _ in 0..64 {
        if sides[0].events.len() >= want[0] && sides[1].events.len() >= want[1] {
            let [a, b] = sides;
            return [
                std::mem::take(&mut a.events),
                std::mem::take(&mut b.events),
            ];
        }
        let (left, right) = wires.split_at_mut(1);
        sides[0].step(&mut right[0], &mut left[0]);
        sides[1].step(&mut left[0], &mut right[0]);
    }
    panic!("the exchange never completed");
}

/// The link is clear before either side has sent anything, so the first sample
/// costs one round trip and needs no draining.
#[test]
fn a_fresh_connection_measures_itself() {
    let (mut sides, mut wires) = pair();
    let stats = sides[0].conn.stats(sides[0].now);
    assert!(stats.rtt.is_none());
    assert!(stats.dirty_rtt.is_none());

    let events = exchange(&mut sides, &mut wires, [2, 2]);
    for events in &events {
        assert_eq!(events[0], ProbeEvent::ProbeStarted { initiated: true });
        assert!(matches!(events[1], ProbeEvent::ProbeCompleted { .. }));
    }
    let stats = sides[0].conn.stats(sides[0].now);
    assert!(stats.rtt.is_some());
    assert!(
        stats.dirty_rtt.is_some(),
        "on an empty link the clean sample is also the loaded one"
    );
}

/// Neither `PING` mechanism runs on its own, and each reports the transitions an
/// application needs to time it out.
#[test]
fn ping_and_probe_are_caller_driven() {
    let (mut sides, mut wires) = pair();
    assert!(
        !sides[0].conn.send_ping(PingPayload::random()).unwrap(),
        "the opening exchange owns the link"
    );
    exchange(&mut sides, &mut wires, [2, 2]);
    let clean = sides[0].conn.stats(sides[0].now).rtt;

    // A plain ping, in and out, yields the loaded sample.
    assert!(sides[0].conn.send_ping(PingPayload::random()).unwrap());
    assert!(
        !sides[0].conn.send_ping(PingPayload::random()).unwrap(),
        "only one is outstanding"
    );
    let [events, _] = exchange(&mut sides, &mut wires, [2, 0]);
    assert_eq!(events[0], ProbeEvent::PingSent);
    assert!(matches!(events[1], ProbeEvent::PingAnswered { .. }));
    assert_eq!(
        sides[0].conn.stats(sides[0].now).rtt,
        clean,
        "a plain ping is not a clean sample"
    );

    // A probe yields the clean sample the transit autotune sizes from.
    assert!(sides[0].conn.start_probe().unwrap());
    assert!(!sides[0].conn.start_probe().unwrap(), "one probe at a time");
    let [client_events, server_events] = exchange(&mut sides, &mut wires, [2, 2]);
    assert_eq!(
        client_events[0],
        ProbeEvent::ProbeStarted { initiated: true }
    );
    assert!(matches!(
        client_events[1],
        ProbeEvent::ProbeCompleted { .. }
    ));
    // The peer's probe is announced there too: it pauses that side's data, so an
    // application watching for a stuck connection sees it.
    assert_eq!(
        server_events[0],
        ProbeEvent::ProbeStarted { initiated: false }
    );
    assert!(matches!(
        server_events[1],
        ProbeEvent::ProbeCompleted { .. }
    ));
}

fn syn() -> ControlFlags {
    ControlFlags {
        syn: true,
        fin_read: false,
        fin_write: false,
    }
}

fn message(error: ErrorKind) -> &'static str {
    match error {
        ErrorKind::Stream { error, .. } => error.0,
        other => panic!("{other:?}"),
    }
}

#[test]
fn frames_that_no_stream_can_take_are_refused() {
    let mut config = RammuxConfig::new();
    config.max_inbound_streams = 1;
    let mut conn = RammuxConnection::new(RammuxRole::Client, config, Timestamp { nanos: 0 });
    let ours = StreamId::from_be_bytes([0, 0, 0]);
    let theirs = StreamId::from_be_bytes([0, 0, 1]);
    let next = StreamId::from_be_bytes([0, 0, 3]);
    assert_eq!(
        message(conn.route(ours, syn()).unwrap_err()),
        "started a new stream with an ID from the wrong pool"
    );
    assert_eq!(
        message(conn.route(theirs, ControlFlags::default()).unwrap_err()),
        "sent a frame for an unknown stream"
    );
    assert_eq!(conn.route(theirs, syn()).unwrap(), Route::New);
    assert_eq!(
        conn.route(theirs, ControlFlags::default()).unwrap(),
        Route::Existing
    );
    assert_eq!(
        message(conn.route(theirs, syn()).unwrap_err()),
        "started a new stream with an occupied ID"
    );
    assert_eq!(
        message(conn.route(next, syn()).unwrap_err()),
        "started a new stream without respecting the configured limit"
    );
    let dead = FinState {
        sent: true,
        received: true,
    };
    assert!(conn.retire(theirs, dead).unwrap());
    assert_eq!(conn.route(next, syn()).unwrap(), Route::New);
}

#[test]
fn freed_ids_are_used_again() {
    let mut config = RammuxConfig::new();
    config.max_outbound_streams = 2;
    let mut conn = RammuxConnection::new(RammuxRole::Server, config, Timestamp { nanos: 0 });
    let first = conn.try_start_outbound().unwrap().unwrap();
    let second = conn.try_start_outbound().unwrap().unwrap();
    assert_eq!((first.value(), second.value()), (1, 3));
    assert!(conn.try_start_outbound().unwrap().is_none());
    let dead = FinState {
        sent: true,
        received: true,
    };
    let alive = FinState {
        sent: true,
        received: false,
    };
    assert!(!conn.retire(first, alive).unwrap());
    assert!(conn.try_start_outbound().unwrap().is_none());
    assert!(conn.retire(first, dead).unwrap());
    assert_eq!(conn.try_start_outbound().unwrap(), Some(first));
}

#[test]
fn failures_poison_the_connection() {
    let mut conn = RammuxConnection::new(
        RammuxRole::Client,
        RammuxConfig::new(),
        Timestamp { nanos: 0 },
    );
    conn.fail(&RammuxError(ErrorKind::AlreadyDowngraded));
    assert!(conn.start_probe().is_ok());
    conn.fail(&RammuxError(ErrorKind::Transit("nothing goes right")));
    let error = conn.start_probe().unwrap_err();
    assert!(matches!(error.0, ErrorKind::Poisoned));
    assert!(error.is_user());
    assert!(matches!(
        conn.downgrade(true),
        Err(RammuxError(ErrorKind::Poisoned))
    ));
}

#[test]
fn a_shutdown_follows_the_final_frame() {
    let now = Timestamp { nanos: 0 };
    let transport = Transport::new(RammuxRole::Client, &RammuxConfig::new(), now);
    let mut downgraded = Downgraded::new(transport, true).with_shutdown();
    assert!(!downgraded.reading());
    downgraded.writer_done();
    assert_eq!(downgraded.writer_step(), WriterStep::Shutdown);
    assert_eq!(downgraded.recovery(&[]), Recovery::Pending);
    downgraded.writer_done();
    assert_eq!(downgraded.writer_step(), WriterStep::Done);
    assert_eq!(downgraded.recovery(&[]), Recovery::Clean);
}

#[test]
fn data_for_a_closed_direction_is_refused() {
    let mut conn = RammuxConnection::new(
        RammuxRole::Client,
        RammuxConfig::new(),
        Timestamp { nanos: 0 },
    );
    let id = StreamId::from_be_bytes([0, 0, 1]);
    assert_eq!(conn.route(id, syn()).unwrap(), Route::New);
    let (mut state, _, _) =
        rammux::stream::new(id, false, &conn.config, Timestamp { nanos: 0 });
    let frame = |fin_write| {
        StreamFrame::Data(frame::Data {
            stream_id: id,
            flags: ControlFlags {
                syn: false,
                fin_read: false,
                fin_write,
            },
            payload: Data::copy_from_slice(b"abc").into(),
        })
    };
    assert!(!conn.deliver(frame(true), &mut state, &mut Wakes::new()).unwrap());
    let refused = conn.deliver(frame(false), &mut state, &mut Wakes::new()).unwrap_err();
    assert!(RammuxError(refused).is_protocol_violation());
}

#[test]
fn every_error_is_of_one_sort() {
    let id = StreamId::from_be_bytes([0, 0, 1]);
    let payload = PingPayload::from_random(1, 2);
    let elapsed = TimeSpan::zero();
    let header = RawHeader {
        stream_id: id,
        flags: RawFlags::from_bits_retain(0xFF),
        len: 0,
    };
    // User, transport, protocol, timeout.
    let sorts = |error: &RammuxError| {
        [
            error.is_user(),
            error.is_io(),
            error.is_protocol_violation(),
            error.is_ping_timeout(),
        ]
    };
    let errors = [
        (ErrorKind::AlreadyDowngraded, 0),
        (ErrorKind::Poisoned, 0),
        (ErrorKind::from(IoFailure::UnexpectedEof), 1),
        (
            ErrorKind::Decode(DecodeError {
                header,
                message: "no such header",
            }),
            2,
        ),
        (
            ErrorKind::Stream {
                id,
                error: StreamError::from("no such stream"),
            },
            2,
        ),
        (ErrorKind::UnexpectedPing(payload), 2),
        (ErrorKind::Probe("no such dance"), 2),
        (ErrorKind::Transit("no such credit"), 2),
        (ErrorKind::PingTimeout { payload, elapsed }, 3),
        (ErrorKind::PingSendTimeout { elapsed }, 3),
        (ErrorKind::PingResponseTimeout { payload, elapsed }, 3),
    ];
    for (kind, sort) in errors {
        let error = RammuxError(kind);
        let mut expected = [false; 4];
        expected[sort] = true;
        assert_eq!(sorts(&error), expected, "{error:?}");
        assert_eq!(error.as_io().is_some(), sort == 1);
        assert_eq!(error.into_io().is_ok(), sort == 1);
    }
}

#[test]
fn a_pass_takes_in_one_batch_and_stops_at_a_new_stream() {
    let mut pass = InboundPass::new();
    for _ in 0..16 {
        assert!(pass.wants_more());
        pass.on_frame(None);
        assert_eq!(pass.progress, Some(Progress::Empty));
    }
    assert!(!pass.wants_more());

    let id = StreamId::from_be_bytes([0, 0, 3]);
    let mut pass = InboundPass::new();
    assert_eq!(pass.progress, None);
    pass.on_frame(Some(id));
    assert_eq!(pass.progress, Some(Progress::Inbound(id)));
    assert!(!pass.wants_more());
}

#[test]
fn a_pair_of_frames_goes_out_back_to_back() {
    let id = StreamId::from_be_bytes([0, 0, 2]);
    let flags = ControlFlags::default();
    let update = || {
        StreamFrame::WindowUpdate(StreamWindowUpdate {
            stream_id: id,
            flags,
            update: 5,
        })
    };
    let data = || {
        StreamFrame::Data(frame::Data {
            stream_id: id,
            flags,
            payload: Payload::from(Bytes::from_static(b"after")),
        })
    };
    let fin_state = FinState {
        sent: true,
        received: false,
    };

    let mut outbox = Outbox::new();
    assert!(outbox.next().is_none());
    let first = outbox.accept(StreamOutput {
        first: update(),
        second: Some(data()),
        fin_state,
    });
    assert!(first.frame == update());
    assert_eq!(first.fin_state, None);
    let second = outbox.next().unwrap();
    assert!(second.frame == data());
    assert_eq!(second.fin_state, Some(fin_state));
    assert!(outbox.next().is_none());

    let only = outbox.accept(StreamOutput {
        first: data(),
        second: None,
        fin_state,
    });
    assert!(only.frame == data());
    assert_eq!(only.fin_state, Some(fin_state));
    assert!(outbox.next().is_none());
}

#[test]
fn outbound_ids_are_given_out_from_the_bottom() {
    let now = Timestamp { nanos: 0 };
    let mut config = RammuxConfig::new();
    config.max_outbound_streams = 3;
    let mut server = RammuxConnection::new(RammuxRole::Server, config, now);
    let mut started = Vec::new();
    while let Some(id) = server.try_start_outbound().unwrap() {
        started.push(id);
    }
    let values: Vec<u32> = started.iter().map(|id| id.value()).collect();
    assert_eq!(values, [1, 3, 5]);

    let dead = FinState {
        sent: true,
        received: true,
    };
    assert!(server.retire(started[0], dead).unwrap());
    assert!(server.retire(started[2], dead).unwrap());
    let again: Vec<u32> = (0..2)
        .map(|_| server.try_start_outbound().unwrap().unwrap().value())
        .collect();
    assert_eq!(again, [5, 1], "the slot that was freed last is used first");
    assert!(server.try_start_outbound().unwrap().is_none());
}
