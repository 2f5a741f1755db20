use std::ops::ControlFlow;
use std::sync::atomic::{AtomicUsize, Ordering};
use std::sync::Arc;
use std::task::{Wake, Waker};

use bytes::Bytes;
use rammux::buffer::Data;
use rammux::codec::decoder::{DecodedFrame, Decoder, StreamPayload};
use rammux::codec::encoder::EncoderItem;
use rammux::config::RammuxConfig;
use rammux::global_pool::GlobalPool;
use rammux::header::ControlFlags;
use rammux::poll::Poll;
use rammux::stream::duplex::RammuxDuplex;
use rammux::stream::fin::FinState;
use rammux::stream::inbound::SizingInputs;
use rammux::stream::outbound::{OutboundTraffic, WriteError};
use rammux::stream::updates::{StreamOutput, StreamUpdates};
use rammux::stream::waker::{WakerSlot, Wakes};
use rammux::stream::SharedStreamState;
use rammux::stream_id::StreamId;
use rammux::time::{TimeSpan, Timestamp};
use rammux::transport::frame::{self, Payload, StreamFrame};

fn config() -> RammuxConfig {
    let mut config = RammuxConfig::new();
    config.frame_limit = 8;
    config.max_inbound_streams = 4;
    config.max_outbound_streams = 4;
    config.local_recv_window = 12;
    config.remote_recv_window = 14;
    config.global_recv_window = 32;
    config
}

/// Credit carried by a `WINDOW_UPDATE` frame.
fn window_update(frame: &StreamFrame) -> u32 {
    match frame {
        StreamFrame::WindowUpdate(update) => update.update,
        StreamFrame::Data(..) => panic!("expected a WINDOW_UPDATE frame"),
    }
}

/// Payload of a `DATA` frame.
fn payload(frame: &StreamFrame) -> &Payload {
    match frame {
        StreamFrame::Data(data) => &data.payload,
        StreamFrame::WindowUpdate(..) => panic!("expected a DATA frame"),
    }
}

/// One and a half times the bandwidth-delay product.
fn optimal(inputs: Option<SizingInputs>) -> u32 {
    match inputs {
        Some(inputs) => {
            let round_trips = inputs.elapsed.nanos as f64 / inputs.rtt.nanos as f64;
            (f64::from(inputs.freed) / round_trips * 1.5) as u32
        }
        None => 0,
    }
}

struct Stream {
    state: SharedStreamState,
    updates: StreamUpdates,
    duplex: RammuxDuplex,
    pool: GlobalPool,
    now: Timestamp,
}

fn new_stream(pool: GlobalPool) -> Stream {
    let now = Timestamp { nanos: 0 };
    let id = StreamId::from_be_bytes([0, 0, 0]);
    let (state, updates, duplex) = rammux::stream::new(id, true, &config(), now);
    Stream {
        state,
        updates,
        duplex,
        pool,
        now,
    }
}

impl Stream {
    fn advance(&mut self, ms: u64) {
        self.now = self.now.plus(TimeSpan::from_millis(ms));
    }

    fn output(&mut self) -> Option<StreamOutput> {
        let inputs = self
            .updates
            .sizing_inputs(&self.state, &self.pool, self.now);
        let polled = self.updates.poll_progress(
            &mut self.state,
            &mut self.pool,
            Waker::noop(),
            optimal(inputs),
            self.now,
            &mut Wakes::new(),
        );
        match polled {
            Poll::Ready(ControlFlow::Break(output) | ControlFlow::Continue(output)) => Some(output),
            Poll::Pending => None,
        }
    }

    fn next(&mut self) -> Poll<Option<Data>> {
        self.duplex.stream.poll_next(&mut self.state, Waker::noop(), &mut Wakes::new())
    }

    fn read(&mut self) -> Data {
        match self.next() {
            Poll::Ready(Some(data)) => data,
            _ => panic!("there is nothing to read"),
        }
    }

    fn feed(&mut self, bytes: &'static [u8]) -> Result<(), WriteError> {
        match self.duplex.sink.poll_ready(&mut self.state, Waker::noop()) {
            Poll::Ready(Ok(())) => self
                .duplex
                .sink
                .start_send(&mut self.state, Bytes::from_static(bytes), &mut Wakes::new()),
            Poll::Ready(Err(error)) => Err(error),
            Poll::Pending => panic!("the sink is not ready"),
        }
    }

    fn flushed(&mut self) -> bool {
        matches!(
            self.duplex.sink.poll_flush(&mut self.state, Waker::noop()),
            Poll::Ready(())
        )
    }

    fn receive(&mut self, bytes: &[u8]) -> Result<FinState, rammux::error::StreamError> {
        self.state
            .received_data(Data::copy_from_slice(bytes), false, false, &mut Wakes::new())
    }
}

const OPEN: FinState = FinState {
    sent: false,
    received: false,
};

/// Closing both directions at once takes two frames - one carries each fin - and
/// they come out as a pair, back to back.
#[test]
fn rammux_duplex_drop_closes_both() {
    let mut stream = new_stream(GlobalPool::default());
    stream.duplex.sink.close(&mut stream.state, &mut Wakes::new());
    stream.duplex.stream.close(&mut stream.state, &mut Wakes::new());

    let StreamOutput {
        first,
        second,
        fin_state,
    } = stream.output().unwrap();
    assert_eq!(
        first.flags(),
        ControlFlags {
            fin_read: true,
            fin_write: false,
            syn: true
        },
        "the window update leads, and carries SYN"
    );
    assert_eq!(
        second.expect("expected the payload frame too").flags(),
        ControlFlags {
            fin_read: false,
            fin_write: true,
            syn: false
        }
    );
    assert_eq!(
        fin_state,
        FinState {
            sent: true,
            received: false
        }
    );
}

#[test]
fn rammux_sink_drop_closes_writing() {
    let mut stream = new_stream(GlobalPool::default());
    stream.duplex.sink.close(&mut stream.state, &mut Wakes::new());
    let StreamOutput {
        first: update,
        fin_state,
        ..
    } = stream.output().unwrap();
    assert_eq!(
        update.flags(),
        ControlFlags {
            fin_read: false,
            fin_write: true,
            syn: true
        }
    );
    assert_eq!(fin_state, OPEN);
}

#[test]
fn rammux_stream_drop_closes_reading() {
    let mut stream = new_stream(GlobalPool::default());
    stream.duplex.stream.close(&mut stream.state, &mut Wakes::new());
    let StreamOutput {
        first: update,
        fin_state,
        ..
    } = stream.output().unwrap();
    assert_eq!(
        update.flags(),
        ControlFlags {
            fin_read: true,
            fin_write: false,
            syn: true
        }
    );
    assert_eq!(fin_state, OPEN);
}

#[test]
fn local_receive_window_is_autotuned() {
    let window = config().local_recv_window;
    let pool = window as usize * 4;
    let mut stream = new_stream(GlobalPool {
        available: pool,
        ..Default::default()
    });

    for _ in 0..5 {
        stream.receive(&vec![b'a'; window as usize]).unwrap();
        stream.read();
        let StreamOutput { first: update, .. } = stream.output().unwrap();
        assert_eq!(window_update(&update), window);
    }

    stream.pool.dirty_rtt = Some(TimeSpan::from_millis(1_000));
    let mut current_window = window;

    while stream.pool.available > 0 {
        stream.advance(100);
        stream
            .receive(&vec![b'a'; current_window as usize])
            .unwrap();
        stream.read();
        let StreamOutput { first: update, .. } = stream.output().unwrap();
        assert!(window_update(&update) > current_window);
        current_window = window_update(&update);
    }

    while stream.pool.available < pool {
        stream.advance(5_000);
        stream
            .receive(&vec![b'a'; current_window as usize])
            .unwrap();
        stream.read();
        let StreamOutput { first: update, .. } = stream.output().unwrap();
        assert!(window_update(&update) < current_window);
        current_window = window_update(&update);
    }
}

/// A window multiplies by no more than the configured factor in one round.
#[test]
fn receive_windows_grow_by_the_factor_at_most() {
    let window = config().local_recv_window;
    for growth in 1..=5 {
        let mut stream = new_stream(GlobalPool {
            available: 1_000,
            dirty_rtt: Some(TimeSpan::from_millis(1_000)),
            growth,
            ..Default::default()
        });
        stream.advance(1);
        stream.receive(&vec![b'a'; window as usize]).unwrap();
        stream.read();
        let StreamOutput { first: update, .. } = stream.output().unwrap();
        assert_eq!(window_update(&update), window * growth);
        assert_eq!(stream.pool.available, 1_000 - (window * (growth - 1)) as usize);
        assert_eq!(stream.pool.growth, growth);
    }
}

#[test]
fn local_receive_window_is_respected() {
    let mut stream = new_stream(GlobalPool::default());
    for _ in 0..config().local_recv_window {
        stream.receive(b"a").unwrap();
    }
    stream.receive(b"a").unwrap_err();
}

#[test]
fn remote_receive_window_is_respected() {
    let mut stream = new_stream(GlobalPool::default());
    for _ in 0..config().remote_recv_window {
        stream.feed(b"a").unwrap();
        assert!(!stream.flushed());
        let StreamOutput {
            first: update,
            fin_state,
            ..
        } = stream.output().unwrap();
        assert_eq!(payload(&update).len(), 1);
        assert_eq!(fin_state, OPEN);
        assert!(stream.flushed());
    }

    stream.feed(b"a").unwrap();
    assert!(!stream.flushed());
    assert!(stream.output().is_none());
    stream
        .state
        .received_window_update(8, false, false, &mut Wakes::new())
        .unwrap();
    let StreamOutput {
        first: update,
        fin_state,
        ..
    } = stream.output().unwrap();
    assert_eq!(payload(&update).len(), 1);
    assert_eq!(fin_state, OPEN);
    assert!(stream.flushed());
}

#[test]
fn fin_read_closes_writing() {
    let mut stream = new_stream(GlobalPool::default());
    stream.state.received_window_update(0, true, false, &mut Wakes::new()).unwrap();
    assert!(matches!(stream.feed(b"a"), Err(WriteError::BrokenPipe)));
}

#[test]
fn fin_write_closes_reading() {
    let mut stream = new_stream(GlobalPool::default());
    stream.state.received_window_update(0, false, true, &mut Wakes::new()).unwrap();
    assert!(matches!(stream.next(), Poll::Ready(None)));
}

#[test]
fn data_is_cut_at_the_frame_limit() {
    let mut stream = new_stream(GlobalPool::default());
    stream.feed(b"0123456789").unwrap();
    let first = stream.output().unwrap();
    assert_eq!(payload(&first.first).as_slice(), b"01234567");
    assert!(first.first.flags().syn);
    let second = stream.output().unwrap();
    assert_eq!(payload(&second.first).as_slice(), b"89");
    assert!(!second.first.flags().syn);
    assert!(stream.flushed());
}

#[test]
fn data_is_cut_at_the_transit_budget() {
    let mut stream = new_stream(GlobalPool {
        send_budget: Some(3),
        ..Default::default()
    });
    stream.feed(b"0123456789").unwrap();
    let first = stream.output().unwrap();
    assert_eq!(payload(&first.first).as_slice(), b"012");
    stream.pool.send_budget = Some(0);
    assert!(stream.output().is_none());
    assert!(
        stream.pool.transit_blocked,
        "only the transit window holds the payload back"
    );
}

#[test]
fn a_window_update_leads_the_payload() {
    let mut stream = new_stream(GlobalPool::default());
    stream.receive(b"abcdefgh").unwrap();
    stream.read();
    stream.feed(b"xyz").unwrap();
    let output = stream.output().unwrap();
    assert_eq!(window_update(&output.first), 8);
    assert_eq!(payload(&output.second.unwrap()).as_slice(), b"xyz");
    assert_eq!(output.fin_state, OPEN);
}

#[test]
fn data_is_read_in_the_order_it_came() {
    let mut stream = new_stream(GlobalPool::default());
    stream.receive(b"one").unwrap();
    stream.receive(b"two").unwrap();
    assert_eq!(stream.read().as_slice(), b"one");
    assert_eq!(stream.read().as_slice(), b"two");
    assert!(matches!(stream.next(), Poll::Pending));
}

#[test]
fn a_stream_dies_when_both_sides_have_closed_both_directions() {
    let mut stream = new_stream(GlobalPool::default());
    stream.duplex.sink.close(&mut stream.state, &mut Wakes::new());
    stream.duplex.stream.close(&mut stream.state, &mut Wakes::new());
    let polled = stream.updates.poll_progress(
        &mut stream.state,
        &mut stream.pool,
        Waker::noop(),
        0,
        stream.now,
        &mut Wakes::new(),
    );
    assert!(matches!(polled, Poll::Ready(ControlFlow::Break(_))));
    let fins = stream.state.received_window_update(0, true, true, &mut Wakes::new()).unwrap();
    assert!(fins.is_dead());
    assert!(stream.state.fin_state().is_dead());
    stream.state.received_window_update(1, false, false, &mut Wakes::new()).unwrap_err();
}

#[test]
fn writing_too_early_is_refused() {
    let mut stream = new_stream(GlobalPool::default());
    stream.feed(b"abc").unwrap();
    let refused = stream
        .duplex
        .sink
        .start_send(&mut stream.state, Bytes::from_static(b"d"), &mut Wakes::new());
    assert!(matches!(refused, Err(WriteError::NotReady)));
}

#[test]
fn closing_waits_for_what_is_pending() {
    let mut stream = new_stream(GlobalPool::default());
    stream.feed(b"abc").unwrap();
    assert!(matches!(
        stream.duplex.sink.poll_close(&mut stream.state, Waker::noop(), &mut Wakes::new()),
        Poll::Pending
    ));
    let output = stream.output().unwrap();
    assert_eq!(payload(&output.first).as_slice(), b"abc");
    assert!(output.first.flags().fin_write);
    assert!(matches!(
        stream.duplex.sink.poll_close(&mut stream.state, Waker::noop(), &mut Wakes::new()),
        Poll::Ready(())
    ));
}

#[test]
fn a_duplex_splits_into_its_ends() {
    let duplex = new_stream(GlobalPool::default()).duplex;
    let id = duplex.id();
    let (sink, reader) = duplex.into_split();
    assert_eq!((sink.id(), reader.id()), (id, id));
    assert!(sink.open && reader.open);
}

#[test]
fn aborted_streams_end_both_ways() {
    let mut stream = new_stream(GlobalPool::default());
    stream.state.try_abort(&mut Wakes::new());
    assert!(matches!(stream.next(), Poll::Ready(None)));
    assert!(matches!(stream.feed(b"a"), Err(WriteError::BrokenPipe)));
}

struct Counter(AtomicUsize);

impl Wake for Counter {
    fn wake(self: Arc<Self>) {
        self.0.fetch_add(1, Ordering::Relaxed);
    }
}

/// A task of its own.
fn task() -> Waker {
    Waker::from(Arc::new(Counter(AtomicUsize::new(0))))
}

/// Checks that a call has exactly the given tasks woken, in order.
fn has_woken(call: impl FnOnce(&mut Wakes), tasks: &[&Waker]) {
    let mut woken = Wakes::new();
    call(&mut woken);
    let woken = woken.into_wakers();
    assert_eq!(woken.len(), tasks.len());
    for (waker, task) in woken.iter().zip(tasks) {
        assert!(waker.will_wake(task));
    }
}

#[test]
fn a_waker_slot_wakes_whoever_registered_last() {
    let counter = Arc::new(Counter(AtomicUsize::new(0)));
    let (first, second) = (task(), Waker::from(counter.clone()));
    let mut slot = WakerSlot::new();
    assert!(!slot.is_registered());
    has_woken(|woken| slot.wake(woken), &[]);
    slot.register(&first);
    slot.register(&second);
    slot.register(&second);
    assert!(slot.is_registered());
    let mut woken = Wakes::new();
    slot.wake(&mut woken);
    slot.wake(&mut woken);
    assert_eq!(counter.0.load(Ordering::Relaxed), 0);
    woken.into_wakers().into_iter().for_each(Waker::wake);
    assert_eq!(counter.0.load(Ordering::Relaxed), 1);

    slot.register(&first);
    let mut taken = slot.take();
    has_woken(|woken| slot.wake(woken), &[]);
    has_woken(|woken| taken.wake(woken), &[&first]);
}

/// A stream with a task waiting for data, one waiting for its data to be framed,
/// and one waiting for updates, where there is no credit to send with.
fn awaited_stream(reader: &Waker, writer: &Waker, poller: &Waker) -> Stream {
    let mut stream = new_stream(GlobalPool::default());
    stream.feed(b"0123456789abcdef").unwrap();
    assert_eq!(payload(&stream.output().unwrap().first).len(), 8);
    assert_eq!(payload(&stream.output().unwrap().first).len(), 6);
    let none = &mut Wakes::new();
    let read = stream.duplex.stream.poll_next(&mut stream.state, reader, none);
    assert!(matches!(read, Poll::Pending));
    let flushed = stream.duplex.sink.poll_flush(&mut stream.state, writer);
    assert!(matches!(flushed, Poll::Pending));
    let polled = stream.updates.poll_progress(
        &mut stream.state,
        &mut stream.pool,
        poller,
        0,
        stream.now,
        none,
    );
    assert!(matches!(polled, Poll::Pending));
    stream
}

#[test]
fn data_wakes_the_reader() {
    let (reader, writer, poller) = (task(), task(), task());
    let mut stream = awaited_stream(&reader, &writer, &poller);
    let data = |bytes: &[u8]| Data::copy_from_slice(bytes);
    let state = &mut stream.state;
    has_woken(|w| drop(state.received_data(data(b""), false, false, w)), &[]);
    has_woken(|w| drop(state.received_data(data(&[0; 13]), false, false, w)), &[]);
    has_woken(|w| drop(state.received_data(data(b"a"), false, false, w)), &[&reader]);
    has_woken(|w| drop(state.received_data(data(b"b"), false, false, w)), &[]);
}

#[test]
fn credit_wakes_whoever_polls_for_updates() {
    let (reader, writer, poller) = (task(), task(), task());
    let mut stream = awaited_stream(&reader, &writer, &poller);
    let state = &mut stream.state;
    has_woken(|w| drop(state.received_window_update(0, false, false, w)), &[]);
    has_woken(|w| drop(state.received_window_update(1, false, false, w)), &[&poller]);
    has_woken(|w| drop(state.received_window_update(3, false, false, w)), &[]);
    // The writer is woken once all of its data is framed.
    let mut traffic = std::mem::replace(&mut state.outbound, OutboundTraffic::new(1, 1));
    let mut blocked = false;
    has_woken(|w| drop(traffic.poll_update(Some(0), &mut blocked, w)), &[]);
    has_woken(|w| drop(traffic.poll_update(Some(1), &mut blocked, w)), &[]);
    has_woken(|w| drop(traffic.poll_update(None, &mut blocked, w)), &[&writer]);
    has_woken(|w| drop(traffic.poll_update(None, &mut blocked, w)), &[]);
}

#[test]
fn closing_wakes_everybody_it_concerns() {
    let (reader, writer, poller) = (task(), task(), task());
    let tasks = (&reader, &writer, &poller);
    let start = || awaited_stream(tasks.0, tasks.1, tasks.2);

    // Whichever fin comes first has the poller woken.
    let mut stream = start();
    let state = &mut stream.state;
    has_woken(|w| drop(state.received_window_update(0, true, false, w)), &[&writer, &poller]);
    has_woken(|w| drop(state.received_window_update(0, false, true, w)), &[&reader]);
    has_woken(|w| drop(state.received_window_update(0, true, true, w)), &[]);
    let mut stream = start();
    let state = &mut stream.state;
    has_woken(|w| drop(state.received_window_update(0, false, true, w)), &[&poller, &reader]);
    has_woken(|w| drop(state.received_window_update(0, true, false, w)), &[&writer]);
    has_woken(|w| state.try_abort(w), &[]);

    // Data and fins in one frame.
    let mut stream = start();
    let data = Data::copy_from_slice(b"a");
    let state = &mut stream.state;
    has_woken(
        |w| drop(state.received_data(data, true, true, w)),
        &[&reader, &writer, &poller],
    );
    has_woken(|w| start().state.try_abort(w), &[&poller, &reader, &writer]);

    // The local ends.
    let mut stream = start();
    has_woken(|w| stream.duplex.stream.close(&mut stream.state, w), &[&poller]);
    let mut stream = start();
    has_woken(|w| stream.duplex.sink.close(&mut stream.state, w), &[]);
    stream.state.received_window_update(2, false, false, &mut Wakes::new()).unwrap();
    let mut blocked = false;
    let state = &mut stream.state;
    has_woken(|w| drop(state.outbound.poll_update(None, &mut blocked, w)), &[&writer]);
    assert!(state.outbound.fin_state().sent);
}

#[test]
fn writing_and_reading_wake_whoever_polls_for_updates() {
    let poller = task();
    let wait = |stream: &mut Stream| {
        let polled = stream.updates.poll_progress(
            &mut stream.state,
            &mut stream.pool,
            &poller,
            0,
            stream.now,
            &mut Wakes::new(),
        );
        assert!(matches!(polled, Poll::Pending));
    };
    let mut stream = new_stream(GlobalPool::default());
    wait(&mut stream);
    let Stream { state, duplex, .. } = &mut stream;
    has_woken(|w| duplex.sink.start_send(state, Bytes::new(), w).unwrap(), &[]);
    has_woken(
        |w| duplex.sink.start_send(state, Bytes::from_static(b"a"), w).unwrap(),
        &[&poller],
    );

    let mut stream = new_stream(GlobalPool::default());
    stream.receive(&[0; 5]).unwrap();
    stream.receive(&[0; 1]).unwrap();
    wait(&mut stream);
    let Stream { state, duplex, .. } = &mut stream;
    let noop = Waker::noop();
    has_woken(|w| drop(duplex.stream.poll_next(state, noop, w)), &[]);
    has_woken(|w| drop(duplex.stream.poll_next(state, noop, w)), &[&poller]);
    has_woken(|w| drop(duplex.stream.poll_next(state, noop, w)), &[]);

    let mut stream = new_stream(GlobalPool::default());
    wait(&mut stream);
    let Stream { state, duplex, .. } = &mut stream;
    has_woken(|w| duplex.sink.close(state, w), &[&poller]);
    has_woken(|w| duplex.sink.close(state, w), &[]);
}

#[test]
fn a_frame_at_fault_is_applied_up_to_the_fault() {
    let mut stream = new_stream(GlobalPool::default());
    stream.state.received_window_update(0, true, false, &mut Wakes::new()).unwrap();
    let error = stream
        .state
        .received_data(Data::copy_from_slice(b"a"), true, true, &mut Wakes::new())
        .unwrap_err();
    assert_eq!(error.0, "sent duplicate FIN_READ");
    assert_eq!(stream.read().as_slice(), b"a");
    assert!(matches!(stream.next(), Poll::Ready(None)));
    let error = stream.receive(b"b").unwrap_err();
    assert_eq!(error.0, "sent data after FIN_WRITE");
    assert!(matches!(stream.next(), Poll::Ready(None)));
}

/// Behind its `FIN_WRITE` a stream has empty data, for good, and sends none of it.
#[test]
fn nothing_is_sent_behind_the_fin() {
    let mut traffic = OutboundTraffic::new(8, 14);
    let mut poller = WakerSlot::new();
    let mut blocked = false;
    traffic.write(Bytes::from_static(b"last"), &mut poller, &mut Wakes::new()).unwrap();
    traffic.close_writing(&mut poller, &mut Wakes::new());
    match traffic.poll_update(None, &mut blocked, &mut Wakes::new()) {
        Poll::Ready((data, fin)) => assert_eq!((&data[..], fin), (&b"last"[..], true)),
        Poll::Pending => panic!("there is data to send"),
    }
    for budget in [None, Some(0), Some(8)] {
        match traffic.poll_update(budget, &mut blocked, &mut Wakes::new()) {
            Poll::Ready((data, fin)) => assert!(data.is_empty() && !fin),
            Poll::Pending => panic!("the end is known"),
        }
    }
    assert!(!blocked);

    let mut stream = new_stream(GlobalPool::default());
    stream.duplex.sink.close(&mut stream.state, &mut Wakes::new());
    assert!(stream.output().is_some());
    assert!(stream.output().is_none());
}

/// A generator of arbitrary choices.
struct Choices(u64);

impl Choices {
    fn below(&mut self, n: u64) -> u64 {
        self.0 = self.0.wrapping_mul(6364136223846793005).wrapping_add(1442695040888963407);
        (self.0 >> 33) % n
    }
}

fn mirrored(config: RammuxConfig) -> RammuxConfig {
    let mut mirrored = config;
    mirrored.local_recv_window = config.remote_recv_window;
    mirrored.remote_recv_window = config.local_recv_window;
    mirrored
}

/// Frames that are on the way, as bytes.
struct Wire {
    bytes: Vec<u8>,
    decoder: Decoder,
}

impl Wire {
    fn new() -> Self {
        Wire {
            bytes: Vec::new(),
            decoder: Decoder::new(8),
        }
    }

    fn send(&mut self, frame: StreamFrame) {
        self.bytes.extend_from_slice(frame.encode().chunk_all().as_slice());
    }

    /// Takes some of the bytes off the wire.
    fn receive(&mut self, most: usize) -> Option<StreamFrame> {
        let n = most.min(self.bytes.len()).min(self.decoder.wanted());
        let taken: Vec<u8> = self.bytes.drain(..n).collect();
        match self.decoder.feed(&taken).unwrap()? {
            DecodedFrame::Stream {
                stream_id,
                flags,
                payload,
            } => Some(match payload {
                StreamPayload::Data(data) => StreamFrame::Data(frame::Data {
                    stream_id,
                    flags,
                    payload: data.into(),
                }),
                StreamPayload::WindowUpdate(update) => {
                    StreamFrame::WindowUpdate(frame::StreamWindowUpdate {
                        stream_id,
                        flags,
                        update,
                    })
                }
            }),
            _ => panic!("expected a stream frame"),
        }
    }
}

trait ChunkAll {
    fn chunk_all(self) -> Vec<u8>;
}

impl ChunkAll for EncoderItem {
    fn chunk_all(mut self) -> Vec<u8> {
        let mut bytes = Vec::new();
        while self.has_remaining() {
            let chunk = self.chunk().to_vec();
            self.advance(chunk.len());
            bytes.extend_from_slice(&chunk);
        }
        bytes
    }
}

fn bytes_come_through(seed: u64) {
    let mut choices = Choices(seed);
    let pool = GlobalPool {
        available: 32,
        dirty_rtt: Some(TimeSpan::from_millis(10)),
        ..Default::default()
    };
    let mut writer = new_stream(pool);
    let mut reader = new_stream(pool);
    let id = StreamId::from_be_bytes([0, 0, 0]);
    let (state, updates, duplex) =
        rammux::stream::new(id, false, &mirrored(config()), Timestamp { nanos: 0 });
    reader.state = state;
    reader.updates = updates;
    reader.duplex = duplex;

    let mut there = Wire::new();
    let mut back = Wire::new();
    let message: Vec<u8> = (0..=250).collect();
    let mut written = 0;
    let mut read: Vec<u8> = Vec::new();
    let mut ended = false;
    for _ in 0..20_000 {
        writer.advance(1);
        reader.advance(1);
        match choices.below(7) {
            0 => {
                let n = (choices.below(40) as usize).min(message.len() - written);
                let waker = Waker::noop();
                if n == 0 {
                    writer.duplex.sink.close(&mut writer.state, &mut Wakes::new());
                } else if let Poll::Ready(Ok(())) =
                    writer.duplex.sink.poll_ready(&mut writer.state, waker)
                {
                    let chunk = Bytes::copy_from_slice(&message[written..written + n]);
                    writer.duplex.sink.start_send(&mut writer.state, chunk, &mut Wakes::new()).unwrap();
                    written += n;
                }
            }
            1 => {
                let budget = choices.below(12) as u32;
                writer.pool.send_budget = Some(budget);
                if let Some(output) = writer.output() {
                    there.send(output.first);
                    if let Some(second) = output.second {
                        there.send(second);
                    }
                }
            }
            2 => {
                if let Some(output) = reader.output() {
                    back.send(output.first);
                }
            }
            3 => match reader.next() {
                Poll::Ready(Some(data)) => read.extend_from_slice(data.as_slice()),
                Poll::Ready(None) => {
                    ended = true;
                    break;
                }
                Poll::Pending => {}
            },
            4 => {
                if let Some(frame) = back.receive(choices.below(9) as usize) {
                    writer.state.received(frame, &mut Wakes::new()).unwrap();
                }
            }
            _ => {
                if let Some(frame) = there.receive(choices.below(9) as usize) {
                    reader.state.received(frame, &mut Wakes::new()).unwrap();
                }
            }
        }
        assert_eq!(read, message[..read.len()]);
    }
    assert!(ended);
    assert_eq!(read, message[..written]);
}

#[test]
fn bytes_come_through_in_order_whatever_the_delay() {
    for seed in 0..200 {
        bytes_come_through(seed);
    }
}

#[test]
fn a_spent_window_is_refilled_once_everything_is_read() {
    let mut reader = new_stream(GlobalPool::default());
    for size in [8, 4] {
        reader
            .state
            .received_data(Data::copy_from_slice(&vec![7; size]), false, false, &mut Wakes::new())
            .unwrap();
    }
    assert!(reader
        .state
        .received_data(Data::copy_from_slice(&[7]), false, false, &mut Wakes::new())
        .is_err());
    reader.read();
    reader.read();
    let output = reader.output().unwrap();
    assert_eq!(window_update(&output.first), 12);
}
