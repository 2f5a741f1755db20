use std::time::Duration;

use rammux::connection::pings::OutboundPings;
use rammux::error::{ErrorKind, RammuxError};
use rammux::flow_control::{FlowControl, GlobalWindow};
use rammux::header::PingPayload;
use rammux::poll::Poll;
use rammux::rr_bus::{MaybeReady, RoundRobinBus};
use rammux::stream::inbound::SizingInputs;
use rammux::time::{Clock, TimeSpan, Timestamp};

fn at(secs: u64) -> Timestamp {
    Timestamp {
        nanos: u128::from(secs) * 1_000_000_000,
    }
}

fn secs(secs: u64) -> TimeSpan {
    TimeSpan::from_millis(secs * 1_000)
}

/// Advances to the deadline and polls there.
fn progress(state: &mut OutboundPings, now: &mut Timestamp) -> Result<(), ErrorKind> {
    if state.deadline.nanos > now.nanos {
        assert!(matches!(state.poll_progress(*now), Poll::Pending));
        *now = state.deadline;
    }
    match state.poll_progress(*now) {
        Poll::Ready(result) => result,
        Poll::Pending => panic!("nothing happened at the deadline"),
    }
}

#[test]
fn pings_within_interval() {
    let mut now = at(0);
    let mut state = OutboundPings::new(secs(5), secs(10), now);
    for ready_at in [at(0), at(5), at(10)] {
        progress(&mut state, &mut now).unwrap();
        let payload = state.take_ready(PingPayload::random(), now).unwrap();
        assert_eq!(now, ready_at);
        now = now.plus(secs(2));
        assert_eq!(state.received_response(payload, now).unwrap(), secs(2));
    }
}

#[test]
fn ping_timeout_ping_not_sent() {
    let mut now = at(0);
    let mut state = OutboundPings::new(secs(5), secs(10), now);
    progress(&mut state, &mut now).unwrap();
    assert_eq!(now, at(0));
    let error = progress(&mut state, &mut now).unwrap_err();
    assert_eq!(now, at(10));
    assert!(matches!(error, ErrorKind::PingSendTimeout { elapsed } if elapsed == secs(10)));
    assert!(RammuxError(error).is_ping_timeout());
}

#[test]
fn ping_timeout_ping_response_not_received() {
    let mut now = at(0);
    let mut state = OutboundPings::new(secs(5), secs(10), now);
    progress(&mut state, &mut now).unwrap();
    assert_eq!(now, at(0));
    let sent = state.take_ready(PingPayload::random(), now).unwrap();
    let error = progress(&mut state, &mut now).unwrap_err();
    assert_eq!(now, at(10));
    match error {
        ErrorKind::PingResponseTimeout { payload, elapsed } => {
            assert_eq!(payload, sent);
            assert_eq!(elapsed, secs(10));
        }
        other => panic!("{other:?}"),
    }
}

#[test]
fn ping_exceeding_interval() {
    let mut now = at(0);
    let mut state = OutboundPings::new(secs(5), secs(10), now);
    for ready_at in [at(0), at(6), at(12)] {
        progress(&mut state, &mut now).unwrap();
        let payload = state.take_ready(PingPayload::random(), now).unwrap();
        assert_eq!(now, ready_at);
        now = now.plus(secs(6));
        state.received_response(payload, now).unwrap();
    }
}

#[test]
fn a_response_to_nothing_is_refused() {
    let mut state = OutboundPings::new(secs(5), secs(10), at(0));
    assert!(state.take_ready(PingPayload::random(), at(0)).is_none());
    let payload = PingPayload::from_random(1, 2);
    assert!(matches!(
        state.received_response(payload, at(1)),
        Err(ErrorKind::UnexpectedPing(_))
    ));
}

/// One and a half times the bandwidth-delay product.
fn optimal(inputs: Option<SizingInputs>) -> u32 {
    match inputs {
        Some(inputs) => {
            let round_trips = inputs.elapsed.nanos as f64 / inputs.rtt.nanos as f64;
            (f64::from(inputs.freed) / round_trips * 1.5) as u32
        }
        None => 0,
    }
}

struct Tuned {
    fc: FlowControl,
    global: GlobalWindow,
    now: Timestamp,
}

impl Tuned {
    fn consumed_bytes(&mut self, amt: u32) {
        self.fc.consumed_bytes(amt, &mut self.global);
    }

    fn get_update(&mut self) -> u32 {
        let optimal = optimal(self.fc.sizing_inputs(&self.global, self.now));
        self.fc.get_update(&mut self.global, optimal, self.now)
    }

    fn advance(&mut self, span: TimeSpan) {
        self.now = self.now.plus(span);
    }

    fn available(&self) -> usize {
        self.global.state().available
    }
}

#[test]
fn grow_and_shrink() {
    let global = GlobalWindow::new(128);
    let fc = global.flow_control(64, at(0));
    let mut t = Tuned {
        fc,
        global,
        now: at(0),
    };

    t.consumed_bytes(32);
    assert_eq!(32, t.get_update());
    t.consumed_bytes(64);
    assert_eq!(64, t.get_update());
    assert_eq!(128, t.available());

    t.global.update_rtt(TimeSpan::from_millis(100));

    t.advance(TimeSpan::from_millis(10));
    t.consumed_bytes(32);
    assert_eq!(96, t.get_update());
    assert_eq!(64, t.available());

    t.advance(TimeSpan::from_millis(10));
    t.consumed_bytes(128);
    assert_eq!(192, t.get_update());
    assert_eq!(0, t.available());

    t.advance(TimeSpan::from_millis(10));
    t.consumed_bytes(192);
    assert_eq!(192, t.get_update());
    assert_eq!(0, t.available());

    t.advance(secs(10));
    t.consumed_bytes(192);
    assert_eq!(144, t.get_update());
    assert_eq!(48, t.available());

    t.advance(secs(10));
    t.consumed_bytes(144);
    assert_eq!(108, t.get_update());
    assert_eq!(84, t.available());

    t.advance(secs(10));
    t.consumed_bytes(108);
    assert_eq!(81, t.get_update());
    assert_eq!(111, t.available());

    t.advance(secs(10));
    t.consumed_bytes(81);
    assert_eq!(64, t.get_update());
    assert_eq!(128, t.available());

    t.advance(TimeSpan::from_millis(10));
    t.consumed_bytes(64);
    assert_eq!(128, t.get_update());
    assert_eq!(64, t.available());

    t.fc.reading_closed(&mut t.global);
    assert_eq!(128, t.available());
}

#[test]
fn updates_are_due_once_there_is_something_to_return() {
    let mut global = GlobalWindow::new(0);
    let mut fc = global.flow_control(1, at(0));
    assert!(!fc.has_update());
    assert_eq!(fc.get_update(&mut global, 0, at(1)), 0);
    fc.consumed_bytes(1, &mut global);
    assert!(fc.has_update());
    assert_eq!(fc.get_update(&mut global, 0, at(2)), 1);
    assert!(!fc.has_update());
    assert_eq!(fc.get_update(&mut global, 0, at(3)), 0);
    fc.consumed_bytes(1, &mut global);
    fc.reading_closed(&mut global);
    assert!(!fc.has_update());
    assert_eq!(fc.get_update(&mut global, 0, at(4)), 0);
}

#[test]
fn nodes_take_turns() {
    let waker = std::task::Waker::noop();
    let mut bus: RoundRobinBus<FlowControl> = RoundRobinBus::default();
    let mut global = GlobalWindow::new(0);
    let first = bus.register_node(global.flow_control(64, at(0)));
    let second = bus.register_node(global.flow_control(64, at(0)));
    assert!(matches!(bus.poll_recv(waker), Poll::Pending));
    assert!(!first.inspect(&bus).is_ready());

    for node in [&second, &first] {
        node.modify(&mut bus, |mut fc: FlowControl| {
            let mut pool = GlobalWindow::new(0);
            fc.consumed_bytes(64, &mut pool);
            (fc, ())
        });
    }
    assert!(first.inspect(&bus).is_ready() && second.inspect(&bus).is_ready());

    // Both come up, in the order they got ready, and neither twice.
    let mut updates = Vec::new();
    while let Poll::Ready(node) = bus.poll_recv(waker) {
        let update = node.modify(&mut bus, |mut fc: FlowControl| {
            let mut pool = GlobalWindow::new(0);
            let update = fc.get_update(&mut pool, 0, at(1));
            (fc, update)
        });
        updates.push(update);
    }
    assert_eq!(updates, [64, 64]);
    assert!(!first.inspect(&bus).is_ready());
    global.update_rtt(secs(1));
    assert_eq!(global.state().rtt, Some(secs(1)));
}

#[test]
fn clocks_only_go_forward() {
    let clock = Clock::start();
    let earlier = clock.now();
    let later = clock.now();
    assert!(earlier.nanos <= later.nanos);
    assert!(later.nanos < 20_000_000_000);
}

#[test]
fn spans_are_held_to_what_they_can_be() {
    assert_eq!(TimeSpan::from_micros(u128::MAX).nanos, u128::MAX);
    assert_eq!(TimeSpan::from_micros(7).nanos, 7_000);
    assert_eq!(TimeSpan::from_millis(3).nanos, 3_000_000);
    assert_eq!(at(1).since(at(3)), TimeSpan::zero());
    assert_eq!(at(3).since(at(1)), secs(2));
    assert_eq!(secs(2).times(3), secs(6));
    // The longest span of std's is well within.
    let longest = TimeSpan::from_nanos(Duration::MAX.as_nanos());
    assert_eq!(longest.times(4).nanos, Duration::MAX.as_nanos() * 4);
    assert_eq!(longest.plus(secs(1)).nanos, longest.nanos + 1_000_000_000);
    assert_eq!(TimeSpan::from_nanos(u128::MAX).times(2).nanos, u128::MAX);
    assert_eq!(secs(2).plus(secs(1)).as_micros(), 3_000_000);
    assert_eq!(TimeSpan::from_nanos(1_999).as_micros(), 1);
}

#[test]
fn a_clock_counts_from_its_origin() {
    let origin = tokio::time::Instant::now();
    let clock = Clock::counting_from(origin);
    let reading = |nanos: u64| clock.reading(&(origin + Duration::from_nanos(nanos)));
    assert_eq!(reading(0).nanos, 0);
    assert_eq!(reading(1_234_567_891).nanos, 1_234_567_891);
    assert_eq!(reading(u64::MAX).nanos, u128::from(u64::MAX));
    assert_eq!(reading(5_000).since(reading(1_200)), TimeSpan::from_nanos(3_800));

    let late = Clock::counting_from(origin + Duration::from_secs(2));
    assert_eq!(late.reading(&origin).nanos, 0, "before the clock was started");
    assert_eq!(late.reading(&(origin + Duration::from_secs(3))).nanos, 1_000_000_000);
}
