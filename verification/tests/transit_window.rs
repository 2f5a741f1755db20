use rammux::time::{TimeSpan, Timestamp};
use rammux::transit::delay::{median_of, Delay};
use rammux::transit::rate::{tau, RateEstimate, RateSample};
use rammux::transit::window::{Sizing, Window, RE_GRANT_FLOOR};

const RTT: TimeSpan = TimeSpan { nanos: 40_000_000 };

fn at(ms: u64) -> Timestamp {
    Timestamp {
        nanos: u128::from(ms) * 1_000_000,
    }
}

fn sizing(initial: u32) -> Sizing {
    Sizing {
        initial,
        max: 8 * 1024 * 1024,
        re_grant: 64 * 1024,
        re_grants_per_rtt: 0,
        delay_filter: 1,
    }
}

fn seconds(span: TimeSpan) -> f64 {
    span.nanos as f64 / 1e9
}

/// Runs the delay rule, holding 5 ms of queue.
fn steer(window: &mut Window, gain: f64, now: Timestamp) {
    if let Some(steering) = window.steer(Some(RTT), now) {
        let target = 0.005;
        let off_target = ((target - seconds(steering.queued)) / target).clamp(-1.0, 1.0);
        let scaled = (f64::from(steering.desired) * (1.0 + gain * off_target)) as u32;
        window.resize_towards(scaled, steering.starved);
    }
}

/// The base has to come from an interval that has been closed, or it is still the
/// smallest thing in the open one and every queue reads as zero.
fn with_base(window: &mut Window) -> u64 {
    window.on_delay(1_000_000, at(0));
    window.on_probe_end(at(0));
    1500
}

/// What a known bytes-per-second carries in one of 32 re-grants of a round trip.
fn paced(bytes_per_second: u64) -> Option<u32> {
    let mut rate = RateEstimate::new(at(0));
    let sample = rate
        .observe(bytes_per_second / 100, TimeSpan::from_millis(20), at(10))
        .unwrap();
    let value = sample.bytes as f64 / seconds(sample.elapsed);
    Some((value * seconds(RTT) / 32.0) as u32)
}

#[test]
fn a_grant_waits_for_the_threshold_then_returns_what_was_freed() {
    let mut window = Window::new(sizing(256 * 1024), at(0));
    window.on_payload(1024, Some(RTT), at(0));
    assert_eq!(
        window.take_grant(0, Some(RTT), None),
        None,
        "granted before enough had been freed"
    );

    window.on_payload(64 * 1024, Some(RTT), at(0));
    assert_eq!(
        window.take_grant(0, Some(RTT), None),
        Some(65 * 1024),
        "an unmoved window should hand back exactly what it freed"
    );
    assert_eq!(window.granted(), 256 * 1024, "the window moved on its own");
}

#[test]
fn a_grant_is_withheld_while_the_application_is_behind() {
    let mut window = Window::new(sizing(256 * 1024), at(0));
    window.on_payload(64 * 1024, Some(RTT), at(0));
    assert_eq!(window.take_grant(256 * 1024, Some(RTT), None), None);
    assert_eq!(
        window.take_grant(0, Some(RTT), None),
        Some(64 * 1024),
        "the grant never arrived once the application caught up"
    );
}

#[test]
fn the_paced_threshold_tracks_the_link_within_its_bounds() {
    let mut settings = sizing(2 * 1024 * 1024);
    settings.re_grants_per_rtt = 32;

    let slow = Window::new(settings, at(0));
    assert_eq!(
        slow.re_grant_threshold(None, None),
        64 * 1024,
        "used something other than the flat threshold with no round trip"
    );

    // 10 Mbit: a round trip carries 50 KB, so a thirty-second of it is well under
    // the floor and the floor should win.
    assert_eq!(
        slow.re_grant_threshold(Some(RTT), paced(1_250_000)),
        RE_GRANT_FLOOR
    );

    // 1 Gbit: a thirty-second of a round trip is over the flat cap, which should
    // win instead - this is the case a flat 64 KiB already served.
    let fast = Window::new(settings, at(0));
    assert_eq!(
        fast.re_grant_threshold(Some(RTT), paced(125_000_000)),
        64 * 1024
    );

    // In between, the share itself.
    assert_eq!(fast.re_grant_threshold(Some(RTT), Some(5000)), 5000);
}

#[test]
fn the_delay_rule_shrinks_on_a_queue_it_did_not_want() {
    let mut window = Window::new(sizing(256 * 1024), at(0));
    let now = with_base(&mut window);

    window.on_delay(1_050_000, at(now));
    steer(&mut window, 0.5, at(now));
    assert_eq!(
        window.desired(),
        128 * 1024,
        "a queue ten times the target did not shrink the window"
    );
    assert_eq!(window.queued(), Some(TimeSpan::from_millis(50)));
}

#[test]
fn the_delay_rule_will_not_grow_a_window_nobody_is_filling() {
    let mut window = Window::new(sizing(256 * 1024), at(0));
    let now = with_base(&mut window);

    window.on_delay(1_000_000, at(now));
    steer(&mut window, 0.5, at(now));
    assert_eq!(window.desired(), 256 * 1024, "grew without being asked to");

    let now = now + 40;
    window.on_delay(1_000_000, at(now));
    window.note_peer_starved();
    steer(&mut window, 0.5, at(now));
    assert_eq!(
        window.desired(),
        384 * 1024,
        "did not grow for a peer that had run out of credit"
    );
}

#[test]
fn a_shrink_is_limited_to_the_credit_just_freed() {
    let mut window = Window::new(sizing(256 * 1024), at(0));
    let now = with_base(&mut window);

    window.on_delay(1_050_000, at(now));
    steer(&mut window, 0.5, at(now));
    assert_eq!(window.desired(), 128 * 1024, "the target did not halve");

    // 64 KiB freed against a 128 KiB drop wanted: the window may only come down
    // by what it just freed, and grants nothing this time round.
    window.on_payload(64 * 1024, Some(RTT), at(now));
    assert_eq!(
        window.take_grant(0, Some(RTT), None),
        None,
        "handed back credit while shrinking by everything it freed"
    );
    assert_eq!(window.granted(), 192 * 1024, "shrank by more than it freed");
}

#[test]
fn the_control_law_waits_for_its_interval_and_for_a_sample() {
    let mut window = Window::new(sizing(256 * 1024), at(0));
    window.on_delay(10, at(0));
    assert_eq!(window.steer(Some(RTT), at(39)), None);
    assert_eq!(window.steer(None, at(49)), None, "the interval without a round trip is 50 ms");
    let steering = window.steer(None, at(50)).unwrap();
    assert_eq!(steering.queued, TimeSpan::zero());
    assert_eq!(steering.interval, TimeSpan::from_millis(50));
    assert!(!steering.starved);
    assert_eq!(window.steer(None, at(100)), None, "acted on an empty interval");
}

#[test]
fn a_window_is_kept_within_its_bounds() {
    let mut window = Window::new(sizing(256 * 1024), at(0));
    window.resize_towards(0, false);
    assert_eq!(window.desired(), 16 * 1024);
    window.resize_towards(u32::MAX, false);
    assert_eq!(window.desired(), 16 * 1024);
    window.resize_towards(u32::MAX, true);
    assert_eq!(window.desired(), 8 * 1024 * 1024);

    let mut tiny = sizing(1000);
    tiny.max = 2000;
    let mut window = Window::new(tiny, at(0));
    window.resize_towards(0, false);
    assert_eq!(window.desired(), 2000);
}

#[test]
fn overspending_is_noticed_with_the_first_byte() {
    let mut window = Window::new(sizing(1000), at(0));
    window.on_payload(1000, None, at(0));
    assert!(!window.overdrawn());
    window.on_payload(1, None, at(0));
    assert!(window.overdrawn());
}

#[test]
fn arrivals_are_gathered_into_buckets() {
    let mut window = Window::new(sizing(100_000), at(0));
    window.on_payload(100, None, Timestamp { nanos: 999_999 });
    assert!(window.take_rate_samples().is_empty());
    window.on_payload(50, Some(RTT), at(1));
    window.on_payload(7, Some(RTT), at(1));
    assert_eq!(
        window.take_rate_samples(),
        vec![RateSample {
            bytes: 150,
            elapsed: TimeSpan::from_millis(1),
            tau: TimeSpan::from_millis(160),
        }]
    );
    assert!(window.take_rate_samples().is_empty());
}

#[test]
fn the_time_constant_has_a_floor() {
    assert_eq!(tau(None), TimeSpan::from_millis(20));
    assert_eq!(tau(Some(TimeSpan::from_millis(4))), TimeSpan::from_millis(20));
    assert_eq!(tau(Some(TimeSpan::from_millis(6))), TimeSpan::from_millis(24));
    let ages = TimeSpan::from_nanos(10_000_000_000_000_000_000);
    assert_eq!(tau(Some(ages)).nanos, 40_000_000_000_000_000_000);
}

/// Puts a base in memory and closes the interval it arrived in, which is what the
/// control loop does once per round trip.
fn base_of(delay: &mut Delay, owd: i64) -> u64 {
    delay.observe(owd, at(0));
    delay.discard_interval();
    1500
}

#[test]
fn the_base_cancels_an_arbitrary_clock_offset() {
    let mut delay = Delay::new(1, at(0));
    assert_eq!(delay.sample(), None, "reported a delay before any sample");

    let now = base_of(&mut delay, 1_000_000);
    for queue in [3, 11, 7] {
        delay.observe(1_000_000 + queue, at(now));
    }
    assert_eq!(
        delay.sample(),
        Some(TimeSpan::from_micros(3)),
        "the offset leaked into the queuing delay"
    );
}

#[test]
fn an_interval_reports_its_minimum() {
    let mut delay = Delay::new(1, at(0));
    let now = base_of(&mut delay, 100);
    for owd in [140, 900, 210] {
        delay.observe(owd, at(now));
    }
    assert_eq!(delay.sample(), Some(TimeSpan::from_micros(40)));
}

#[test]
fn the_base_forgets_what_is_older_than_its_memory() {
    let mut delay = Delay::new(1, at(0));
    let now = base_of(&mut delay, 0) + 600_000;

    delay.observe(1_000, at(now));
    delay.discard_interval();
    delay.observe(1_000, at(now));
    assert_eq!(
        delay.sample(),
        Some(TimeSpan::zero()),
        "a base from ten minutes ago still counted"
    );
}

#[test]
fn the_base_remembers_a_minute() {
    let mut delay = Delay::new(1, at(0));
    delay.observe(0, at(0));
    delay.discard_interval();
    delay.observe(1_000, at(59_999));
    assert_eq!(delay.sample(), Some(TimeSpan::from_micros(1_000)));
    delay.observe(1_000, at(60_000));
    assert_eq!(delay.sample(), Some(TimeSpan::zero()));
}

#[test]
fn the_median_rejects_a_single_outlying_interval() {
    let mut delay = Delay::new(4, at(0));
    let now = base_of(&mut delay, 0);

    let mut last = None;
    for interval in [10, 12, 5_000, 11] {
        delay.observe(interval, at(now));
        last = delay.sample();
    }
    assert!(
        last.is_some_and(|queued| queued.nanos < 100_000),
        "a single 5 ms interval reached the control law as {last:?}"
    );
    assert_eq!(last, Some(TimeSpan::from_micros(12)));
}

#[test]
fn a_median_is_the_upper_middle() {
    assert_eq!(median_of(&vec![7]), 7);
    assert_eq!(median_of(&vec![9, 1]), 9);
    assert_eq!(median_of(&vec![3, 9, 1]), 3);
    assert_eq!(median_of(&vec![4, 4, 1, 9]), 4);
}

#[test]
fn a_delay_below_the_base_reads_as_no_queue() {
    let mut delay = Delay::new(0, at(0));
    delay.observe(-5, at(0));
    delay.observe(i64::MIN, at(61_000));
    delay.observe(3, at(200_000));
    assert_eq!(delay.sample(), Some(TimeSpan::zero()));
}
