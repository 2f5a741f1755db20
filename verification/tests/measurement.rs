use rammux::args::{MeasurementArgs, Mode, ProtocolArgs};
use rammux::bench::{
    connect_retry, Bench, Tick, CHUNK, CONNECT_PATIENCE, FILLER, MARKER, MARKER_LEN, WARMUP_BYTES,
};
use rammux::echo::{Echo, ECHO_BUFFER};
use rammux::harness::{client_args, exit_code, server_args, Network, Shaping, Undo};
use rammux::privileges::effective_uid;
use rammux::socket::SocketInfo;
use rammux::text::{decimal, join, labelled};
use rammux::time::{TimeSpan, Timestamp};
use rammux::transit::connection::Config;
use rammux::transit::probe::Role;
use rammux::transit::window::Sizing;

fn at(ms: u64) -> Timestamp {
    Timestamp {
        nanos: u128::from(ms) * 1_000_000,
    }
}

fn protocol() -> ProtocolArgs {
    let sizing = Sizing::default();
    ProtocolArgs {
        mode: Mode::Transit,
        window: sizing.initial,
        max_window: sizing.max,
        re_grant: sizing.re_grant,
        re_grants_per_rtt: sizing.re_grants_per_rtt,
        target_queue_ms: "5".to_string(),
        target_queue_rtts: "0.3".to_string(),
        ledbat_gain: "0.1".to_string(),
        delay_filter: sizing.delay_filter,
        probe_spacing: "128".to_string(),
        send_buffer: None,
    }
}

#[test]
fn tuned_flags_give_the_tuned_configuration() {
    assert_eq!(
        protocol().config(Role::Responder),
        Config::new(Role::Responder)
    );
}

#[test]
fn settings_are_held_to_what_makes_sense() {
    let mut protocol = protocol();
    protocol.window = 100;
    protocol.max_window = 99;
    protocol.re_grant = 0;
    protocol.delay_filter = 0;
    let sizing = protocol.config(Role::Initiator).sizing;
    assert_eq!(sizing.initial, 100);
    assert_eq!(sizing.max, 100);
    assert_eq!(sizing.re_grant, 1);
    assert_eq!(sizing.delay_filter, 1);
}

#[test]
fn settings_are_handed_on_as_a_command_line() {
    let measurement = MeasurementArgs {
        duration: 20,
        ramp: 3,
    };
    assert_eq!(measurement.to_argv(), ["--duration", "20", "--ramp", "3"]);

    let mut protocol = protocol();
    protocol.mode = Mode::Raw;
    protocol.send_buffer = Some(4096);
    let argv = [
        "--mode",
        "raw",
        "--window",
        "131072",
        "--max-window",
        "16777216",
        "--re-grant",
        "65536",
        "--re-grants-per-rtt",
        "32",
        "--target-queue-ms",
        "5",
        "--target-queue-rtts",
        "0.3",
        "--ledbat-gain",
        "0.1",
        "--delay-filter",
        "4",
        "--probe-spacing",
        "128",
        "--send-buffer",
        "4096",
    ];
    assert_eq!(protocol.to_argv(), argv);
    assert_eq!(
        server_args(&protocol),
        [&["server", "--addr", "10.200.0.2:9000"][..], &argv].concat()
    );
    assert_eq!(
        client_args(&protocol, measurement),
        [
            &["client", "--addr", "10.200.0.2:9000"][..],
            &argv,
            &["--duration", "20", "--ramp", "3"]
        ]
        .concat()
    );
    protocol.send_buffer = None;
    protocol.mode = Mode::Transit;
    assert_eq!(protocol.to_argv().len(), 20);
    assert_eq!(protocol.to_argv()[1], "transit");
}

#[test]
fn a_log_names_every_knob() {
    let mut protocol = protocol();
    assert_eq!(
        protocol.describe(),
        "mode=Transit window=131072 max_window=16777216 re_grant=65536 re_grants_per_rtt=32 \
         target_queue_ms=5 target_queue_rtts=0.3 ledbat_gain=0.1 delay_filter=4 \
         probe_spacing=128 send_buffer=None"
    );
    protocol.send_buffer = Some(7);
    assert!(protocol.describe().ends_with("send_buffer=Some(7)"));
    let socket = SocketInfo {
        send_buffer: 1,
        recv_buffer: 20,
        congestion_control: "cubic".to_string(),
    };
    assert_eq!(socket.to_text(), "sndbuf=1 rcvbuf=20 cc=cubic");
}

#[test]
fn numbers_are_written_in_decimal() {
    for n in [0, 7, 10, 99, 100, 1_234_567_890, u64::MAX] {
        assert_eq!(decimal(n), n.to_string());
    }
    assert_eq!(join("a", "bc"), "abc");
    assert_eq!(labelled("n=", 42), "n=42");
}

#[test]
fn the_setup_is_undone_however_far_it_got() {
    let mut network = Network::new(42);
    let shaping = Shaping {
        delay: 20,
        bandwidth: "10".to_string(),
        loss: Some("1.0000".to_string()),
    };
    let plan = network.set_up(&shaping);
    assert_eq!(plan.len(), 17);
    let commands: Vec<String> = plan.iter().map(|step| step.command.join(" ")).collect();
    assert_eq!(commands[0], "ip netns add transit-client-42");
    assert_eq!(commands[1], "ip netns add transit-server-42");
    assert_eq!(commands[2], "ip link add vc42 type veth peer name vs42");
    assert_eq!(commands[3], "ip link set vc42 netns transit-client-42");
    assert_eq!(commands[4], "ip link set vs42 netns transit-server-42");
    assert_eq!(
        commands[5],
        "ip -n transit-client-42 addr add 10.200.0.1/24 dev vc42"
    );
    assert_eq!(commands[6], "ip -n transit-client-42 link set dev vc42 up");
    assert_eq!(commands[7], "ip -n transit-client-42 link set dev lo up");
    assert_eq!(
        commands[8],
        "ip netns exec transit-client-42 sysctl -q -w net.ipv4.tcp_wmem=4096 131072 67108864"
    );
    assert_eq!(
        commands[9],
        "ip netns exec transit-client-42 sysctl -q -w net.ipv4.tcp_rmem=4096 131072 67108864"
    );
    assert_eq!(
        commands[10],
        "ip netns exec transit-client-42 tc qdisc add dev vc42 root netem limit 100000 \
         delay 20ms rate 10mbit loss 1.0000%"
    );
    assert_eq!(
        commands[11],
        "ip -n transit-server-42 addr add 10.200.0.2/24 dev vs42"
    );

    let del_client = "ip netns del transit-client-42";
    let del_server = "ip netns del transit-server-42";
    let expected: [&[&str]; 6] = [
        &[],
        &[del_client],
        &[del_server, del_client],
        &["ip link del vc42", del_server, del_client],
        &["ip link del vs42", del_server, del_client],
        &[del_server, del_client],
    ];
    for done in 0..=plan.len() {
        let mut network = Network::new(42);
        for step in network.set_up(&shaping).into_iter().take(done) {
            network.record(step.undo);
        }
        let teardown: Vec<String> = network
            .take_teardown()
            .iter()
            .map(|command| command.join(" "))
            .collect();
        assert_eq!(teardown, expected[done.min(5)]);
        assert!(network.take_teardown().is_empty());
    }
    network.record(Undo::Keep);
    assert!(network.teardown.is_empty());

    let lossless = Shaping {
        loss: None,
        ..shaping
    };
    assert!(network.set_up(&lossless)[10].command.last().unwrap() == "10mbit");
}

#[test]
fn a_run_exits_with_what_became_of_it() {
    assert_eq!(exit_code(Some(true), Some(true)), 0);
    assert_eq!(exit_code(Some(true), Some(false)), 1);
    assert_eq!(exit_code(Some(false), Some(true)), 1);
    assert_eq!(exit_code(None, Some(true)), 130);
    assert_eq!(exit_code(None, None), 130);
}

#[test]
fn a_refused_connection_is_retried_for_a_while() {
    let deadline = at(0).plus(TimeSpan::from_nanos(CONNECT_PATIENCE));
    assert_eq!(deadline, at(10_000));
    assert_eq!(connect_retry(at(0), deadline), Some(TimeSpan::from_millis(50)));
    assert_eq!(connect_retry(at(9_999), deadline), Some(TimeSpan::from_millis(50)));
    assert_eq!(connect_retry(at(10_000), deadline), None);
    assert_eq!(connect_retry(at(10_001), deadline), None);
}

#[test]
fn the_effective_user_is_the_second_listed() {
    let status = "Name:\tcat\nUmask:\t0022\nUid:\t1000\t1001\t1002\t1003\nGid:\t5\t6\t7\t8\n";
    assert_eq!(effective_uid(status), Some(1001));
    assert_eq!(effective_uid("Uid:\t0\t0\t0\t0"), Some(0));
    assert_eq!(effective_uid("Uid: 1 4294967295 2"), Some(u32::MAX));
    assert_eq!(effective_uid("Uid: 1 4294967296 2"), None);
    assert_eq!(effective_uid("Uid: 1 +7"), Some(7));
    assert_eq!(effective_uid("Uid: 1 x7"), None);
    assert_eq!(effective_uid("Uid: 1\n"), None);
    assert_eq!(effective_uid("Pid: 1 2\n uid: 1 2"), None);
    assert_eq!(effective_uid(""), None);
    // Words are separated by whatever is white space.
    for space in ['\u{85}', '\u{a0}', '\u{1680}', '\u{2003}', '\u{2028}', '\u{202f}', '\u{3000}'] {
        assert!(space.is_whitespace());
        assert_eq!(effective_uid(&format!("Uid:\t1{space}0\t7")), Some(0));
    }
    for other in ['\u{200b}', '\u{180e}', '\u{feff}', '\u{1f}'] {
        assert_eq!(effective_uid(&format!("Uid:\t1{other}0\t7")), Some(7));
    }
    assert_eq!(effective_uid("Uid: 1 \u{0664}"), None);
}

fn write_all(bench: &mut Bench, mut len: usize, now: Timestamp) {
    while len > 0 {
        let (_, wanted) = bench.next_write();
        let count = wanted.min(len);
        bench.on_written(count, now);
        len -= count;
    }
}

#[test]
fn a_round_is_timed_from_the_first_attempt_to_the_last_byte() {
    let mut bench = Bench::new(TimeSpan::from_millis(10_000), TimeSpan::from_millis(100), at(0));
    assert_eq!(bench.next_write(), (FILLER, CHUNK));
    write_all(&mut bench, WARMUP_BYTES - 1, at(1));
    assert_eq!(bench.next_write(), (FILLER, 1));
    bench.on_written(1, at(2));
    // The round has begun, though no byte of the marker is out yet.
    assert_eq!(bench.next_write(), (MARKER, MARKER_LEN));
    bench.on_written(500, at(50));
    assert_eq!(bench.next_write(), (MARKER, 12));
    bench.on_written(12, at(60));
    assert_eq!(bench.next_write(), (FILLER, CHUNK));

    bench.on_read(&[FILLER; 1000], at(70));
    bench.on_read(&[MARKER; MARKER_LEN - 1], at(80));
    assert_eq!(bench.last_echo(), None);
    bench.on_read(&[FILLER, MARKER, FILLER], at(102));
    assert_eq!(bench.last_echo(), Some(TimeSpan::from_millis(100)));
    assert_eq!(bench.next_write(), (MARKER, MARKER_LEN), "the next round is open");
}

#[test]
fn the_ramp_is_left_out_of_the_numbers() {
    let mut bench = Bench::new(TimeSpan::from_millis(1_000), TimeSpan::from_millis(100), at(0));
    write_all(&mut bench, WARMUP_BYTES, at(0));
    let markers = [MARKER; MARKER_LEN];
    bench.on_read(&markers, at(50));
    assert_eq!(
        bench.tick(at(99)),
        Tick {
            trace: false,
            done: false
        }
    );
    assert_eq!(bench.next_wake(), at(500));
    assert_eq!(
        bench.tick(at(100)),
        Tick {
            trace: false,
            done: false
        }
    );
    bench.on_read(&markers, at(400));
    bench.on_read(&markers, at(600));
    bench.on_read(&markers, at(630));
    assert_eq!(
        bench.tick(at(650)),
        Tick {
            trace: true,
            done: false
        }
    );
    assert_eq!(bench.next_wake(), at(1_000));
    assert_eq!(
        bench.tick(at(1_000)),
        Tick {
            trace: false,
            done: true
        }
    );
    let summary = bench.report(at(1_100));
    assert_eq!(summary.echoed, 3 * MARKER_LEN as u64);
    assert_eq!(summary.steady, TimeSpan::from_millis(1_000));
    assert_eq!(
        summary.latencies,
        [30_000_000, 200_000_000, 350_000_000],
        "in ascending order, without the one that ended in the ramp"
    );
    assert_eq!(bench.elapsed(at(1_100)), TimeSpan::from_millis(1_100));
}

#[test]
fn an_echo_writes_back_what_it_read_in_order() {
    let mut echo = Echo::new();
    assert_eq!(echo.room(), ECHO_BUFFER);
    echo.on_read(b"hello");
    echo.on_written(2);
    assert_eq!(echo.pending(), b"llo");
    echo.on_read(b" world");
    assert_eq!(echo.pending(), b"llo world");
    assert_eq!(echo.room(), ECHO_BUFFER - 9);
    echo.on_read(b"");
    assert_eq!(echo.room(), 0, "nothing is read past the end");
    assert!(!echo.finished());
    echo.on_written(9);
    assert!(echo.finished());
    assert_eq!(echo.echoed(), 11);

    let mut echo = Echo::new();
    echo.on_read(&vec![7; ECHO_BUFFER]);
    assert_eq!(echo.room(), 0);
}
