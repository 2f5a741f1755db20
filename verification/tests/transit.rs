use std::collections::VecDeque;

use bytes::BytesMut;
use rammux::poll::Poll;
use rammux::time::{TimeSpan, Timestamp};
use rammux::transit::connection::{Config, SenderClock, Stats, Transit};
use rammux::transit::frame::{Frame, TransitError, HEADER_LEN, MAX_PAYLOAD};
use rammux::transit::probe::{Role, EXCHANGE_DEADLINE};
use rammux::transit::window::{Sizing, Steering};

fn millis(ms: u64) -> TimeSpan {
    TimeSpan::from_millis(ms)
}

fn at(ms: u128) -> Timestamp {
    Timestamp {
        nanos: ms * 1_000_000,
    }
}

fn config(role: Role, window: u32) -> Config {
    Config {
        sizing: Sizing {
            initial: window,
            max: 1024 * 1024,
            re_grant: window / 4,
            re_grants_per_rtt: 0,
            ..Sizing::default()
        },
        role,
    }
}

fn seconds(span: TimeSpan) -> f64 {
    span.nanos as f64 / 1e9
}

/// The delay rule at the settings it was tuned to.
fn scaled(steering: Steering) -> u32 {
    let target = seconds(steering.interval) * 0.3;
    let off_target = ((target - seconds(steering.queued)) / target).clamp(-1.0, 1.0);
    (f64::from(steering.desired) * (1.0 + 0.1 * off_target)) as u32
}

/// One direction of an in-memory pipe.
#[derive(Default)]
struct Pipe {
    bytes: VecDeque<u8>,
    capacity: usize,
    closed: bool,
}

impl Pipe {
    fn new(capacity: usize) -> Self {
        Pipe {
            capacity,
            ..Pipe::default()
        }
    }
}

fn service(end: &mut Transit, spacing: f64, now: Timestamp) {
    if let Some(steering) = end.service(now) {
        end.steer_towards(scaled(steering), steering.starved);
    }
    if let Some(finished) = end.unspaced() {
        end.space_probe(TimeSpan {
            nanos: (finished.took.nanos as f64 * spacing) as u128,
        });
    }
    end.return_credit(None);
}

fn send(end: &mut Transit, pipe: &mut Pipe) {
    let take = end
        .output()
        .len()
        .min(pipe.capacity - pipe.bytes.len());
    pipe.bytes.extend(&end.output()[..take]);
    end.written(take);
}

/// Runs one end until nothing more can happen without its peer.
fn progress(
    end: &mut Transit,
    inbound: &mut Pipe,
    outbound: &mut Pipe,
    now: Timestamp,
) -> Result<(), TransitError> {
    loop {
        service(end, 4.0, now);
        send(end, outbound);
        if end.is_ended() {
            break;
        }
        if inbound.bytes.is_empty() {
            if !inbound.closed {
                break;
            }
            end.receive_end();
            continue;
        }
        let bytes: Vec<u8> = inbound.bytes.drain(..).collect();
        assert!(end.has_room(bytes.len()));
        end.receive(&bytes, now)?;
        if let Some(finished) = end.unspaced() {
            end.space_probe(TimeSpan {
                nanos: finished.took.nanos * 4,
            });
        }
    }
    service(end, 4.0, now);
    send(end, outbound);
    Ok(())
}

/// Reads everything that is there.
fn drain(end: &mut Transit, into: &mut Vec<u8>) -> bool {
    loop {
        match end.read(64 * 1024) {
            Poll::Pending => return false,
            Poll::Ready(bytes) if bytes.is_empty() => return true,
            Poll::Ready(bytes) => into.extend(bytes),
        }
    }
}

/// Pushes `total` bytes through a pair of connected windows and checks that every
/// one of them comes out the far end unchanged.
fn transfer(window: u32, total: usize) -> Stats {
    let mut sender = Transit::new(config(Role::Initiator, window), at(0));
    let mut receiver = Transit::new(config(Role::Responder, window), at(0));
    let mut forward = Pipe::new(16 * 1024);
    let mut backward = Pipe::new(16 * 1024);

    let chunk = vec![0xAB; 8 * 1024];
    let mut written = 0;
    let mut received = Vec::new();
    let mut now = 5;
    while received.len() < total {
        progress(&mut sender, &mut backward, &mut forward, at(now)).unwrap();
        while written < total {
            let take = chunk.len().min(total - written);
            match sender.write(&chunk[..take], at(now)) {
                Poll::Ready(taken) => written += taken,
                Poll::Pending => break,
            }
            send(&mut sender, &mut forward);
        }
        progress(&mut receiver, &mut forward, &mut backward, at(now)).unwrap();
        drain(&mut receiver, &mut received);
        now += 1;
        assert!(now < 100_000, "the transfer came to a standstill");
    }

    assert_eq!(received.len(), total, "wrong number of bytes came through");
    assert!(
        received.iter().all(|byte| *byte == 0xAB),
        "payload came through corrupted"
    );
    sender.stats()
}

#[test]
fn delivers_everything_through_a_window_far_smaller_than_the_transfer() {
    let stats = transfer(8 * 1024, 512 * 1024);
    assert!(stats.stalls > 0, "the window never bound the sender");
}

#[test]
fn the_probe_measures_a_round_trip() {
    let stats = transfer(8 * 1024, 512 * 1024);
    assert!(stats.probes > 0, "no probe completed");
    assert!(stats.clean_rtt.is_some(), "no round trip was measured");
}

#[test]
fn a_transfer_completes_from_an_oversized_window() {
    transfer(256 * 1024, 512 * 1024);
}

#[test]
fn a_peer_that_exceeds_its_grant_is_refused() {
    let window = 32 * 1024;
    let mut receiver = Transit::new(config(Role::Responder, window), at(0));

    // One byte more than was ever granted, in frames the receiver will parse
    // without complaint until the total goes over.
    let mut wire = BytesMut::new();
    Frame::encode_data(window, false, 0, &mut wire);
    wire.extend_from_slice(&vec![0; window as usize]);
    assert_eq!(receiver.receive(&wire, at(1)), Ok(()));

    let mut wire = BytesMut::new();
    Frame::encode_data(1, false, 0, &mut wire);
    wire.extend_from_slice(&[0]);
    assert_eq!(receiver.receive(&wire, at(1)), Err(TransitError::Overdrawn));
}

#[test]
fn two_initiators_fail_the_connection_instead_of_hanging() {
    let mut left = Transit::new(config(Role::Initiator, 8 * 1024), at(0));
    let mut right = Transit::new(config(Role::Initiator, 8 * 1024), at(0));
    let mut forward = Pipe::new(16 * 1024);
    let mut backward = Pipe::new(16 * 1024);

    let first = progress(&mut left, &mut backward, &mut forward, at(5));
    assert_eq!(first, Ok(()));
    assert_eq!(
        progress(&mut right, &mut forward, &mut backward, at(5)),
        Err(TransitError::TwoInitiators),
        "wrong error"
    );
    assert_eq!(
        progress(&mut left, &mut backward, &mut forward, at(6)),
        Err(TransitError::TwoInitiators),
        "only one side noticed"
    );
}

#[test]
fn a_responder_gives_up_on_a_probe_that_never_completes() {
    let mut responder = Transit::new(config(Role::Responder, 32 * 1024), at(0));

    // Credit to write with, then a `CLEAR_LINK` with no `PING` behind it.
    let mut wire = BytesMut::new();
    Frame::WindowUpdate(32 * 1024).encode(&mut wire);
    Frame::ClearLink(1).encode(&mut wire);
    responder.receive(&wire, at(0)).unwrap();

    let deadline = EXCHANGE_DEADLINE / 1_000_000;
    assert_eq!(responder.next_wake(), Some(at(deadline)));
    service(&mut responder, 4.0, at(deadline - 1));
    assert!(
        matches!(
            responder.write(b"after the deadline", at(deadline - 1)),
            Poll::Pending
        ),
        "output resumed before the deadline, while the probe was still live"
    );
    service(&mut responder, 4.0, at(deadline));
    assert!(
        matches!(
            responder.write(b"after the deadline", at(deadline)),
            Poll::Ready(18)
        ),
        "output stayed paused past the deadline"
    );
    assert_eq!(responder.stats().probe_timeouts, 1);
}

#[test]
fn vectored_writes_coalesce_into_one_frame() {
    let mut sender = Transit::new(config(Role::Initiator, 32 * 1024), at(0));
    let mut receiver = Transit::new(config(Role::Responder, 32 * 1024), at(0));
    sender.receive(receiver.output(), at(0)).unwrap();
    receiver.written(receiver.output().len());
    sender.written(sender.output().len());

    const PIECES: [&[u8]; 3] = [&[1; 8], &[2; 4096], &[3; 8]];
    let written = match sender.write_vectored(&PIECES, at(0)) {
        Poll::Ready(written) => written,
        Poll::Pending => panic!("there was credit to write with"),
    };
    assert_eq!(
        written,
        8 + 4096 + 8,
        "the batch was not taken in one frame"
    );
    assert_eq!(sender.output().len(), HEADER_LEN + 4 + written);
    assert_eq!(
        Frame::decode(&sender.output()[..HEADER_LEN]),
        Ok(Frame::Data {
            len: 4112,
            starved: false
        })
    );

    receiver.receive(sender.output(), at(0)).unwrap();
    let mut received = Vec::new();
    drain(&mut receiver, &mut received);
    assert_eq!(received, PIECES.concat(), "the batch came through mangled");
}

#[test]
fn a_batch_is_cut_at_the_credit() {
    let mut sender = Transit::new(config(Role::Initiator, 32 * 1024), at(0));
    sender.written(sender.output().len());
    let mut wire = BytesMut::new();
    Frame::WindowUpdate(10).encode(&mut wire);
    sender.receive(&wire, at(0)).unwrap();

    let pieces: [&[u8]; 4] = [b"abcd", b"", b"efgh", b"ijkl"];
    assert!(matches!(
        sender.write_vectored(&pieces, at(0)),
        Poll::Ready(10)
    ));
    assert_eq!(&sender.output()[12..], b"abcdefghij");
    assert_eq!(sender.stats().credit, 0);
    assert!(matches!(sender.write_vectored(&[], at(0)), Poll::Ready(0)));
    assert!(matches!(sender.write(b"x", at(0)), Poll::Pending));
    assert_eq!(sender.stats().stalls, 1);
    assert!(matches!(sender.write(b"x", at(1)), Poll::Pending));
    assert_eq!(sender.stats().stalls, 1, "one stall was counted twice");
}

#[test]
fn reading_continues_after_a_local_shutdown() {
    let mut client = Transit::new(config(Role::Initiator, 32 * 1024), at(0));
    let mut server = Transit::new(config(Role::Responder, 32 * 1024), at(0));
    let mut forward = Pipe::new(16 * 1024);
    let mut backward = Pipe::new(16 * 1024);

    // Far enough for the opening probe to complete.
    for now in 5..10 {
        progress(&mut client, &mut backward, &mut forward, at(now)).unwrap();
        progress(&mut server, &mut forward, &mut backward, at(now)).unwrap();
    }
    assert!(matches!(client.write(b"hello", at(10)), Poll::Ready(5)));
    send(&mut client, &mut forward);
    client.shut_down();
    forward.closed = true;

    let mut received = Vec::new();
    progress(&mut server, &mut forward, &mut backward, at(10)).unwrap();
    assert!(drain(&mut server, &mut received));
    assert_eq!(received, b"hello");

    // Long enough for the client's probe schedule to come due several times
    // over, if it were still running.
    let mut received = Vec::new();
    for round in 0..5 {
        let now = 20 + 60 * round;
        assert!(matches!(
            server.write(&[7; 1024], at(now)),
            Poll::Ready(1024)
        ));
        send(&mut server, &mut backward);
        progress(&mut client, &mut backward, &mut forward, at(now)).unwrap();
        drain(&mut client, &mut received);
    }
    backward.closed = true;
    progress(&mut client, &mut backward, &mut forward, at(400)).unwrap();
    assert!(drain(&mut client, &mut received));
    assert_eq!(received, vec![7; 5 * 1024]);
    assert!(forward.bytes.is_empty(), "something was sent after the end");
    assert_eq!(
        client.stats().probe_timeouts,
        0,
        "a probe was started after the shutdown"
    );
}

#[test]
fn a_peers_eof_ends_the_exchange() {
    let mut responder = Transit::new(config(Role::Responder, 32 * 1024), at(0));
    let mut wire = BytesMut::new();
    Frame::WindowUpdate(32 * 1024).encode(&mut wire);
    Frame::ClearLink(1).encode(&mut wire);
    responder.receive(&wire, at(0)).unwrap();
    assert!(matches!(
        responder.write(b"after the eof", at(1)),
        Poll::Pending
    ));
    responder.receive_end();
    service(&mut responder, 4.0, at(2));
    assert!(
        matches!(responder.write(b"after the eof", at(2)), Poll::Ready(13)),
        "output stayed paused until the deadline"
    );
    assert_eq!(
        responder.stats().probe_timeouts,
        0,
        "a peer closing is not a peer failing to answer"
    );
    assert_eq!(responder.next_wake(), None);
}

#[test]
fn the_sender_clock_survives_a_wrap() {
    let mut clock = SenderClock::default();
    let before = clock.unwrap(u32::MAX - 10);
    let after = clock.unwrap(5);
    assert_eq!(after - before, 16, "a wrap read as a jump of 2^32");
    assert_eq!(
        clock.unwrap(6) - after,
        1,
        "the lap was not carried past the wrap"
    );
}

#[test]
fn a_grant_can_be_spent_in_pieces_of_any_size() {
    let mut wire = BytesMut::new();
    Frame::encode_data(20, false, 0, &mut wire);
    wire.extend_from_slice(&[7; 20]);
    Frame::encode_data(0, true, 1, &mut wire);
    Frame::WindowUpdate(9).encode(&mut wire);
    Frame::encode_data(12, false, 2, &mut wire);
    wire.extend_from_slice(&[8; 12]);
    let expected = [vec![7; 20], vec![8; 12]].concat();
    for size in 1..=wire.len() {
        for (window, granted) in [(32, true), (31, false)] {
            let mut receiver = Transit::new(config(Role::Responder, window), at(0));
            let credit = receiver.stats().credit;
            let result = wire
                .chunks(size)
                .try_for_each(|piece| receiver.receive(piece, at(1)));
            if granted {
                assert_eq!(result, Ok(()));
                let mut received = Vec::new();
                drain(&mut receiver, &mut received);
                assert_eq!(received, expected);
                assert_eq!(receiver.stats().credit, credit + 9);
            } else {
                assert_eq!(result, Err(TransitError::Overdrawn));
            }
        }
    }
}

#[test]
fn the_parser_handles_frames_split_across_reads() {
    let mut sender = Transit::new(config(Role::Initiator, 32 * 1024), at(0));
    let mut receiver = Transit::new(config(Role::Responder, 32 * 1024), at(0));
    let mut forward = Pipe::new(64);
    let mut backward = Pipe::new(64);

    let mut received = Vec::new();
    let mut now = 1;
    for byte in 0..=u8::MAX {
        let mut left = 7;
        while left > 0 {
            progress(&mut sender, &mut backward, &mut forward, at(now)).unwrap();
            if let Poll::Ready(taken) = sender.write(&[byte; 7][..left], at(now)) {
                left -= taken;
            }
            send(&mut sender, &mut forward);
            progress(&mut receiver, &mut forward, &mut backward, at(now)).unwrap();
            drain(&mut receiver, &mut received);
            now += 1;
        }
    }
    while !sender.output().is_empty() || !forward.bytes.is_empty() {
        progress(&mut sender, &mut backward, &mut forward, at(now)).unwrap();
        progress(&mut receiver, &mut forward, &mut backward, at(now)).unwrap();
        drain(&mut receiver, &mut received);
        now += 1;
    }

    let expected: Vec<u8> = (0..=u8::MAX).flat_map(|byte| [byte; 7]).collect();
    assert_eq!(received, expected, "a frame split across reads was mangled");
}

#[test]
fn a_configuration_can_be_built_adjusted_and_applied_from_outside() {
    let mut config = Config::new(Role::Initiator);
    assert_eq!(config.sizing, Sizing::default());
    assert_eq!(config, Config::from(Role::Initiator));

    config.sizing.initial = 48 * 1024;
    config.sizing.max = 4 * 1024 * 1024;

    let connection = Transit::new(config, at(0));
    assert_eq!(
        connection.stats().window,
        48 * 1024,
        "the configured initial window did not reach the connection"
    );
    assert_eq!(connection.sizing().max, 4 * 1024 * 1024);
}

#[test]
fn a_transfer_completes_over_the_public_api() {
    let chunk = vec![0xAB; MAX_PAYLOAD as usize];
    let total = 8 * chunk.len();

    let mut sender = Transit::new(Config::new(Role::Initiator), at(0));
    let mut receiver = Transit::new(Config::new(Role::Responder), at(0));
    let mut forward = Pipe::new(16 * 1024);
    let mut backward = Pipe::new(16 * 1024);

    let mut written = 0;
    let mut received = Vec::new();
    let mut now = 1;
    while received.len() < total {
        progress(&mut sender, &mut backward, &mut forward, at(now)).unwrap();
        while written < total {
            let from = written % chunk.len();
            match sender.write(&chunk[from..], at(now)) {
                Poll::Ready(taken) => written += taken,
                Poll::Pending => break,
            }
        }
        progress(&mut receiver, &mut forward, &mut backward, at(now)).unwrap();
        drain(&mut receiver, &mut received);
        now += 1;
    }
    assert!(
        sender.stats().stalls > 0,
        "a window smaller than the transfer never bound the sender"
    );
    assert_eq!(received.len(), total);
    assert!(received.iter().all(|byte| *byte == 0xAB));
}

#[test]
fn round_trips_every_frame() {
    let frames = [
        Frame::Data {
            len: MAX_PAYLOAD,
            starved: false,
        },
        Frame::Data {
            len: 1,
            starved: true,
        },
        Frame::WindowUpdate(65536),
        Frame::ClearLink(1),
        Frame::ClearAck(2),
        Frame::Ping(3),
        Frame::Pong(4),
        Frame::CleanRtt(60_000),
    ];
    for frame in frames {
        let mut buf = BytesMut::new();
        frame.encode(&mut buf);
        assert_eq!(buf.len(), HEADER_LEN, "{frame:?} is not one header");
        assert_eq!(Frame::decode(&buf).unwrap(), frame);
    }
}

#[test]
fn rejects_oversized_data_and_unknown_kinds() {
    let mut buf = BytesMut::new();
    Frame::Data {
        len: MAX_PAYLOAD,
        starved: false,
    }
    .encode(&mut buf);
    // Bump the length past the cap without going through the encoder.
    buf[4..].copy_from_slice(&(MAX_PAYLOAD + 1).to_be_bytes());
    assert_eq!(
        Frame::decode(&buf),
        Err(TransitError::OversizedData(MAX_PAYLOAD + 1))
    );

    buf[0] = 200;
    assert_eq!(Frame::decode(&buf), Err(TransitError::UnknownFrame(200)));
}

#[test]
fn headers_have_the_bytes_of_the_wire_format() {
    let mut buf = BytesMut::new();
    Frame::encode_data(0x0102, true, 0xAABBCCDD, &mut buf);
    Frame::CleanRtt(60_000).encode(&mut buf);
    assert_eq!(
        &buf[..],
        &[1, 1, 0, 0, 0, 0, 1, 2, 0xAA, 0xBB, 0xCC, 0xDD, 7, 0, 0, 0, 0, 0, 0xEA, 0x60]
    );
    assert_eq!(Frame::Pong(9).parts(), (6, 9));
}

#[test]
fn a_stall_is_reported_once_and_only_while_it_is_fresh() {
    let mut sender = Transit::new(config(Role::Responder, 1024), at(0));
    sender.written(sender.output().len());
    let grant = |sender: &mut Transit, now| {
        let mut wire = BytesMut::new();
        Frame::WindowUpdate(4).encode(&mut wire);
        sender.receive(&wire, now).unwrap();
    };
    let starved = |sender: &mut Transit, now| {
        assert!(matches!(sender.write(b"abcd", now), Poll::Ready(4)));
        let frame = Frame::decode(&sender.output()[..HEADER_LEN]).unwrap();
        sender.written(sender.output().len());
        matches!(frame, Frame::Data { starved: true, .. })
    };
    assert!(matches!(sender.write(b"abcd", at(1)), Poll::Pending));
    grant(&mut sender, at(2));
    assert!(starved(&mut sender, at(3)));
    grant(&mut sender, at(4));
    assert!(!starved(&mut sender, at(5)), "told of one stall twice");
    assert!(matches!(sender.write(b"abcd", at(6)), Poll::Pending));
    grant(&mut sender, at(7));
    assert!(!starved(&mut sender, at(1006)), "told of a stale stall");
    assert_eq!(sender.stats().stalls, 2);
}

#[test]
fn a_timestamp_alone_is_a_legal_frame() {
    let mut receiver = Transit::new(config(Role::Responder, 1024), at(0));
    let mut wire = BytesMut::new();
    Frame::encode_data(0, false, 7, &mut wire);
    Frame::WindowUpdate(99).encode(&mut wire);
    receiver.receive(&wire, at(1)).unwrap();
    assert_eq!(receiver.stats().credit, 99);
    assert!(matches!(receiver.read(10), Poll::Pending));
}

#[test]
fn unknown_frames_fail_the_connection() {
    let mut receiver = Transit::new(config(Role::Responder, 1024), at(0));
    assert_eq!(
        receiver.receive(&[0; 8], at(1)),
        Err(TransitError::UnknownFrame(0))
    );
    let mut receiver = Transit::new(config(Role::Responder, 1024), at(0));
    assert_eq!(
        receiver.receive(&[1, 0, 0, 0, 0, 1, 0, 1], at(1)),
        Err(TransitError::OversizedData(65537))
    );
}

#[test]
fn the_reported_round_trip_is_the_one_that_was_timed() {
    let mut initiator = Transit::new(config(Role::Initiator, 1024), at(0));
    let mut responder = Transit::new(config(Role::Responder, 1024), at(0));
    service(&mut initiator, 4.0, at(0));
    let pass = |from: &mut Transit, to: &mut Transit, now| {
        to.receive(from.output(), now).unwrap();
        from.written(from.output().len());
    };
    pass(&mut initiator, &mut responder, at(20));
    pass(&mut responder, &mut initiator, at(40));
    pass(&mut initiator, &mut responder, at(60));
    pass(&mut responder, &mut initiator, at(81));
    pass(&mut initiator, &mut responder, at(100));
    assert_eq!(initiator.stats().clean_rtt, Some(millis(41)));
    assert_eq!(responder.stats().clean_rtt, Some(millis(41)));
    assert_eq!(initiator.stats().probes, 1);
    assert_eq!(responder.stats().probes, 0);

    // The next exchange is spaced by how long this one took.
    let finished = initiator.unspaced().unwrap();
    assert_eq!(finished.took, millis(81));
    initiator.space_probe(finished.took.times(4));
    assert_eq!(initiator.next_wake(), Some(at(81 + 324)));
    assert_eq!(initiator.stats().probe_interval, millis(324));
}
