use bytes::Bytes;
use rammux::buffer::{same_bytes, Buffer, Data, DataList};
use rammux::codec::decoder::{DecodedFrame, Decoder, StreamPayload};
use rammux::codec::encoder::EncoderItem;
use rammux::codec::{RammuxCodec, ENCODER_QUEUE_CAPACITY};
use rammux::error::{ErrorKind, RammuxError};
use rammux::header::{ControlFlags, PingPayload, RawHeader};
use rammux::stream_id::StreamId;

#[test]
fn buffer_list() {
    let chunks: [&[u8]; 4] = [b"some", b"chunks", b"of", b"data"];
    let mut list = DataList::default();

    for chunk in chunks {
        let mut buffer = Buffer::with_capactiy(chunk.len());
        let storage = buffer.as_mut_slice();
        assert_eq!(storage.len(), chunk.len());
        storage.copy_from_slice(chunk);
        let data = buffer.assume_init();
        assert_eq!(data.as_slice(), chunk);
        list.push_back(data);
    }

    for chunk in chunks {
        let data = list.pop_front().unwrap();
        assert_eq!(data.into_bytes(), chunk);
    }

    assert!(list.pop_front().is_none());
}

#[test]
fn empty_buffer_list() {
    let mut list = DataList::default();
    for _ in 0..2 {
        list.push_back(Data::default());
    }
    assert!(list.pop_front().is_none());
}

#[test]
fn buffers_are_filled_in_pieces() {
    let mut buffer = Buffer::with_capactiy(5);
    assert_eq!(buffer.as_slice().len(), 5);
    buffer.fill(0, b"he");
    buffer.fill(2, b"llo");
    let data = buffer.assume_init();
    assert_eq!(data.as_slice(), b"hello");
    assert_eq!(data.len(), 5);
    assert!(!data.is_empty());
    assert!(data == data.clone());
    assert!(data != Data::copy_from_slice(b"hellO"));
    assert!(Data::default().is_empty());
    assert!(same_bytes(b"ab", b"ab"));
    assert!(!same_bytes(b"ab", b"a"));
    assert!(!same_bytes(b"ab", b"aB"));
}

fn check_item(mut item: EncoderItem, mut expected: &[u8]) {
    assert_eq!(item.remaining(), expected.len());
    assert_eq!(item.chunk(), expected);
    let slices = item.chunks_vectored(4);
    assert_eq!(1, slices.len());
    assert_eq!(slices[0], expected);

    expected = expected.split_at(RawHeader::LEN / 2).1;
    item.advance(RawHeader::LEN / 2);
    assert_eq!(item.remaining(), RawHeader::LEN / 2);
    assert_eq!(item.chunk(), expected);
    let slices = item.chunks_vectored(4);
    assert_eq!(1, slices.len());
    assert_eq!(slices[0], expected);

    item.advance(RawHeader::LEN / 2);
    assert_eq!(item.remaining(), 0);
    assert!(!item.has_remaining());
    assert_eq!(item.chunk(), &[] as &[u8]);
    assert_eq!(0, item.chunks_vectored(4).len());
}

#[test]
fn ping_frame() {
    let payload = PingPayload {
        stream_id: StreamId::from_be_bytes([1, 2, 3]),
        len: 1337,
    };
    check_item(
        EncoderItem::new_ping(payload, false),
        &[1, 2, 3, 33, 0, 0, 5, 57],
    );
    check_item(
        EncoderItem::new_ping(payload, true),
        &[1, 2, 3, 1, 0, 0, 5, 57],
    );
}

#[test]
fn term_frame() {
    check_item(EncoderItem::new_terminate(), &[0; RawHeader::LEN]);
}

fn check_update(mut item: EncoderItem, mut expected: &[u8]) {
    while !expected.is_empty() {
        let remaining = item.remaining();
        assert_eq!(remaining, expected.len());
        let chunk = item.chunk();
        assert!(!chunk.is_empty());
        assert!(expected.starts_with(chunk));

        let slices = item.chunks_vectored(4);
        assert!(!slices.is_empty());
        let total_len = slices.iter().map(|slice| slice.len()).sum::<usize>();
        assert_eq!(total_len, expected.len());
        let mut expected_suffix = expected;
        for slice in &slices {
            assert!(!slice.is_empty());
            assert!(expected_suffix.starts_with(slice));
            expected_suffix = expected_suffix.split_at(slice.len()).1;
        }
        assert!(expected_suffix.is_empty());
        assert!(item.chunks_vectored(0).is_empty());

        expected = expected.split_at(1).1;
        item.advance(1);
    }

    assert_eq!(item.remaining(), 0);
    assert_eq!(item.chunk(), &[] as &[u8]);
    assert_eq!(item.chunks_vectored(4).len(), 0);
}

#[test]
fn stream_update_frame() {
    check_update(
        EncoderItem::new_window_update(
            StreamId::from_be_bytes([4, 3, 2]),
            ControlFlags {
                syn: true,
                fin_read: true,
                fin_write: false,
            },
            2137,
        ),
        &[4, 3, 2, 42, 0, 0, 8, 89],
    );
    check_update(
        EncoderItem::new_data(
            StreamId::from_be_bytes([71, 99, 21]),
            ControlFlags {
                syn: false,
                fin_read: false,
                fin_write: true,
            },
            Bytes::from_static(b"9999"),
        ),
        &[71, 99, 21, 20, 0, 0, 0, 4, 57, 57, 57, 57],
    );
    check_update(
        EncoderItem::new_window_update_and_data(
            StreamId::from_be_bytes([7, 6, 5]),
            ControlFlags {
                syn: true,
                fin_read: true,
                fin_write: true,
            },
            12,
            Bytes::from_static(b"2137"),
        ),
        &[
            7, 6, 5, 42, 0, 0, 0, 12, 7, 6, 5, 20, 0, 0, 0, 4, 50, 49, 51, 55,
        ],
    );
}

fn same_frame(a: &DecodedFrame, b: &DecodedFrame) -> bool {
    match (a, b) {
        (
            DecodedFrame::Ping {
                payload: p,
                is_response: r,
            },
            DecodedFrame::Ping {
                payload,
                is_response,
            },
        ) => p == payload && r == is_response,
        (
            DecodedFrame::Stream {
                stream_id: i,
                flags: f,
                payload: p,
            },
            DecodedFrame::Stream {
                stream_id,
                flags,
                payload,
            },
        ) => {
            i == stream_id
                && f == flags
                && match (p, payload) {
                    (StreamPayload::WindowUpdate(a), StreamPayload::WindowUpdate(b)) => a == b,
                    (StreamPayload::Data(a), StreamPayload::Data(b)) => a == b,
                    _ => false,
                }
        }
        (DecodedFrame::Terminate, DecodedFrame::Terminate) => true,
        _ => false,
    }
}

fn item_of(frame: &DecodedFrame) -> EncoderItem {
    match frame {
        DecodedFrame::Ping {
            payload,
            is_response,
        } => EncoderItem::new_ping(*payload, *is_response),
        DecodedFrame::Stream {
            stream_id,
            flags,
            payload,
        } => match payload {
            StreamPayload::WindowUpdate(update) => {
                EncoderItem::new_window_update(*stream_id, *flags, *update)
            }
            StreamPayload::Data(data) => {
                EncoderItem::new_data(*stream_id, *flags, data.clone().into_bytes())
            }
        },
        DecodedFrame::Terminate => EncoderItem::new_terminate(),
        _ => panic!("no such frame is written"),
    }
}

#[test]
fn encode_decode() {
    let data = {
        let mut buffer = Buffer::with_capactiy(5);
        buffer.as_mut_slice().copy_from_slice(b"hello");
        buffer.assume_init()
    };
    let frames = [
        DecodedFrame::Ping {
            payload: PingPayload::random(),
            is_response: false,
        },
        DecodedFrame::Ping {
            payload: PingPayload::random(),
            is_response: true,
        },
        DecodedFrame::Stream {
            stream_id: StreamId::from_be_bytes([1, 1, 1]),
            flags: ControlFlags {
                syn: true,
                fin_read: false,
                fin_write: false,
            },
            payload: StreamPayload::WindowUpdate(2137),
        },
        DecodedFrame::Stream {
            stream_id: StreamId::from_be_bytes([2, 2, 2]),
            flags: ControlFlags {
                syn: false,
                fin_read: true,
                fin_write: false,
            },
            payload: StreamPayload::Data(data),
        },
        DecodedFrame::Stream {
            stream_id: StreamId::from_be_bytes([3, 3, 3]),
            flags: ControlFlags {
                syn: false,
                fin_read: false,
                fin_write: true,
            },
            payload: StreamPayload::WindowUpdate(0),
        },
        DecodedFrame::Stream {
            stream_id: StreamId::from_be_bytes([4, 4, 4]),
            flags: ControlFlags {
                syn: true,
                fin_read: true,
                fin_write: true,
            },
            payload: StreamPayload::Data(Default::default()),
        },
        DecodedFrame::Terminate,
    ];

    let mut codec_1 = RammuxCodec::new(11);
    let mut codec_2 = RammuxCodec::new(11);
    for frame in &frames {
        codec_1.start_send(item_of(frame));
    }

    let mut received = Vec::new();
    while !codec_1.encoder_queue_empty() {
        // A transport that takes eight bytes at a time.
        let queued: Vec<u8> = codec_1.chunks_vectored().concat();
        let mut pipe = &queued[..queued.len().min(8)];
        codec_1.written(pipe.len());
        while !pipe.is_empty() {
            let (now, later) = pipe.split_at(pipe.len().min(codec_2.decoder.wanted()));
            if let Some(frame) = codec_2.decoder.feed(now).unwrap() {
                received.push(frame);
            }
            pipe = later;
        }
    }
    assert_eq!(received.len(), frames.len());
    for (received, frame) in received.iter().zip(&frames) {
        assert!(same_frame(received, frame), "{received:?} is not {frame:?}");
    }
    codec_2.decoder.end().unwrap();
}

#[test]
fn frame_limit() {
    let mut codec_1 = RammuxCodec::new(8);
    let mut codec_2 = RammuxCodec::new(8);
    codec_1.start_send(EncoderItem::new_data(
        StreamId::from_be_bytes([1, 2, 3]),
        Default::default(),
        Bytes::from_static(b"123456789"),
    ));
    let queued: Vec<u8> = codec_1.chunks_vectored().concat();
    let error = codec_2.decoder.feed(&queued[..8]).unwrap_err();
    assert!(matches!(error, ErrorKind::Stream { .. }));
    assert!(RammuxError(error).is_protocol_violation());
}

#[test]
fn a_full_queue_says_so() {
    let mut codec = RammuxCodec::new(8);
    assert!(codec.encoder_queue_empty());
    for _ in 0..ENCODER_QUEUE_CAPACITY {
        assert!(!codec.encoder_queue_full());
        codec.start_send(EncoderItem::new_terminate());
    }
    assert!(codec.encoder_queue_full());
    codec.written(8);
    assert!(!codec.encoder_queue_full());
    assert_eq!(codec.chunks_vectored().len(), ENCODER_QUEUE_CAPACITY - 1);
}

#[test]
fn partial_writes_keep_the_rest() {
    let mut codec = RammuxCodec::new(64);
    codec.start_send(EncoderItem::new_window_update_and_data(
        StreamId::from_be_bytes([0, 0, 1]),
        ControlFlags::default(),
        3,
        Bytes::from_static(b"abc"),
    ));
    codec.start_send(EncoderItem::new_terminate());
    let all: Vec<u8> = codec.chunks_vectored().concat();
    assert_eq!(all.len(), 16 + 3 + 8);
    codec.written(18);
    assert_eq!(codec.chunks_vectored().concat(), all[18..]);
    codec.written(9);
    assert!(codec.encoder_queue_empty());
}

#[test]
fn a_flow_may_only_end_between_frames() {
    let mut decoder = Decoder::new(8);
    decoder.end().unwrap();
    assert_eq!(decoder.wanted(), 8);
    decoder.feed(&[1, 2, 3]).unwrap();
    let error = RammuxError(decoder.end().unwrap_err());
    assert!(error.is_io());
    assert_eq!(
        error.into_io().unwrap().kind(),
        std::io::ErrorKind::UnexpectedEof
    );
    assert_eq!(decoder.into_unread(), [1, 2, 3]);
}

#[test]
fn unread_bytes_are_given_back_from_inside_a_payload() {
    let mut decoder = Decoder::new(8);
    let header = [71, 99, 21, 20, 0, 0, 0, 4];
    assert!(decoder.feed(&header).unwrap().is_none());
    assert_eq!(decoder.wanted(), 4);
    decoder.feed(b"99").unwrap();
    assert_eq!(decoder.wanted(), 2);
    let mut expected = header.to_vec();
    expected.extend(b"99");
    assert_eq!(decoder.into_unread(), expected);
}

#[test]
fn malformed_headers_are_reported_with_what_is_wrong() {
    let mut decoder = Decoder::new(8);
    // All the flag bits at once.
    let error = decoder.feed(&[0, 0, 0, 0xFF, 0, 0, 0, 0]).unwrap_err();
    match &error {
        ErrorKind::Decode(error) => {
            assert_eq!(error.header.flags.bits, 0xFF);
            assert!(!error.message.is_empty());
        }
        other => panic!("{other:?}"),
    }
    assert!(RammuxError(error).is_protocol_violation());
    // There is no reading on behind it.
    assert_eq!(decoder.wanted(), 0);
    for error in [decoder.feed(&[]).unwrap_err(), decoder.end().unwrap_err()] {
        assert_eq!(
            RammuxError(error).into_io().unwrap().kind(),
            std::io::ErrorKind::UnexpectedEof
        );
    }
    assert_eq!(decoder.into_unread(), [0, 0, 0, 0xFF, 0, 0, 0, 0]);
}

#[test]
fn frames_are_read_in_pieces_of_any_size() {
    let id = StreamId::from_be_bytes([71, 99, 21]);
    let items = [
        EncoderItem::new_ping(PingPayload::random(), false),
        EncoderItem::new_data(id, ControlFlags::default(), Bytes::from_static(b"12345678")),
        EncoderItem::new_window_update(id, ControlFlags::default(), 9),
        EncoderItem::new_data(id, ControlFlags::default(), Bytes::new()),
    ];
    let mut wire: Vec<u8> = items
        .iter()
        .flat_map(|item| item.chunks_vectored(2).concat())
        .collect();
    wire.extend([0, 0, 0]);
    for size in 1..=wire.len() {
        let mut decoder = Decoder::new(8);
        let mut frames = Vec::new();
        for piece in wire.chunks(size) {
            let mut rest = piece;
            while !rest.is_empty() {
                let taken = decoder.wanted().min(rest.len());
                frames.extend(decoder.feed(&rest[..taken]).unwrap());
                rest = &rest[taken..];
            }
        }
        assert_eq!(frames.len(), 4);
        assert!(matches!(frames[0], DecodedFrame::Ping { .. }));
        let payloads: Vec<_> = frames[1..]
            .iter()
            .map(|frame| match frame {
                DecodedFrame::Stream { payload, .. } => match payload {
                    StreamPayload::Data(data) => Ok(data.as_slice().to_vec()),
                    StreamPayload::WindowUpdate(update) => Err(*update),
                },
                other => panic!("{other:?}"),
            })
            .collect();
        assert_eq!(payloads, [Ok(b"12345678".to_vec()), Err(9), Ok(Vec::new())]);
        assert_eq!(decoder.into_unread(), [0, 0, 0]);
    }
}

#[test]
fn items_leave_the_queue_once_they_are_out() {
    let mut codec = RammuxCodec::new(8);
    for _ in 0..3 {
        codec.start_send(EncoderItem::new_terminate());
    }
    let lens = |codec: &RammuxCodec| -> Vec<usize> {
        codec.encoder_queue.iter().map(EncoderItem::remaining).collect()
    };
    codec.written(0);
    assert_eq!(lens(&codec), [8, 8, 8]);
    codec.written(8);
    assert_eq!(lens(&codec), [8, 8]);
    codec.written(11);
    assert_eq!(lens(&codec), [5]);
    codec.written(5);
    assert!(codec.encoder_queue_empty());
    assert!(codec.chunks_vectored().is_empty());
}

#[test]
fn frames_are_gathered_from_two_slices_at_most() {
    let mut item = EncoderItem::new_data(
        StreamId::from_be_bytes([1, 2, 3]),
        ControlFlags::default(),
        Bytes::from_static(b"payload"),
    );
    assert!(item.chunks_vectored(0).is_empty());
    assert_eq!(item.chunks_vectored(1).len(), 1);
    assert_eq!(item.chunks_vectored(1)[0].len(), 8);
    assert_eq!(item.chunks_vectored(9).len(), 2);
    assert_eq!(item.chunk().len(), 8, "all of the headers");
    item.advance(3);
    assert_eq!(item.chunk().len(), 5);
    assert_eq!(item.chunks_vectored(1)[0].len(), 5);
    item.advance(7);
    assert_eq!(item.chunk(), b"yload");
    assert_eq!(item.chunks_vectored(9), [&b"yload"[..]]);
    item.advance(5);
    assert!(item.chunks_vectored(9).is_empty());
}
