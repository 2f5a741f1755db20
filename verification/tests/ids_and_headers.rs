use rammux::config::RammuxRole;
use rammux::header::{ControlFlags, Header, PingPayload, RawFlags, RawHeader};
use rammux::safe_cast_usize;
use rammux::stream_id::{StreamId, MAX_STREAM_ID};

fn id(raw: u32) -> StreamId {
    let [_, b1, b2, b3] = raw.to_be_bytes();
    StreamId::from_be_bytes([b1, b2, b3])
}

fn flags(bits: u8) -> RawFlags {
    RawFlags::from_bits_retain(bits)
}

#[test]
fn be_representation() {
    for (raw_id, expected) in [
        (0x000000_u32, [0x00_u8, 0x00, 0x00]),
        (0x000001, [0x00, 0x00, 0x01]),
        (0xAABBCC, [0xAA, 0xBB, 0xCC]),
    ] {
        assert!(raw_id <= MAX_STREAM_ID);
        let id = id(raw_id);
        assert_eq!(u32::from(id), raw_id);
        assert_eq!(id.to_be_bytes(), expected);
        let reconstructed = StreamId::from_be_bytes(expected);
        assert_eq!(id, reconstructed);
    }
}

#[test]
fn slab_idx() {
    for (raw, idx) in [(0, 0), (1, 0), (2, 1), (3, 1)] {
        assert_eq!(id(raw).slab_idx(), idx);
    }
}

#[test]
fn from_slab_idx() {
    for (idx, role, expected) in [
        (0, RammuxRole::Client, Some(id(0))),
        (0, RammuxRole::Server, Some(id(1))),
        (1, RammuxRole::Client, Some(id(2))),
        (1, RammuxRole::Server, Some(id(3))),
        (safe_cast_usize(MAX_STREAM_ID), RammuxRole::Client, None),
        (safe_cast_usize(MAX_STREAM_ID), RammuxRole::Server, None),
    ] {
        let calculated = StreamId::from_slab_idx(idx, role);
        assert_eq!(calculated, expected)
    }
}

#[test]
fn the_last_slot_of_each_role_has_an_id() {
    let last = safe_cast_usize(MAX_STREAM_ID / 2);
    let client = StreamId::from_slab_idx(last, RammuxRole::Client).unwrap();
    let server = StreamId::from_slab_idx(last, RammuxRole::Server).unwrap();
    assert_eq!(client.value(), 0xFF_FFFE);
    assert_eq!(server.value(), 0xFF_FFFF);
    assert_eq!(client.initiated_by(), RammuxRole::Client);
    assert_eq!(server.initiated_by(), RammuxRole::Server);
    assert_eq!(client.slab_idx(), last);
    assert_eq!(server.slab_idx(), last);
    assert!(StreamId::from_slab_idx(last + 1, RammuxRole::Client).is_none());
    assert!(StreamId::from_slab_idx(usize::MAX, RammuxRole::Server).is_none());
}

#[test]
fn decode_validate() {
    let cases: [(RawHeader, Option<Header>); 10] = [
        (
            RawHeader {
                stream_id: StreamId::from_be_bytes([1, 2, 3]),
                flags: flags(RawFlags::PING | RawFlags::SYN),
                len: 2137,
            },
            Some(Header::Ping {
                payload: PingPayload {
                    stream_id: StreamId::from_be_bytes([1, 2, 3]),
                    len: 2137,
                },
                is_response: false,
            }),
        ),
        (
            RawHeader {
                stream_id: StreamId::from_be_bytes([4, 5, 6]),
                flags: flags(RawFlags::PING),
                len: 444,
            },
            Some(Header::Ping {
                payload: PingPayload {
                    stream_id: StreamId::from_be_bytes([4, 5, 6]),
                    len: 444,
                },
                is_response: true,
            }),
        ),
        (
            RawHeader {
                stream_id: StreamId::from_be_bytes([7, 8, 9]),
                flags: flags(RawFlags::WINDOW_UPDATE | RawFlags::FIN_READ | RawFlags::SYN),
                len: 99999,
            },
            Some(Header::WindowUpdate {
                stream_id: StreamId::from_be_bytes([7, 8, 9]),
                flags: ControlFlags {
                    fin_read: true,
                    fin_write: false,
                    syn: true,
                },
                len: 99999,
            }),
        ),
        (
            RawHeader {
                stream_id: StreamId::from_be_bytes([7, 8, 9]),
                flags: flags(RawFlags::DATA | RawFlags::FIN_WRITE),
                len: 88,
            },
            Some(Header::Data {
                stream_id: StreamId::from_be_bytes([7, 8, 9]),
                flags: ControlFlags {
                    fin_read: false,
                    fin_write: true,
                    syn: false,
                },
                len: 88,
            }),
        ),
        (
            RawHeader {
                stream_id: StreamId::from_be_bytes([0, 0, 0]),
                flags: flags(RawFlags::TERM),
                len: 0,
            },
            Some(Header::Term),
        ),
        (
            RawHeader {
                stream_id: StreamId::from_be_bytes([1, 2, 3]),
                flags: flags(RawFlags::PING | RawFlags::SYN | RawFlags::FIN_READ),
                len: 2137,
            },
            None,
        ),
        (
            RawHeader {
                stream_id: StreamId::from_be_bytes([1, 2, 3]),
                flags: flags(RawFlags::DATA | RawFlags::WINDOW_UPDATE),
                len: 2137,
            },
            None,
        ),
        (
            RawHeader {
                stream_id: StreamId::from_be_bytes([1, 0, 0]),
                flags: flags(RawFlags::TERM),
                len: 0,
            },
            None,
        ),
        (
            RawHeader {
                stream_id: StreamId::from_be_bytes([0, 0, 0]),
                flags: flags(RawFlags::SYN),
                len: 0,
            },
            None,
        ),
        (
            RawHeader {
                stream_id: StreamId::from_be_bytes([0, 0, 0]),
                flags: flags(RawFlags::TERM),
                len: 1,
            },
            None,
        ),
    ];
    for (decoded, validated) in cases {
        let encoded = decoded.encode();
        let decoded_again = RawHeader::decode(encoded);
        assert_eq!(decoded_again, decoded);

        match validated {
            Some(expected) => {
                let validated = decoded_again.validate().unwrap();
                assert_eq!(validated, expected);
            }
            None => {
                decoded_again.validate().unwrap_err();
            }
        }
    }
}

#[test]
fn each_header_fault_has_its_message() {
    for (header, message) in [
        ([0, 0, 0, 0b0100_0001, 0, 0, 0, 0], "unknown flags set"),
        ([0, 0, 0, 0b1000_0000, 0, 0, 0, 0], "unknown flags set"),
        ([0, 0, 0, 0b0001_0001, 0, 0, 0, 0], "PING frame with forbidden flags"),
        ([0, 0, 0, 0b0010_0000, 0, 0, 0, 0], "TERM frame with dirty bits"),
        ([0, 0, 1, 0b0000_0000, 0, 0, 0, 0], "TERM frame with dirty bits"),
        ([0, 0, 0, 0b0000_0011, 0, 0, 0, 0], "invalid frame type"),
        ([0, 0, 0, 0b0000_0111, 0, 0, 0, 0], "invalid frame type"),
    ] {
        let raw = RawHeader::decode(header);
        let error = raw.validate().unwrap_err();
        assert_eq!(error.message, message);
        assert_eq!(error.header, raw);
        assert_eq!(raw.encode(), header);
    }
}

#[test]
fn random_payloads_differ() {
    assert_eq!(
        PingPayload::from_random(0x0102_03FF, 7),
        PingPayload {
            stream_id: StreamId::from_be_bytes([1, 2, 3]),
            len: 7,
        }
    );
    let first = PingPayload::random();
    assert!((0..8).any(|_| PingPayload::random() != first));
}
