//! Types for encoding and decoding frame headers.

use vstd::prelude::*;

use crate::error::DecodeError;
use crate::stream_id::{
    be24, be24_bytes, be32, be32_bytes, id_of, u32_from_be_bytes, u32_to_be_bytes, StreamId,
};

verus! {

/// Flags of a frame.
#[derive(Clone, Copy, Debug, PartialEq, Eq, Structural)]
pub struct RawFlags {
    /// The flag bits as they stand on the wire.
    pub bits: u8,
}

impl RawFlags {
    /// Denotes `PING` type of the frame.
    pub const PING: u8 = 0b0000_0001;

    /// Denotes `WINDOW_UPDATE` type of the frame.
    pub const WINDOW_UPDATE: u8 = 0b0000_0010;

    /// Denotes `DATA` type of the frame.
    pub const DATA: u8 = 0b0000_0100;

    /// Signals that the sender stopped reading from the stream.
    pub const FIN_READ: u8 = 0b0000_1000;

    /// Signals that the sender stopped writing to the stream.
    pub const FIN_WRITE: u8 = 0b0001_0000;

    /// Set on `PING` requests, and on `DATA` and `WINDOW_UPDATE` frames that
    /// initiate a new stream.
    pub const SYN: u8 = 0b0010_0000;

    /// Flags of a term frame: all bits unset.
    pub const TERM: u8 = 0b0000_0000;

    /// The number made of the three frame type bits.
    pub open spec fn frame_type(self) -> int {
        self.bits as int % 8
    }

    /// Whether `FIN_READ` is set.
    pub open spec fn fin_read(self) -> bool {
        self.bits as int / 8 % 2 == 1
    }

    /// Whether `FIN_WRITE` is set.
    pub open spec fn fin_write(self) -> bool {
        self.bits as int / 16 % 2 == 1
    }

    /// Whether `SYN` is set.
    pub open spec fn syn(self) -> bool {
        self.bits as int / 32 % 2 == 1
    }

    /// Whether a bit with no meaning is set.
    pub open spec fn unknown(self) -> bool {
        self.bits >= 64
    }

    /// The control flags among the bits.
    pub open spec fn control(self) -> ControlFlags {
        ControlFlags {
            fin_read: self.fin_read(),
            fin_write: self.fin_write(),
            syn: self.syn(),
        }
    }

    /// The flags whose bits are `bits`, meaningful or not.
    pub fn from_bits_retain(bits: u8) -> (r: Self)
        ensures
            r.bits == bits,
    {
        RawFlags { bits }
    }

    /// Whether any bit is set that no flag stands for.
    pub fn contains_unknown_bits(self) -> (r: bool)
        ensures
            r == self.unknown(),
    {
        self.bits >= 64
    }

    /// Reads one flag off the bits.
    fn has(self, flag: u8) -> (r: bool)
        ensures
            flag == Self::FIN_READ ==> r == self.fin_read(),
            flag == Self::FIN_WRITE ==> r == self.fin_write(),
            flag == Self::SYN ==> r == self.syn(),
    {
        let bits: u8 = self.bits;
        assert(bits & 8 == 8 <==> bits / 8 % 2 == 1) by (bit_vector);
        assert(bits & 16 == 16 <==> bits / 16 % 2 == 1) by (bit_vector);
        assert(bits & 32 == 32 <==> bits / 32 % 2 == 1) by (bit_vector);
        bits & flag == flag
    }
}

/// Control flags of a stream frame.
#[derive(Clone, Copy, Debug, PartialEq, Eq, Structural)]
pub struct ControlFlags {
    /// The sender stopped reading from the stream.
    pub fin_read: bool,
    /// The sender stopped writing to the stream.
    pub fin_write: bool,
    /// The frame opens the stream.
    pub syn: bool,
}

/// No flag set.
pub open spec fn no_flags() -> ControlFlags {
    ControlFlags { fin_read: false, fin_write: false, syn: false }
}

impl Default for ControlFlags {
    fn default() -> (r: Self)
        ensures
            r == no_flags(),
    {
        ControlFlags { fin_read: false, fin_write: false, syn: false }
    }
}

impl ControlFlags {
    /// The number the flags stand for among the bits of a frame.
    pub open spec fn weight(self) -> int {
        (if self.fin_read {
            8int
        } else {
            0
        }) + (if self.fin_write {
            16int
        } else {
            0
        }) + (if self.syn {
            32int
        } else {
            0
        })
    }
}

impl From<RawFlags> for ControlFlags {
    fn from(value: RawFlags) -> (r: Self) {
        ControlFlags {
            fin_read: value.has(RawFlags::FIN_READ),
            fin_write: value.has(RawFlags::FIN_WRITE),
            syn: value.has(RawFlags::SYN),
        }
    }
}

impl vstd::std_specs::convert::FromSpecImpl<RawFlags> for ControlFlags {
    open spec fn obeys_from_spec() -> bool {
        true
    }

    open spec fn from_spec(value: RawFlags) -> ControlFlags {
        value.control()
    }
}

impl From<ControlFlags> for RawFlags {
    fn from(value: ControlFlags) -> (r: Self) {
        let fin_read: u8 = if value.fin_read {
            RawFlags::FIN_READ
        } else {
            0
        };
        let fin_write: u8 = if value.fin_write {
            RawFlags::FIN_WRITE
        } else {
            0
        };
        let syn: u8 = if value.syn {
            RawFlags::SYN
        } else {
            0
        };
        RawFlags { bits: fin_read + fin_write + syn }
    }
}

impl vstd::std_specs::convert::FromSpecImpl<ControlFlags> for RawFlags {
    open spec fn obeys_from_spec() -> bool {
        true
    }

    open spec fn from_spec(value: ControlFlags) -> RawFlags {
        RawFlags { bits: value.weight() as u8 }
    }
}

/// 8-byte header of a frame, not validated.
#[derive(Clone, Copy, Debug, PartialEq, Eq, Structural)]
pub struct RawHeader {
    /// ID of a stream.
    ///
    /// 1. For `DATA` and `WINDOW_UPDATE` frames, this denotes the stream in
    ///    which data is transferred.
    /// 2. For `PING` frames, this is the first part of the payload.
    /// 3. For `TERM` frames, this is `0`.
    pub stream_id: StreamId,
    /// Flags set on the frame, none for `TERM` frames.
    pub flags: RawFlags,
    /// Length of the frame.
    ///
    /// 1. For `DATA` frames, this denotes the length of the data.
    /// 2. For `WINDOW_UPDATE` frames, this denotes the number of bytes returned
    ///    to the receive window.
    /// 3. For `PING` frames, this is the second part of the payload.
    /// 4. For `TERM` frames, this is `0`.
    pub len: u32,
}

/// Payload of a `PING` frame.
#[derive(Clone, Copy, Debug, PartialEq, Eq, Structural)]
pub struct PingPayload {
    /// In ping frames the stream ID has no special meaning. It is used as the
    /// first 3 bytes of the payload.
    pub stream_id: StreamId,
    /// In ping frames the frame length is used as the last 4 bytes of the
    /// payload.
    pub len: u32,
}

/// `rand::random` draws a number from the thread-local generator: nothing is
/// known of which one.
#[verifier::external_body]
fn random_u32() -> u32 {
    rand::random()
}

impl PingPayload {
    /// The payload made of two uniformly drawn numbers.
    pub fn from_random(id: u32, len: u32) -> (r: Self)
        ensures
            r.stream_id@ == id / 0x100,
            r.stream_id.valid(),
            r.len == len,
    {
        PingPayload { stream_id: StreamId::from_random(id), len }
    }

    /// Generates a random payload using the thread-local RNG.
    pub fn random() -> (r: Self)
        ensures
            r.stream_id.valid(),
    {
        PingPayload::from_random(random_u32(), random_u32())
    }
}

/// Clean enum representing a valid frame header.
#[derive(Clone, Copy, Debug, PartialEq, Eq, Structural)]
pub enum Header {
    /// A round trip measurement request or its response.
    Ping {
        /// Payload the responder echoes.
        payload: PingPayload,
        /// Whether this is the response.
        is_response: bool,
    },
    /// Receive window credit for a stream.
    WindowUpdate {
        /// The stream.
        stream_id: StreamId,
        /// Control flags carried along.
        flags: ControlFlags,
        /// Bytes of credit.
        len: u32,
    },
    /// Data of a stream.
    Data {
        /// The stream.
        stream_id: StreamId,
        /// Control flags carried along.
        flags: ControlFlags,
        /// Bytes of data behind the header.
        len: u32,
    },
    /// The end of the session.
    Term,
}

/// Length of a header in bytes.
pub const HEADER_LEN: usize = 8;

/// The 8 bytes that `h` is written as.
pub open spec fn wire(h: RawHeader) -> Seq<u8> {
    be24_bytes(h.stream_id@ as int) + seq![h.flags.bits] + be32_bytes(h.len as int)
}

/// The header that 8 bytes are read as.
pub open spec fn header_at(b: Seq<u8>) -> RawHeader {
    RawHeader {
        stream_id: id_of(be24(b.subrange(0, 3)) as u32),
        flags: RawFlags { bits: b[3] },
        len: be32(b.subrange(4, 8)) as u32,
    }
}

impl RawHeader {
    /// Length of the header in bytes.
    pub const LEN: usize = HEADER_LEN;

    /// Decodes the header from the given wire representation.
    ///
    /// This function does not verify the bytes in any way.
    pub fn decode(raw: [u8; HEADER_LEN]) -> (r: Self)
        ensures
            r == header_at(raw@),
            r.stream_id.valid(),
    {
        assert(raw@.subrange(0, 3) =~= [raw[0], raw[1], raw[2]]@);
        assert(raw@.subrange(4, 8) =~= [raw[4], raw[5], raw[6], raw[7]]@);
        let stream_id = StreamId::from_be_bytes([raw[0], raw[1], raw[2]]);
        let flags = RawFlags::from_bits_retain(raw[3]);
        let len: u32 = u32_from_be_bytes([raw[4], raw[5], raw[6], raw[7]]);
        RawHeader { stream_id, flags, len }
    }

    /// Encodes the header to the wire representation.
    pub fn encode(self) -> (r: [u8; HEADER_LEN])
        ensures
            r@ == wire(self),
            self.stream_id.valid(),
    {
        let s = self.stream_id.to_be_bytes();
        let l = u32_to_be_bytes(self.len);
        let r = [s[0], s[1], s[2], self.flags.bits, l[0], l[1], l[2], l[3]];
        assert(r@ =~= wire(self));
        r
    }

    /// Whether the header is that of a frame the protocol knows.
    pub open spec fn well_formed(self) -> bool {
        &&& !self.flags.unknown()
        &&& {
            ||| self.flags.frame_type() == RawFlags::PING && !self.flags.fin_read()
                && !self.flags.fin_write()
            ||| self.flags.frame_type() == RawFlags::WINDOW_UPDATE
            ||| self.flags.frame_type() == RawFlags::DATA
            ||| self.flags.bits == 0 && self.stream_id@ == 0 && self.len == 0
        }
    }

    /// What a well-formed header says.
    pub open spec fn meaning(self) -> Header {
        if self.flags.frame_type() == RawFlags::PING {
            Header::Ping {
                payload: PingPayload { stream_id: self.stream_id, len: self.len },
                is_response: !self.flags.syn(),
            }
        } else if self.flags.frame_type() == RawFlags::WINDOW_UPDATE {
            Header::WindowUpdate {
                stream_id: self.stream_id,
                flags: self.flags.control(),
                len: self.len,
            }
        } else if self.flags.frame_type() == RawFlags::DATA {
            Header::Data {
                stream_id: self.stream_id,
                flags: self.flags.control(),
                len: self.len,
            }
        } else {
            Header::Term
        }
    }

    /// What is wrong with a header that is not well-formed.
    pub open spec fn fault(self) -> Seq<char> {
        if self.flags.unknown() {
            "unknown flags set"@
        } else if self.flags.frame_type() == RawFlags::PING {
            "PING frame with forbidden flags"@
        } else if self.flags.frame_type() == RawFlags::TERM {
            "TERM frame with dirty bits"@
        } else {
            "invalid frame type"@
        }
    }

    /// Validates this raw header, returning a clean enum.
    pub fn validate(self) -> (r: Result<Header, DecodeError>)
        ensures
            r is Ok <==> self.well_formed(),
            r matches Ok(header) ==> header == self.meaning(),
            r matches Err(e) ==> e.header == self && e.message@ == self.fault(),
    {
        if self.flags.contains_unknown_bits() {
            return Err(DecodeError { header: self, message: "unknown flags set" });
        }
        let bits: u8 = self.flags.bits;
        assert(bits & 7 == bits % 8) by (bit_vector);
        assert(bits & 24 == 0 <==> bits / 8 % 2 == 0 && bits / 16 % 2 == 0) by (bit_vector);
        let control = ControlFlags::from(self.flags);
        assert(1u8 | 2 | 4 == 7) by (bit_vector);
        assert(8u8 | 16 == 24) by (bit_vector);
        let frame_type: u8 = bits & (RawFlags::PING | RawFlags::WINDOW_UPDATE | RawFlags::DATA);
        if frame_type == RawFlags::PING {
            if bits & (RawFlags::FIN_READ | RawFlags::FIN_WRITE) != 0 {
                Err(DecodeError { header: self, message: "PING frame with forbidden flags" })
            } else {
                Ok(
                    Header::Ping {
                        payload: PingPayload { stream_id: self.stream_id, len: self.len },
                        is_response: !control.syn,
                    },
                )
            }
        } else if frame_type == RawFlags::WINDOW_UPDATE {
            Ok(
                Header::WindowUpdate {
                    stream_id: self.stream_id,
                    flags: control,
                    len: self.len,
                },
            )
        } else if frame_type == RawFlags::DATA {
            Ok(Header::Data { stream_id: self.stream_id, flags: control, len: self.len })
        } else if frame_type == RawFlags::TERM {
            if self.stream_id.value() == 0 && bits == 0 && self.len == 0 {
                Ok(Header::Term)
            } else {
                Err(DecodeError { header: self, message: "TERM frame with dirty bits" })
            }
        } else {
            Err(DecodeError { header: self, message: "invalid frame type" })
        }
    }
}

/// Reading a header back from the bytes it is written as gives that header.
pub proof fn decoding_undoes_encoding(h: RawHeader)
    requires
        h.stream_id.valid(),
    ensures
        wire(h).len() == HEADER_LEN,
        header_at(wire(h)) == h,
{
    let b = wire(h);
    assert(b.subrange(0, 3) =~= be24_bytes(h.stream_id@ as int));
    assert(b.subrange(4, 8) =~= be32_bytes(h.len as int));
    crate::stream_id::id_has_its_value(h.stream_id@);
    crate::stream_id::id_is_its_value(h.stream_id, header_at(b).stream_id);
}

/// Writing the header that 8 bytes are read as gives those bytes.
pub proof fn encoding_undoes_decoding(b: Seq<u8>)
    requires
        b.len() == HEADER_LEN,
    ensures
        wire(header_at(b)) == b,
{
    crate::stream_id::be24_round_trip(b.subrange(0, 3));
    crate::stream_id::be32_round_trip(b.subrange(4, 8));
    crate::stream_id::id_has_its_value(be24(b.subrange(0, 3)) as u32);
    assert(b =~= b.subrange(0, 3) + seq![b[3]] + b.subrange(4, 8));
    assert(wire(header_at(b)) =~= b);
}

/// Control flags survive the way into the flag bits and back, whatever frame
/// type they are joined with.
pub proof fn control_flags_round_trip(flags: ControlFlags, frame_type: u8)
    requires
        frame_type < 8,
    ensures
        0 <= flags.weight() + frame_type < 64,
        (RawFlags { bits: (flags.weight() + frame_type) as u8 }).control() == flags,
        (RawFlags { bits: (flags.weight() + frame_type) as u8 }).frame_type() == frame_type,
{
}

} // verus!
