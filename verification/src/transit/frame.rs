//! Wire format of the transit protocol.
//!
//! Every frame is a fixed 8 byte header; `DATA` alone carries a timestamp and a
//! payload after it. The header is small on purpose: returning credit finely
//! enough to keep a sender fed is only affordable because a re-grant costs 8
//! bytes.

use bytes::BytesMut;
use vstd::prelude::*;

use crate::bytes_ext::{
    buffer_limit, bytes_mut_put_bytes, bytes_mut_put_u32, bytes_mut_put_u8, held,
};
use crate::stream_id::{be32, be32_bytes, u32_from_be_bytes};

verus! {

/// Size of a frame header.
pub const HEADER_LEN: usize = 8;

/// Largest payload a single `DATA` frame may carry.
pub const MAX_PAYLOAD: u32 = 65536;

/// Bytes of sender timestamp carried between a `DATA` header and its payload.
///
/// Only `DATA` carries one, so control frames stay at [`HEADER_LEN`].
pub const TIMESTAMP_LEN: usize = 4;

/// A frame header.
///
/// The payload of a `DATA` frame follows the header on the wire; every other
/// frame is the header alone.
#[derive(Clone, Copy, Debug, PartialEq, Eq, Structural)]
pub enum Frame {
    /// A [`TIMESTAMP_LEN`] byte sender timestamp follows, then `len` payload
    /// bytes.
    Data {
        /// Payload length.
        len: u32,
        /// Whether the sender had run out of credit before writing this.
        ///
        /// Growth is evidence-driven, and this is the evidence: a window nobody
        /// is filling buys nothing by getting bigger.
        starved: bool,
    },
    /// The peer may put this many more bytes in flight.
    WindowUpdate(u32),
    /// Start of a link-clearing probe: the sender has paused its data output, so
    /// this frame arrives once the path towards the receiver has drained.
    ClearLink(u32),
    /// The probe's peer has paused its data output too.
    ClearAck(u32),
    /// Timed over the drained link.
    Ping(u32),
    /// Answer to a [`Frame::Ping`].
    Pong(u32),
    /// The clean round trip the initiator just measured, in microseconds.
    CleanRtt(u32),
}

/// Why a connection was given up on.
#[derive(Clone, Copy, Debug, PartialEq, Eq, Structural)]
pub enum TransitError {
    /// A `DATA` frame announced more payload than a frame may carry.
    OversizedData(u32),
    /// A frame of a kind that does not exist.
    UnknownFrame(u8),
    /// Both ends of the connection are configured as the probe initiator.
    TwoInitiators,
    /// The peer sent more payload than it was granted credit for.
    Overdrawn,
}

/// The frame of a kind, or the fault that makes it none.
pub open spec fn frame_of(kind: u8, flags: u8, value: u32) -> Result<Frame, TransitError> {
    if kind == 1 {
        if value > MAX_PAYLOAD {
            Err(TransitError::OversizedData(value))
        } else {
            Ok(Frame::Data { len: value, starved: flags % 2 == 1 })
        }
    } else if kind == 2 {
        Ok(Frame::WindowUpdate(value))
    } else if kind == 3 {
        Ok(Frame::ClearLink(value))
    } else if kind == 4 {
        Ok(Frame::ClearAck(value))
    } else if kind == 5 {
        Ok(Frame::Ping(value))
    } else if kind == 6 {
        Ok(Frame::Pong(value))
    } else if kind == 7 {
        Ok(Frame::CleanRtt(value))
    } else {
        Err(TransitError::UnknownFrame(kind))
    }
}

/// What a header of [`HEADER_LEN`] bytes says: its first byte is the kind, its
/// second the flags, its last four the value.
pub open spec fn decoded(header: Seq<u8>) -> Result<Frame, TransitError> {
    frame_of(header[0], header[1], be32(header.skip(4)) as u32)
}

impl Frame {
    const KIND_DATA: u8 = 1;

    const KIND_WINDOW_UPDATE: u8 = 2;

    const KIND_CLEAR_LINK: u8 = 3;

    const KIND_CLEAR_ACK: u8 = 4;

    const KIND_PING: u8 = 5;

    const KIND_PONG: u8 = 6;

    const KIND_CLEAN_RTT: u8 = 7;

    /// Set on `DATA` written by a sender that had run out of credit.
    const FLAG_STARVED: u8 = 1;

    /// Whether a header can carry the frame.
    pub open spec fn valid(self) -> bool {
        self matches Frame::Data { len, .. } ==> len <= MAX_PAYLOAD
    }

    /// The frame's kind on the wire.
    pub open spec fn kind(self) -> u8 {
        match self {
            Frame::Data { .. } => 1,
            Frame::WindowUpdate(_) => 2,
            Frame::ClearLink(_) => 3,
            Frame::ClearAck(_) => 4,
            Frame::Ping(_) => 5,
            Frame::Pong(_) => 6,
            Frame::CleanRtt(_) => 7,
        }
    }

    /// The number the frame carries.
    pub open spec fn value(self) -> u32 {
        match self {
            Frame::Data { len, .. } => len,
            Frame::WindowUpdate(value) => value,
            Frame::ClearLink(value) => value,
            Frame::ClearAck(value) => value,
            Frame::Ping(value) => value,
            Frame::Pong(value) => value,
            Frame::CleanRtt(value) => value,
        }
    }

    /// The frame's flags on the wire.
    pub open spec fn flags(self) -> u8 {
        if self matches Frame::Data { starved: true, .. } {
            1
        } else {
            0
        }
    }

    /// The header as it goes on the wire: kind, flags, two bytes of padding that
    /// let a payload start aligned, and the value in big endian order.
    pub open spec fn wire(self) -> Seq<u8> {
        seq![self.kind(), self.flags(), 0u8, 0u8] + be32_bytes(self.value() as int)
    }

    /// The frame's kind and value.
    pub fn parts(self) -> (r: (u8, u32))
        ensures
            r == (self.kind(), self.value()),
    {
        match self {
            Frame::Data { len, .. } => (Self::KIND_DATA, len),
            Frame::WindowUpdate(value) => (Self::KIND_WINDOW_UPDATE, value),
            Frame::ClearLink(value) => (Self::KIND_CLEAR_LINK, value),
            Frame::ClearAck(value) => (Self::KIND_CLEAR_ACK, value),
            Frame::Ping(value) => (Self::KIND_PING, value),
            Frame::Pong(value) => (Self::KIND_PONG, value),
            Frame::CleanRtt(value) => (Self::KIND_CLEAN_RTT, value),
        }
    }

    /// Appends this header to `out`.
    pub fn encode(self, out: &mut BytesMut)
        requires
            held(*old(out)).len() + HEADER_LEN <= buffer_limit(),
        ensures
            held(*final(out)) == held(*old(out)) + self.wire(),
    {
        let (kind, value) = self.parts();
        out.reserve(HEADER_LEN);
        bytes_mut_put_u8(out, kind);
        let flags: u8 = match self {
            Frame::Data { starved: true, .. } => Self::FLAG_STARVED,
            _ => 0,
        };
        bytes_mut_put_u8(out, flags);
        bytes_mut_put_bytes(out, 0, 2);
        bytes_mut_put_u32(out, value);
        assert(held(*out) =~= held(*old(out)) + self.wire());
    }

    /// Appends a `DATA` header and the timestamp that belongs with it.
    ///
    /// The timestamp is microseconds on the *sender's* clock, counted from
    /// wherever it started. The receiver never learns that origin and does not
    /// need to: it subtracts a minimum over its own samples, and the unknown
    /// offset between the two clocks cancels out of the difference.
    pub fn encode_data(len: u32, starved: bool, timestamp: u32, out: &mut BytesMut)
        requires
            held(*old(out)).len() + HEADER_LEN + TIMESTAMP_LEN <= buffer_limit(),
        ensures
            held(*final(out)) == held(*old(out)) + (Frame::Data { len, starved }).wire()
                + be32_bytes(timestamp as int),
    {
        (Frame::Data { len, starved }).encode(out);
        bytes_mut_put_u32(out, timestamp);
    }

    /// Reads a header out of exactly [`HEADER_LEN`] bytes.
    pub fn decode(header: &[u8]) -> (r: Result<Self, TransitError>)
        requires
            header@.len() == HEADER_LEN,
        ensures
            r == decoded(header@),
    {
        let kind: u8 = header[0];
        let value: u32 = u32_from_be_bytes([header[4], header[5], header[6], header[7]]);
        if kind == Self::KIND_DATA {
            if value > MAX_PAYLOAD {
                Err(TransitError::OversizedData(value))
            } else {
                let flags: u8 = header[1];
                assert((flags & 1 != 0) == (flags % 2 == 1)) by (bit_vector);
                Ok(Frame::Data { len: value, starved: flags & Self::FLAG_STARVED != 0 })
            }
        } else if kind == Self::KIND_WINDOW_UPDATE {
            Ok(Frame::WindowUpdate(value))
        } else if kind == Self::KIND_CLEAR_LINK {
            Ok(Frame::ClearLink(value))
        } else if kind == Self::KIND_CLEAR_ACK {
            Ok(Frame::ClearAck(value))
        } else if kind == Self::KIND_PING {
            Ok(Frame::Ping(value))
        } else if kind == Self::KIND_PONG {
            Ok(Frame::Pong(value))
        } else if kind == Self::KIND_CLEAN_RTT {
            Ok(Frame::CleanRtt(value))
        } else {
            Err(TransitError::UnknownFrame(kind))
        }
    }
}

/// A header that was written is read back as the frame it was written for, and
/// is exactly one header long.
pub proof fn frames_round_trip(frame: Frame)
    requires
        frame.valid(),
    ensures
        frame.wire().len() == HEADER_LEN,
        decoded(frame.wire()) == Ok::<Frame, TransitError>(frame),
{
    let value = frame.value();
    assert(frame.wire().skip(4) =~= be32_bytes(value as int));
}

/// A `DATA` frame over the limit is refused, whatever else its header holds.
pub proof fn oversized_frames_are_refused(header: Seq<u8>)
    requires
        header.len() == HEADER_LEN,
        header[0] == 1,
        be32(header.skip(4)) > MAX_PAYLOAD,
    ensures
        decoded(header) == Err::<Frame, TransitError>(
            TransitError::OversizedData(be32(header.skip(4)) as u32),
        ),
{
}

} // verus!
