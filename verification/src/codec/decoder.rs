//! Turning inbound bytes into frames.

use vstd::prelude::*;

use crate::buffer::{Buffer, Data};
use crate::error::{io_error, io_error_of, ErrorKind, IoFailure, StreamError};
use crate::header::{
    header_at, ControlFlags, Header, PingPayload, RawFlags, RawHeader, HEADER_LEN,
};
use crate::stream_id::StreamId;

verus! {

/// A complete inbound frame.
#[allow(inconsistent_fields)]
#[derive(Debug)]
pub enum DecodedFrame {
    /// A round trip measurement request or its response.
    Ping {
        /// Opaque payload the responder echoes back verbatim.
        payload: PingPayload,
        /// Whether this is the response rather than the request.
        is_response: bool,
    },
    /// Anything addressed to one virtual stream.
    Stream {
        /// Stream the frame belongs to.
        stream_id: StreamId,
        /// Lifecycle bits carried along.
        flags: ControlFlags,
        /// What the frame carries.
        payload: StreamPayload,
    },
    /// Credit returned for the session-level transit window.
    SessionWindowUpdate {
        /// Bytes of credit returned.
        update: u32,
    },
    /// Drain barrier of the link-clearing probe.
    ClearLink {
        /// Spontaneous initiation vs the responder's receipt.
        syn: bool,
    },
    /// The peer's end of the session.
    Terminate,
}

/// What a stream-level frame carries.
#[derive(Debug)]
pub enum StreamPayload {
    /// Bytes of receive window credit returned to us.
    WindowUpdate(u32),
    /// Payload bytes for the stream's reader.
    Data(Data),
}

/// A [`DecodedFrame`] as a mathematical value.
#[verifier::ext_equal]
pub ghost enum FrameView {
    Ping { payload: PingPayload, is_response: bool },
    WindowUpdate { stream_id: StreamId, flags: ControlFlags, update: u32 },
    Data { stream_id: StreamId, flags: ControlFlags, data: Seq<u8> },
    SessionWindowUpdate { update: u32 },
    ClearLink { syn: bool },
    Terminate,
}

impl View for DecodedFrame {
    type V = FrameView;

    open spec fn view(&self) -> FrameView {
        match *self {
            DecodedFrame::Ping { payload, is_response } => FrameView::Ping {
                payload,
                is_response,
            },
            DecodedFrame::Stream {
                stream_id,
                flags,
                payload: StreamPayload::WindowUpdate(update),
            } => FrameView::WindowUpdate { stream_id, flags, update },
            DecodedFrame::Stream { stream_id, flags, payload: StreamPayload::Data(data) } => {
                FrameView::Data { stream_id, flags, data: data@ }
            },
            DecodedFrame::SessionWindowUpdate { update } => FrameView::SessionWindowUpdate {
                update,
            },
            DecodedFrame::ClearLink { syn } => FrameView::ClearLink { syn },
            DecodedFrame::Terminate => FrameView::Terminate,
        }
    }
}

/// Why bytes are no frame.
pub ghost enum FrameFault {
    /// The header is not well-formed.
    Header(RawHeader),
    /// The data exceeds the frame limit.
    TooLong(StreamId),
}

/// Whether `e` reports the fault `f`.
pub open spec fn reports(e: ErrorKind, f: FrameFault) -> bool {
    match f {
        FrameFault::Header(header) => e matches ErrorKind::Decode(error) && error.header == header
            && error.message@ == header.fault(),
        FrameFault::TooLong(stream_id) => e matches ErrorKind::Stream { id, error } && id
            == stream_id && error.0@ == "sent a DATA frame exceeding the configured size limit"@,
    }
}

/// What stands at the start of a run of bytes.
pub ghost enum Parsed {
    /// More bytes are needed.
    Incomplete,
    /// A frame of `len` bytes.
    Frame { frame: FrameView, len: int },
    /// Nothing that the protocol allows.
    Fault(FrameFault),
}

/// Reads the first frame of `b`.
pub open spec fn parse(b: Seq<u8>, frame_limit: u32) -> Parsed {
    if b.len() < HEADER_LEN {
        Parsed::Incomplete
    } else {
        let header = header_at(b.subrange(0, HEADER_LEN as int));
        if !header.well_formed() {
            Parsed::Fault(FrameFault::Header(header))
        } else {
            match header.meaning() {
                Header::Ping { payload, is_response } => Parsed::Frame {
                    frame: FrameView::Ping { payload, is_response },
                    len: HEADER_LEN as int,
                },
                Header::WindowUpdate { stream_id, flags, len } => Parsed::Frame {
                    frame: FrameView::WindowUpdate { stream_id, flags, update: len },
                    len: HEADER_LEN as int,
                },
                Header::Data { stream_id, flags, len } => if len > frame_limit {
                    Parsed::Fault(FrameFault::TooLong(stream_id))
                } else if b.len() < HEADER_LEN + len {
                    Parsed::Incomplete
                } else {
                    Parsed::Frame {
                        frame: FrameView::Data {
                            stream_id,
                            flags,
                            data: b.subrange(HEADER_LEN as int, HEADER_LEN + len),
                        },
                        len: HEADER_LEN + len,
                    }
                },
                Header::Term => Parsed::Frame {
                    frame: FrameView::Terminate,
                    len: HEADER_LEN as int,
                },
            }
        }
    }
}

/// What stands at the start of a run of bytes is settled by those bytes:
/// nothing that follows changes a frame or a fault.
pub proof fn parsing_reads_no_further(b: Seq<u8>, more: Seq<u8>, frame_limit: u32)
    requires
        !(parse(b, frame_limit) is Incomplete),
    ensures
        parse(b + more, frame_limit) == parse(b, frame_limit),
        parse(b, frame_limit) matches Parsed::Frame { len, .. } ==> HEADER_LEN <= len <= b.len(),
{
    assert((b + more).subrange(0, HEADER_LEN as int) =~= b.subrange(0, HEADER_LEN as int));
    let header = header_at(b.subrange(0, HEADER_LEN as int));
    if let Header::Data { len, .. } = header.meaning() {
        if header.well_formed() && len <= frame_limit {
            assert((b + more).subrange(HEADER_LEN as int, HEADER_LEN + len) =~= b.subrange(
                HEADER_LEN as int,
                HEADER_LEN + len,
            ));
        }
    }
}

/// How many bytes are missing from the header, or from the data behind it, of
/// the frame that `b` is the start of. Nothing is missing behind a fault.
pub open spec fn missing(b: Seq<u8>, frame_limit: u32) -> int {
    if b.len() < HEADER_LEN {
        HEADER_LEN - b.len()
    } else if parse(b, frame_limit) is Fault {
        0
    } else {
        HEADER_LEN + header_at(b.subrange(0, HEADER_LEN as int)).len - b.len()
    }
}

/// Where the decoder stands in the inbound byte flow.
#[allow(inconsistent_fields)]
pub enum DecoderState {
    /// Filling the fixed-size header.
    ReadingHeader {
        /// Header bytes read so far. All of them only where the header is at
        /// fault: there is no telling what follows it.
        filled: usize,
        /// Partially filled header.
        buffer: [u8; HEADER_LEN],
    },
    /// Filling the payload of a `DATA` frame whose header is decoded.
    ReadingData {
        /// Stream the payload belongs to.
        stream_id: StreamId,
        /// Lifecycle bits from the header, applied once the payload lands.
        flags: ControlFlags,
        /// Partially filled payload, sized to the header's `len`.
        buffer: Buffer,
        /// Payload bytes read so far.
        filled: usize,
    },
}

impl DecoderState {
    /// Whether the state is what the bytes `seen` since the last frame lead to.
    pub open spec fn holds(self, seen: Seq<u8>, frame_limit: u32) -> bool {
        match self {
            DecoderState::ReadingHeader { filled, buffer } => {
                &&& filled <= HEADER_LEN
                &&& filled == HEADER_LEN ==> parse(seen, frame_limit) is Fault
                &&& seen.len() == filled
                &&& forall|i: int| 0 <= i < filled ==> buffer@[i] == seen[i]
            },
            DecoderState::ReadingData { stream_id, flags, buffer, filled } => {
                let header = header_at(seen.subrange(0, HEADER_LEN as int));
                &&& filled < buffer@.len() <= frame_limit
                &&& seen.len() == HEADER_LEN + filled
                &&& header.well_formed()
                &&& header.meaning() == Header::Data { stream_id, flags, len: buffer@.len() as u32 }
                &&& forall|i: int| 0 <= i < filled ==> buffer@[i] == seen[HEADER_LEN + i]
            },
        }
    }
}

impl Default for DecoderState {
    fn default() -> (r: Self)
        ensures
            r matches DecoderState::ReadingHeader { filled, .. } && filled == 0,
    {
        DecoderState::ReadingHeader { filled: 0, buffer: [0;HEADER_LEN] }
    }
}

/// Reads frames off an inbound byte flow, one at a time.
///
/// It never asks for bytes past the frame that it is reading.
pub struct Decoder {
    state: DecoderState,
    frame_limit: u32,
    seen: Ghost<Seq<u8>>,
}

impl Decoder {
    /// The bytes taken in since the last frame.
    pub closed spec fn seen(&self) -> Seq<u8> {
        self.seen@
    }

    /// The longest data that a frame may carry.
    pub closed spec fn limit(&self) -> u32 {
        self.frame_limit
    }

    #[verifier::type_invariant]
    spec fn inv(self) -> bool {
        self.frame_limit <= isize::MAX && self.state.holds(self.seen@, self.frame_limit)
    }

    /// A decoder at the start of a byte flow.
    pub fn new(frame_limit: u32) -> (r: Self)
        requires
            frame_limit <= isize::MAX,
        ensures
            r.seen() == Seq::<u8>::empty(),
            r.limit() == frame_limit,
    {
        Decoder { state: DecoderState::default(), frame_limit, seen: Ghost(Seq::empty()) }
    }

    /// How many bytes to read next. Bytes past these belong to what follows; none
    /// are wanted behind a fault.
    pub fn wanted(&self) -> (r: usize)
        ensures
            r == missing(self.seen(), self.limit()),
            r > 0 <==> parse(self.seen(), self.limit()) is Incomplete,
            r == 0 <==> parse(self.seen(), self.limit()) is Fault,
    {
        proof {
            use_type_invariant(self);
        }
        match &self.state {
            DecoderState::ReadingHeader { filled, .. } => HEADER_LEN - *filled,
            DecoderState::ReadingData { buffer, filled, .. } => buffer.as_slice().len() - *filled,
        }
    }

    /// Takes in the next bytes of the flow, at most as many as [`Decoder::wanted`]
    /// asks for, and returns the frame that they complete, if they complete one.
    ///
    /// A fault is reported once. It leaves the flow without a next frame, so
    /// whatever is read behind it comes to an unexpected end.
    pub fn feed(&mut self, bytes: &[u8]) -> (r: Result<Option<DecodedFrame>, ErrorKind>)
        requires
            bytes@.len() <= missing(old(self).seen(), old(self).limit()),
        ensures
            final(self).limit() == old(self).limit(),
            match r {
                Ok(None) => {
                    &&& final(self).seen() == old(self).seen() + bytes@
                    &&& parse(old(self).seen() + bytes@, old(self).limit()) is Incomplete
                },
                Ok(Some(frame)) => {
                    &&& final(self).seen() == Seq::<u8>::empty()
                    &&& parse(old(self).seen() + bytes@, old(self).limit()) == (Parsed::Frame {
                        frame: frame@,
                        len: (old(self).seen() + bytes@).len() as int,
                    })
                },
                Err(e) => {
                    &&& final(self).seen() == old(self).seen() + bytes@
                    &&& parse(old(self).seen() + bytes@, old(self).limit()) matches Parsed::Fault(f)
                    &&& if parse(old(self).seen(), old(self).limit()) is Fault {
                        e == ErrorKind::Io(io_error_of(IoFailure::UnexpectedEof))
                    } else {
                        reports(e, f)
                    }
                },
            },
    {
        proof {
            use_type_invariant(&*self);
        }
        let frame_limit: u32 = self.frame_limit;
        let ghost all = self.seen@ + bytes@;
        let mut fresh = Decoder {
            state: DecoderState::default(),
            frame_limit,
            seen: Ghost(Seq::empty()),
        };
        std::mem::swap(&mut fresh, self);
        match fresh.state {
            DecoderState::ReadingHeader { filled, buffer } => {
                if filled == HEADER_LEN {
                    assert(all =~= fresh.seen@);
                    *self = Decoder {
                        state: DecoderState::ReadingHeader { filled, buffer },
                        frame_limit,
                        seen: Ghost(all),
                    };
                    return Err(ErrorKind::Io(io_error(IoFailure::UnexpectedEof)));
                }
                let mut buffer = buffer;
                let mut i: usize = 0;
                while i < bytes.len()
                    invariant
                        0 <= i <= bytes@.len(),
                        filled + bytes@.len() <= HEADER_LEN,
                        all.len() == filled + bytes@.len(),
                        forall|j: int|
                            0 <= j < bytes@.len() ==> #[trigger] all[filled + j] == bytes@[j],
                        forall|j: int| 0 <= j < filled + i ==> buffer@[j] == all[j],
                    decreases bytes@.len() - i,
                {
                    assert(all[filled + i] == bytes@[i as int]);
                    buffer[filled + i] = bytes[i];
                    i += 1;
                }
                let filled: usize = filled + bytes.len();
                if filled < HEADER_LEN {
                    *self = Decoder {
                        state: DecoderState::ReadingHeader { filled, buffer },
                        frame_limit,
                        seen: Ghost(all),
                    };
                    return Ok(None);
                }
                assert(buffer@ =~= all.subrange(0, HEADER_LEN as int));
                assert(all.subrange(0, HEADER_LEN as int) =~= all);
                match RawHeader::decode(buffer).validate() {
                    Err(error) => {
                        *self = Decoder {
                            state: DecoderState::ReadingHeader { filled, buffer },
                            frame_limit,
                            seen: Ghost(all),
                        };
                        Err(ErrorKind::Decode(error))
                    },
                    Ok(Header::Ping { payload, is_response }) => Ok(
                        Some(DecodedFrame::Ping { payload, is_response }),
                    ),
                    Ok(Header::WindowUpdate { stream_id, flags, len }) => Ok(
                        Some(
                            DecodedFrame::Stream {
                                stream_id,
                                flags,
                                payload: StreamPayload::WindowUpdate(len),
                            },
                        ),
                    ),
                    Ok(Header::Data { stream_id, flags, len }) => if len > frame_limit {
                        *self = Decoder {
                            state: DecoderState::ReadingHeader { filled, buffer },
                            frame_limit,
                            seen: Ghost(all),
                        };
                        Err(
                            ErrorKind::Stream {
                                id: stream_id,
                                error: StreamError(
                                    "sent a DATA frame exceeding the configured size limit",
                                ),
                            },
                        )
                    } else if len == 0 {
                        assert(all.subrange(HEADER_LEN as int, HEADER_LEN as int) =~= Seq::<
                            u8,
                        >::empty());
                        Ok(
                            Some(
                                DecodedFrame::Stream {
                                    stream_id,
                                    flags,
                                    payload: StreamPayload::Data(Data::default()),
                                },
                            ),
                        )
                    } else {
                        let buffer = Buffer::with_capactiy(crate::safe_cast_usize(len));
                        *self = Decoder {
                            state: DecoderState::ReadingData {
                                stream_id,
                                flags,
                                buffer,
                                filled: 0,
                            },
                            frame_limit,
                            seen: Ghost(all),
                        };
                        Ok(None)
                    },
                    Ok(Header::Term) => Ok(Some(DecodedFrame::Terminate)),
                }
            },
            DecoderState::ReadingData { stream_id, flags, buffer, filled } => {
                let mut buffer = buffer;
                assert(all.subrange(0, HEADER_LEN as int) =~= fresh.seen@.subrange(
                    0,
                    HEADER_LEN as int,
                ));
                buffer.fill(filled, bytes);
                let filled: usize = filled + bytes.len();
                assert(forall|i: int| 0 <= i < filled ==> buffer@[i] == all[HEADER_LEN + i]);
                if filled == buffer.as_slice().len() {
                    assert(buffer@ =~= all.subrange(HEADER_LEN as int, HEADER_LEN + buffer@.len()));
                    Ok(
                        Some(
                            DecodedFrame::Stream {
                                stream_id,
                                flags,
                                payload: StreamPayload::Data(buffer.assume_init()),
                            },
                        ),
                    )
                } else {
                    *self = Decoder {
                        state: DecoderState::ReadingData { stream_id, flags, buffer, filled },
                        frame_limit,
                        seen: Ghost(all),
                    };
                    Ok(None)
                }
            },
        }
    }

    /// Takes in the end of the flow, which may only come between frames.
    pub fn end(&self) -> (r: Result<(), ErrorKind>)
        ensures
            r is Ok <==> self.seen().len() == 0,
            r matches Err(e) ==> e == ErrorKind::Io(io_error_of(IoFailure::UnexpectedEof)),
    {
        proof {
            use_type_invariant(self);
        }
        match &self.state {
            DecoderState::ReadingHeader { filled: 0, .. } => Ok(()),
            _ => Err(ErrorKind::Io(io_error(IoFailure::UnexpectedEof))),
        }
    }

    /// Gives back the bytes taken in since the last frame.
    pub fn into_unread(self) -> (r: Vec<u8>)
        ensures
            r@ == self.seen(),
    {
        proof {
            use_type_invariant(&self);
        }
        let mut r: Vec<u8> = Vec::new();
        match self.state {
            DecoderState::ReadingHeader { filled, buffer } => {
                let mut i: usize = 0;
                while i < filled
                    invariant
                        i <= filled <= HEADER_LEN,
                        r@ == buffer@.subrange(0, i as int),
                    decreases filled - i,
                {
                    r.push(buffer[i]);
                    i += 1;
                    assert(r@ =~= buffer@.subrange(0, i as int));
                }
            },
            DecoderState::ReadingData { stream_id, flags, buffer, filled } => {
                let ghost head = self.seen@.subrange(0, HEADER_LEN as int);
                let bits: u8 = RawFlags::from(flags).bits;
                let header = RawHeader {
                    stream_id,
                    flags: RawFlags { bits: bits + RawFlags::DATA },
                    len: buffer.as_slice().len() as u32,
                };
                proof {
                    crate::header::encoding_undoes_decoding(head);
                }
                r.extend_from_slice(header.encode().as_slice());
                assert(r@ =~= head);
                let mut i: usize = 0;
                while i < filled
                    invariant
                        i <= filled < buffer@.len(),
                        self.seen@.len() == HEADER_LEN + filled,
                        forall|j: int|
                            0 <= j < filled ==> buffer@[j] == self.seen@[HEADER_LEN + j],
                        r@ == self.seen@.subrange(0, HEADER_LEN + i),
                    decreases filled - i,
                {
                    r.push(buffer.as_slice()[i]);
                    i += 1;
                    assert(r@ =~= self.seen@.subrange(0, HEADER_LEN + i));
                }
            },
        }
        assert(r@ =~= self.seen@);
        r
    }
}

} // verus!
