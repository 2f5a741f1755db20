//! Frames as they pass between streams and the transport.

use bytes::Bytes;
use vstd::prelude::*;

use crate::buffer::{self, same_bytes};
use crate::bytes_ext::{bytes_as_slice, content};
use crate::codec::decoder::FrameView;
use crate::codec::encoder::{EncoderItem, HEADERS_LEN};
use crate::codec::laws::frame_bytes;
use crate::header::ControlFlags;
use crate::stream_id::StreamId;

verus! {

/// Payload of a [`Data`] frame.
///
/// Not simply [`Bytes`], because the two directions get here differently and
/// both are free of copies: payload read off the transport lands in a buffer
/// that a reader queue can link into without a second allocation, while payload
/// handed over to be sent is already [`Bytes`].
#[derive(Debug)]
pub enum Payload {
    /// Read off the transport.
    Received(buffer::Data),
    /// Handed to the transport to send.
    ToSend(Bytes),
}

impl View for Payload {
    type V = Seq<u8>;

    open spec fn view(&self) -> Seq<u8> {
        match *self {
            Payload::Received(data) => data@,
            Payload::ToSend(bytes) => content(bytes),
        }
    }
}

impl Default for Payload {
    fn default() -> (r: Self)
        ensures
            r@ == Seq::<u8>::empty(),
    {
        Payload::ToSend(Bytes::new())
    }
}

impl Payload {
    /// Length of the payload in bytes.
    pub fn len(&self) -> (r: usize)
        ensures
            r == self@.len(),
    {
        match self {
            Payload::Received(data) => data.len(),
            Payload::ToSend(bytes) => bytes.len(),
        }
    }

    /// Whether the payload is empty. Empty `DATA` frames are valid, and are how
    /// a bare `FIN_WRITE` travels.
    pub fn is_empty(&self) -> (r: bool)
        ensures
            r == (self@.len() == 0),
    {
        self.len() == 0
    }

    /// The bytes themselves.
    pub fn as_slice(&self) -> (r: &[u8])
        ensures
            r@ == self@,
    {
        match self {
            Payload::Received(data) => data.as_slice(),
            Payload::ToSend(bytes) => bytes_as_slice(bytes),
        }
    }

    /// Takes the payload in the form a stream's reader queue accepts.
    pub fn into_received(self) -> (r: buffer::Data)
        ensures
            r@ == self@,
    {
        match self {
            Payload::Received(data) => data,
            Payload::ToSend(bytes) => buffer::Data::copy_from_slice(bytes_as_slice(&bytes)),
        }
    }

    /// Takes the payload in the form that is sent.
    pub fn into_bytes(self) -> (r: Bytes)
        ensures
            content(r) == self@,
    {
        match self {
            Payload::Received(data) => data.into_bytes(),
            Payload::ToSend(bytes) => bytes,
        }
    }
}

impl From<Bytes> for Payload {
    fn from(value: Bytes) -> (r: Self) {
        Payload::ToSend(value)
    }
}

impl vstd::std_specs::convert::FromSpecImpl<Bytes> for Payload {
    open spec fn obeys_from_spec() -> bool {
        true
    }

    open spec fn from_spec(value: Bytes) -> Payload {
        Payload::ToSend(value)
    }
}

impl From<buffer::Data> for Payload {
    fn from(value: buffer::Data) -> (r: Self) {
        Payload::Received(value)
    }
}

impl vstd::std_specs::convert::FromSpecImpl<buffer::Data> for Payload {
    open spec fn obeys_from_spec() -> bool {
        true
    }

    open spec fn from_spec(value: buffer::Data) -> Payload {
        Payload::Received(value)
    }
}

impl PartialEq for Payload {
    fn eq(&self, other: &Self) -> (r: bool) {
        same_bytes(self.as_slice(), other.as_slice())
    }
}

impl vstd::std_specs::cmp::PartialEqSpecImpl for Payload {
    open spec fn obeys_eq_spec() -> bool {
        true
    }

    open spec fn eq_spec(&self, other: &Self) -> bool {
        self@ == other@
    }
}

/// A `DATA` frame: payload for one stream.
#[derive(Debug)]
pub struct Data {
    /// Stream the payload belongs to.
    pub stream_id: StreamId,
    /// Stream lifecycle bits carried along.
    pub flags: ControlFlags,
    /// The payload itself. Counts against the transit window.
    pub payload: Payload,
}

/// A stream-level `WINDOW_UPDATE` frame.
///
/// Window updates cost no transit credit: they are what keeps the *reverse*
/// direction moving, so holding them back behind an exhausted transit window
/// would stall the peer on credit only we can return.
#[derive(Clone, Copy, Debug, PartialEq, Eq, Structural)]
pub struct StreamWindowUpdate {
    /// Stream the credit belongs to.
    pub stream_id: StreamId,
    /// Stream lifecycle bits carried along.
    pub flags: ControlFlags,
    /// Bytes of receive window credit returned. May be zero, which is how a
    /// bare `SYN` or `FIN_*` travels.
    pub update: u32,
}

/// A stream-level frame: the only traffic a transport passes through.
///
/// Everything else on the wire is the transport's own business and never
/// reaches the caller as a frame.
#[derive(Debug)]
pub enum StreamFrame {
    /// Payload for one stream.
    Data(Data),
    /// Receive window credit for one stream.
    WindowUpdate(StreamWindowUpdate),
}

impl View for StreamFrame {
    type V = FrameView;

    open spec fn view(&self) -> FrameView {
        match *self {
            StreamFrame::Data(frame) => FrameView::Data {
                stream_id: frame.stream_id,
                flags: frame.flags,
                data: frame.payload@,
            },
            StreamFrame::WindowUpdate(frame) => FrameView::WindowUpdate {
                stream_id: frame.stream_id,
                flags: frame.flags,
                update: frame.update,
            },
        }
    }
}

impl StreamFrame {
    /// ID of the stream this frame belongs to.
    pub open spec fn id(self) -> StreamId {
        match self {
            StreamFrame::Data(frame) => frame.stream_id,
            StreamFrame::WindowUpdate(frame) => frame.stream_id,
        }
    }

    /// Number of payload bytes that this frame carries.
    pub open spec fn payload_len(self) -> nat {
        match self {
            StreamFrame::Data(frame) => frame.payload@.len(),
            StreamFrame::WindowUpdate(_) => 0,
        }
    }

    /// ID of the stream this frame belongs to.
    pub fn stream_id(&self) -> (r: StreamId)
        ensures
            r == self.id(),
    {
        match self {
            StreamFrame::Data(frame) => frame.stream_id,
            StreamFrame::WindowUpdate(frame) => frame.stream_id,
        }
    }

    /// Encodes the frame.
    pub fn encode(self) -> (r: EncoderItem)
        requires
            self.payload_len() <= u32::MAX,
            HEADERS_LEN + self.payload_len() <= usize::MAX,
        ensures
            r@ == frame_bytes(self@),
    {
        match self {
            StreamFrame::Data(frame) => EncoderItem::new_data(
                frame.stream_id,
                frame.flags,
                frame.payload.into_bytes(),
            ),
            StreamFrame::WindowUpdate(frame) => EncoderItem::new_window_update(
                frame.stream_id,
                frame.flags,
                frame.update,
            ),
        }
    }

    /// Stream lifecycle bits this frame carries.
    pub fn flags(&self) -> (r: ControlFlags)
        ensures
            r == match *self {
                StreamFrame::Data(frame) => frame.flags,
                StreamFrame::WindowUpdate(frame) => frame.flags,
            },
    {
        match self {
            StreamFrame::Data(frame) => frame.flags,
            StreamFrame::WindowUpdate(frame) => frame.flags,
        }
    }
}

impl PartialEq for StreamFrame {
    fn eq(&self, other: &Self) -> (r: bool) {
        match (self, other) {
            (StreamFrame::Data(a), StreamFrame::Data(b)) => {
                a.stream_id == b.stream_id && a.flags == b.flags && a.payload == b.payload
            },
            (StreamFrame::WindowUpdate(a), StreamFrame::WindowUpdate(b)) => *a == *b,
            _ => false,
        }
    }
}

impl vstd::std_specs::cmp::PartialEqSpecImpl for StreamFrame {
    open spec fn obeys_eq_spec() -> bool {
        true
    }

    open spec fn eq_spec(&self, other: &Self) -> bool {
        self@ == other@
    }
}

} // verus!
