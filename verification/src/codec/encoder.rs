//! Turning frames into outbound bytes.

use bytes::Bytes;
use vstd::prelude::*;

use crate::bytes_ext::{bytes_as_slice, content};
use crate::header::{
    no_flags, wire, ControlFlags, PingPayload, RawFlags, RawHeader, HEADER_LEN,
};
use crate::stream_id::StreamId;

verus! {

/// Room for the headers of an item.
pub const HEADERS_LEN: usize = 16;

/// One or two frames on their way out.
pub struct EncoderItem {
    headers: [u8; HEADERS_LEN],
    data: Bytes,
    consumed: usize,
}

/// The header of a `PING` frame.
pub open spec fn ping_header(payload: PingPayload, is_response: bool) -> RawHeader {
    RawHeader {
        stream_id: payload.stream_id,
        flags: RawFlags {
            bits: if is_response {
                RawFlags::PING
            } else {
                (RawFlags::PING + RawFlags::SYN) as u8
            },
        },
        len: payload.len,
    }
}

/// The header of a stream frame of the given type.
pub open spec fn stream_header(
    stream_id: StreamId,
    flags: ControlFlags,
    frame_type: u8,
    len: u32,
) -> RawHeader {
    RawHeader { stream_id, flags: RawFlags { bits: (flags.weight() + frame_type) as u8 }, len }
}

/// The first half of a pair: everything but `FIN_WRITE`.
pub open spec fn update_flags(flags: ControlFlags) -> ControlFlags {
    ControlFlags { fin_write: false, ..flags }
}

/// The second half of a pair: `FIN_WRITE` alone.
pub open spec fn data_flags(flags: ControlFlags) -> ControlFlags {
    ControlFlags { fin_write: flags.fin_write, ..no_flags() }
}

/// Places one header, or two, in the room for them.
fn place(first: Option<[u8; HEADER_LEN]>, second: [u8; HEADER_LEN]) -> (r: [u8; HEADERS_LEN])
    ensures
        r@.subrange(HEADER_LEN as int, HEADERS_LEN as int) == second@,
        first matches Some(first) ==> r@.subrange(0, HEADER_LEN as int) == first@,
{
    let f = match first {
        Some(first) => first,
        None => [0;HEADER_LEN],
    };
    let s = second;
    let r = [
        f[0], f[1], f[2], f[3], f[4], f[5], f[6], f[7],
        s[0], s[1], s[2], s[3], s[4], s[5], s[6], s[7],
    ];
    assert(r@.subrange(HEADER_LEN as int, HEADERS_LEN as int) =~= second@);
    assert(r@.subrange(0, HEADER_LEN as int) =~= f@);
    r
}

impl View for EncoderItem {
    type V = Seq<u8>;

    /// The bytes that are still to be written.
    open spec fn view(&self) -> Seq<u8> {
        self.headers_left() + self.data_left()
    }
}

impl EncoderItem {
    /// What is left of the headers.
    pub closed spec fn headers_left(&self) -> Seq<u8> {
        if self.consumed < HEADERS_LEN {
            self.headers@.skip(self.consumed as int)
        } else {
            Seq::empty()
        }
    }

    /// What is left of the data behind them.
    pub closed spec fn data_left(&self) -> Seq<u8> {
        if self.consumed < HEADERS_LEN {
            content(self.data)
        } else {
            content(self.data).skip(self.consumed - HEADERS_LEN)
        }
    }

    /// The runs of bytes still to be written that lie side by side, none of them
    /// empty: the headers, and the data.
    pub open spec fn runs(&self) -> Seq<Seq<u8>> {
        let headers = if self.headers_left().len() > 0 {
            seq![self.headers_left()]
        } else {
            Seq::empty()
        };
        let data = if self.data_left().len() > 0 {
            seq![self.data_left()]
        } else {
            Seq::empty()
        };
        headers + data
    }

    #[verifier::type_invariant]
    spec fn inv(self) -> bool {
        &&& HEADERS_LEN + content(self.data).len() <= usize::MAX
        &&& self.consumed <= HEADERS_LEN + content(self.data).len()
    }

    fn one(header: RawHeader, data: Bytes) -> (r: Self)
        requires
            HEADERS_LEN + content(data).len() <= usize::MAX,
        ensures
            r.headers_left() == wire(header),
            r.data_left() == content(data),
    {
        let r = EncoderItem {
            headers: place(None, header.encode()),
            data,
            consumed: HEADER_LEN,
        };
        assert(r.headers_left() =~= r.headers@.subrange(HEADER_LEN as int, HEADERS_LEN as int));
        r
    }

    /// A `PING` request or its response.
    pub fn new_ping(payload: PingPayload, is_response: bool) -> (r: Self)
        ensures
            r.headers_left() == wire(ping_header(payload, is_response)),
            r.data_left() == Seq::<u8>::empty(),
            r@ == wire(ping_header(payload, is_response)),
    {
        let bits: u8 = if is_response {
            RawFlags::PING
        } else {
            RawFlags::PING + RawFlags::SYN
        };
        let header = RawHeader {
            stream_id: payload.stream_id,
            flags: RawFlags { bits },
            len: payload.len,
        };
        let r = Self::one(header, Bytes::new());
        assert(r@ =~= wire(header));
        r
    }

    /// The end of the session: a header of zeroes.
    pub fn new_terminate() -> (r: Self)
        ensures
            r.headers_left() == r@,
            r.data_left() == Seq::<u8>::empty(),
            r@ == Seq::new(HEADER_LEN as nat, |i: int| 0u8),
    {
        let r = EncoderItem {
            headers: place(None, [0;HEADER_LEN]),
            data: Bytes::new(),
            consumed: HEADER_LEN,
        };
        assert(r@ =~= r.headers@.subrange(HEADER_LEN as int, HEADERS_LEN as int));
        assert(r.headers_left() =~= r@);
        assert(r@ =~= Seq::new(HEADER_LEN as nat, |i: int| 0u8));
        r
    }

    /// Receive window credit for a stream.
    pub fn new_window_update(stream_id: StreamId, flags: ControlFlags, update: u32) -> (r: Self)
        ensures
            r.headers_left() == wire(
                stream_header(stream_id, flags, RawFlags::WINDOW_UPDATE, update),
            ),
            r.data_left() == Seq::<u8>::empty(),
            r@ == wire(stream_header(stream_id, flags, RawFlags::WINDOW_UPDATE, update)),
    {
        let bits: u8 = RawFlags::from(flags).bits;
        let header = RawHeader {
            stream_id,
            flags: RawFlags { bits: bits + RawFlags::WINDOW_UPDATE },
            len: update,
        };
        let r = Self::one(header, Bytes::new());
        assert(r@ =~= wire(header));
        r
    }

    /// Data of a stream.
    pub fn new_data(stream_id: StreamId, flags: ControlFlags, data: Bytes) -> (r: Self)
        requires
            content(data).len() <= u32::MAX,
            HEADERS_LEN + content(data).len() <= usize::MAX,
        ensures
            r.headers_left() == wire(
                stream_header(stream_id, flags, RawFlags::DATA, content(data).len() as u32),
            ),
            r.data_left() == content(data),
    {
        let bits: u8 = RawFlags::from(flags).bits;
        let header = RawHeader {
            stream_id,
            flags: RawFlags { bits: bits + RawFlags::DATA },
            len: data.len() as u32,
        };
        Self::one(header, data)
    }

    /// Receive window credit and data of one stream, back to back. The update
    /// leads and carries `SYN` and `FIN_READ`; `FIN_WRITE` goes with the data.
    pub fn new_window_update_and_data(
        stream_id: StreamId,
        flags: ControlFlags,
        update: u32,
        data: Bytes,
    ) -> (r: Self)
        requires
            content(data).len() <= u32::MAX,
            HEADERS_LEN + content(data).len() <= usize::MAX,
        ensures
            r.headers_left() == wire(
                stream_header(stream_id, update_flags(flags), RawFlags::WINDOW_UPDATE, update),
            ) + wire(
                stream_header(
                    stream_id,
                    data_flags(flags),
                    RawFlags::DATA,
                    content(data).len() as u32,
                ),
            ),
            r.data_left() == content(data),
    {
        let first_bits: u8 = RawFlags::from(ControlFlags { fin_write: false, ..flags }).bits;
        let first = RawHeader {
            stream_id,
            flags: RawFlags { bits: first_bits + RawFlags::WINDOW_UPDATE },
            len: update,
        };
        let second_bits: u8 = RawFlags::from(
            ControlFlags { fin_write: flags.fin_write, fin_read: false, syn: false },
        ).bits;
        let second = RawHeader {
            stream_id,
            flags: RawFlags { bits: second_bits + RawFlags::DATA },
            len: data.len() as u32,
        };
        let r = EncoderItem {
            headers: place(Some(first.encode()), second.encode()),
            data,
            consumed: 0,
        };
        assert(r.headers@ =~= r.headers@.subrange(0, HEADER_LEN as int) + r.headers@.subrange(
            HEADER_LEN as int,
            HEADERS_LEN as int,
        ));
        assert(r.headers_left() =~= r.headers@);
        r
    }

    /// Number of bytes still to be written.
    pub fn remaining(&self) -> (r: usize)
        ensures
            r == self@.len(),
    {
        proof {
            use_type_invariant(self);
        }
        HEADERS_LEN + self.data.len() - self.consumed
    }

    /// Whether any bytes are still to be written.
    pub fn has_remaining(&self) -> (r: bool)
        ensures
            r == (self@.len() > 0),
    {
        self.remaining() > 0
    }

    /// All that is left of the headers, or of the data once they are out.
    pub fn chunk(&self) -> (r: &[u8])
        ensures
            r@ == if self.headers_left().len() > 0 {
                self.headers_left()
            } else {
                self.data_left()
            },
    {
        proof {
            use_type_invariant(self);
        }
        if self.consumed >= HEADERS_LEN {
            let offset: usize = self.consumed - HEADERS_LEN;
            let data = bytes_as_slice(&self.data);
            let r = vstd::slice::slice_subrange(data, offset, data.len());
            assert(r@ =~= self.data_left());
            r
        } else {
            let r = vstd::slice::slice_subrange(
                self.headers.as_slice(),
                self.consumed,
                HEADERS_LEN,
            );
            assert(r@ =~= self.headers_left());
            r
        }
    }

    /// Notes `cnt` bytes as written.
    pub fn advance(&mut self, cnt: usize)
        requires
            cnt <= old(self)@.len(),
        ensures
            final(self)@ == old(self)@.subrange(cnt as int, old(self)@.len() as int),
            ({
                let headers = old(self).headers_left();
                if cnt < headers.len() {
                    &&& final(self).headers_left() == headers.skip(cnt as int)
                    &&& final(self).data_left() == old(self).data_left()
                } else {
                    &&& final(self).headers_left() == Seq::<u8>::empty()
                    &&& final(self).data_left() == old(self).data_left().skip(cnt - headers.len())
                }
            }),
    {
        proof {
            use_type_invariant(&*self);
        }
        self.consumed = self.consumed + cnt;
        assert(self@ =~= old(self)@.subrange(cnt as int, old(self)@.len() as int));
    }

    /// The runs of bytes still to be written, none of them empty, as far as
    /// there are `slots` for them. At most two are needed.
    pub fn chunks_vectored(&self, slots: usize) -> (r: Vec<&[u8]>)
        ensures
            r@.map_values(|slice: &[u8]| slice@) == if slots < self.runs().len() {
                self.runs().take(slots as int)
            } else {
                self.runs()
            },
            r@.len() <= 2,
            forall|i: int| 0 <= i < r@.len() ==> (#[trigger] r@[i])@.len() > 0,
            slots >= 2 ==> joined(r@) == self@,
    {
        proof {
            use_type_invariant(self);
        }
        let mut r: Vec<&[u8]> = Vec::new();
        proof {
            reveal_with_fuel(joined, 3);
        }
        let data = bytes_as_slice(&self.data);
        if self.consumed < HEADERS_LEN {
            if slots == 0 {
                return r;
            }
            let head = vstd::slice::slice_subrange(
                self.headers.as_slice(),
                self.consumed,
                HEADERS_LEN,
            );
            r.push(head);
            assert(r@.drop_first() =~= Seq::<&[u8]>::empty());
            assert(joined(r@) =~= head@);
            if data.len() > 0 && slots > 1 {
                r.push(data);
                assert(r@.drop_first() =~= seq![data]);
                assert(seq![data].drop_first() =~= Seq::<&[u8]>::empty());
                assert(joined(r@) =~= head@ + data@);
            }
        } else if self.consumed - HEADERS_LEN < data.len() {
            if slots == 0 {
                return r;
            }
            let tail = vstd::slice::slice_subrange(
                data,
                self.consumed - HEADERS_LEN,
                data.len(),
            );
            r.push(tail);
            assert(r@.drop_first() =~= Seq::<&[u8]>::empty());
            assert(joined(r@) =~= tail@);
        }
        assert(joined(r@) =~= self@.subrange(0, joined(r@).len() as int));
        r
    }
}

/// The bytes of several slices one after the other.
pub open spec fn joined(slices: Seq<&[u8]>) -> Seq<u8>
    decreases slices.len(),
{
    if slices.len() == 0 {
        Seq::empty()
    } else {
        slices[0]@ + joined(slices.drop_first())
    }
}

} // verus!
