//! The echo end of a measurement.
//!
//! The echo has to be transparent - whatever latency the client measures must be
//! the protocol's, not this end's - so both directions are tried on every wake,
//! and no more than a bounded amount is held between reading and writing back.
//! Any deeper and the echo would itself be a standing queue the marker has to
//! wait in.

use bytes::BytesMut;
use vstd::prelude::*;

use crate::bytes_ext::{bytes_mut_advance, bytes_mut_as_slice, held};
use crate::time::saturated;

verus! {

/// Most the echo will hold between reading and writing back: eight of the largest
/// payloads.
pub const ECHO_BUFFER: usize = 524_288;

/// An [`Echo`] as a mathematical value.
#[verifier::ext_equal]
pub ghost struct EchoView {
    /// Read and not yet written back.
    pub pending: Seq<u8>,
    /// Whether the peer's stream has ended.
    pub eof: bool,
    /// Bytes written back.
    pub echoed: u64,
}

impl EchoView {
    /// The echo once `bytes` have been read; none at all mark the end of the
    /// stream.
    pub open spec fn read(self, bytes: Seq<u8>) -> Self {
        if bytes.len() == 0 {
            EchoView { eof: true, ..self }
        } else {
            EchoView { pending: self.pending + bytes, ..self }
        }
    }

    /// The echo once the first `count` bytes have been written back.
    pub open spec fn wrote(self, count: int) -> Self {
        EchoView {
            pending: self.pending.skip(count),
            echoed: saturated(self.echoed + count),
            ..self
        }
    }

    /// How much may be read ahead.
    pub open spec fn room(self) -> int {
        if self.eof {
            0
        } else {
            ECHO_BUFFER - self.pending.len()
        }
    }

    /// Whether everything that was read has been written back, and no more comes.
    pub open spec fn finished(self) -> bool {
        self.eof && self.pending.len() == 0
    }
}

/// Everything read, to be written back in order.
#[derive(Debug)]
pub struct Echo {
    pending: BytesMut,
    eof: bool,
    echoed: u64,
}

impl View for Echo {
    type V = EchoView;

    closed spec fn view(&self) -> EchoView {
        EchoView { pending: held(self.pending), eof: self.eof, echoed: self.echoed }
    }
}

impl Echo {
    /// No more is held than may be.
    pub open spec fn wf(self) -> bool {
        self@.pending.len() <= ECHO_BUFFER
    }

    /// An echo that has read nothing.
    pub fn new() -> (r: Self)
        ensures
            r.wf(),
            r@ == (EchoView { pending: Seq::empty(), eof: false, echoed: 0 }),
    {
        Echo { pending: BytesMut::new(), eof: false, echoed: 0 }
    }

    /// How much may be read ahead; nothing once the peer's stream has ended.
    pub fn room(&self) -> (r: usize)
        requires
            self.wf(),
        ensures
            r == self@.room(),
    {
        if self.eof {
            0
        } else {
            ECHO_BUFFER - self.pending.len()
        }
    }

    /// Takes in bytes that were read; none at all mark the end of the stream.
    pub fn on_read(&mut self, bytes: &[u8])
        requires
            old(self).wf(),
            bytes@.len() <= old(self)@.room(),
        ensures
            final(self).wf(),
            final(self)@ == old(self)@.read(bytes@),
    {
        if bytes.len() == 0 {
            self.eof = true;
        } else {
            self.pending.extend_from_slice(bytes);
        }
    }

    /// What is to be written back.
    pub fn pending(&self) -> (r: &[u8])
        ensures
            r@ == self@.pending,
    {
        bytes_mut_as_slice(&self.pending)
    }

    /// Records that the first `count` bytes have been written back.
    pub fn on_written(&mut self, count: usize)
        requires
            old(self).wf(),
            count <= old(self)@.pending.len(),
        ensures
            final(self).wf(),
            final(self)@ == old(self)@.wrote(count as int),
    {
        bytes_mut_advance(&mut self.pending, count);
        self.echoed = self.echoed.saturating_add(count as u64);
    }

    /// Whether everything that was read has been written back, and no more comes.
    pub fn finished(&self) -> (r: bool)
        ensures
            r == self@.finished(),
    {
        self.eof && self.pending.is_empty()
    }

    /// Bytes written back.
    pub fn echoed(&self) -> (r: u64)
        ensures
            r == self@.echoed,
    {
        self.echoed
    }
}

/// Everything read is written back, in order: what has been written and what is
/// still held are together what was read, whatever is done next.
pub proof fn echo_keeps_order(
    v: EchoView,
    was_read: Seq<u8>,
    was_written: Seq<u8>,
    bytes: Seq<u8>,
    count: int,
)
    requires
        was_written + v.pending == was_read,
        0 <= count <= v.pending.len(),
    ensures
        was_written + v.read(bytes).pending == was_read + bytes,
        was_written + v.pending.take(count) + v.wrote(count).pending == was_read,
        v.finished() ==> was_written == was_read,
{
    assert(was_written + v.read(bytes).pending =~= was_read + bytes);
    assert(was_written + v.pending.take(count) + v.wrote(count).pending =~= was_read);
    assert(v.finished() ==> was_written =~= was_read);
}

/// An echo starts with nothing, and reads ahead no more than 512kB; nothing once
/// the stream has ended.
pub proof fn echoes_read_ahead_within_bounds(fresh: Echo, echo: &Echo, room: usize, done: bool)
    requires
        echo.wf(),
        call_ensures(Echo::new, (), fresh),
        call_ensures(Echo::room, (echo,), room),
        call_ensures(Echo::finished, (echo,), done),
    ensures
        fresh@.pending.len() == 0 && !fresh@.eof && fresh@.echoed == 0,
        echo@.eof ==> room == 0,
        !echo@.eof ==> room + echo@.pending.len() == 524_288,
        done <==> echo@.eof && echo@.pending.len() == 0,
{
}

/// What is read is written back behind what waits, and what is written back is
/// counted. An empty read is the end of the stream.
pub proof fn echoes_write_back_what_they_read(
    reader: &mut Echo,
    bytes: &[u8],
    writer: &mut Echo,
    count: usize,
    echo: &Echo,
    pending: &[u8],
    echoed: u64,
)
    requires
        reader.wf(),
        bytes@.len() <= reader@.room(),
        writer.wf(),
        count <= writer@.pending.len(),
        writer@.echoed + count <= u64::MAX,
        call_ensures(Echo::on_read, (reader, bytes), ()),
        call_ensures(Echo::on_written, (writer, count), ()),
        call_ensures(Echo::pending, (echo,), pending),
        call_ensures(Echo::echoed, (echo,), echoed),
    ensures
        final(reader)@.pending == old(reader)@.pending + bytes@,
        final(reader)@.echoed == old(reader)@.echoed,
        final(reader)@.eof <==> old(reader)@.eof || bytes@.len() == 0,
        old(writer)@.pending.take(count as int) + final(writer)@.pending == old(writer)@.pending,
        final(writer)@.echoed == old(writer)@.echoed + count,
        final(writer)@.eof == old(writer)@.eof,
        pending@ == echo@.pending,
        echoed == echo@.echoed,
{
    assert(old(reader)@.pending + Seq::<u8>::empty() =~= old(reader)@.pending);
    if bytes@.len() == 0 {
        assert(bytes@ =~= Seq::<u8>::empty());
    }
    assert(old(writer)@.pending.take(count as int) + final(writer)@.pending =~= old(
        writer)@.pending);
}

} // verus!
