//! The application's ends of a stream.

use std::task::Waker;

use bytes::Bytes;
use vstd::prelude::*;

use crate::buffer::Data;
use crate::bytes_ext::content;
use crate::poll::Poll;
use crate::stream::outbound::{OutboundView, WriteError};
use crate::stream::waker::{registered, Wakes};
use crate::stream::SharedStreamState;
use crate::stream_id::StreamId;

verus! {

/// Bidirectional virtual data stream created within a connection.
#[derive(Debug, PartialEq, Eq, Structural)]
pub struct RammuxDuplex {
    /// The writing end.
    pub sink: RammuxSink,
    /// The reading end.
    pub stream: RammuxStream,
}

impl RammuxDuplex {
    /// Returns the ID of this stream.
    pub fn id(&self) -> (r: StreamId)
        ensures
            r == self.sink.id,
    {
        self.sink.id
    }

    /// Splits this stream into independent writing and reading ends.
    pub fn into_split(self) -> (r: (RammuxSink, RammuxStream))
        ensures
            r == (self.sink, self.stream),
    {
        (self.sink, self.stream)
    }
}

/// Writing end of a [`RammuxDuplex`].
///
/// Flushing and closing are done as soon as all pending data is framed and
/// enqueued for sending. If the connection is downgraded before the data is
/// enqueued, the data will be lost.
#[derive(Debug, PartialEq, Eq, Structural)]
pub struct RammuxSink {
    /// ID of the stream.
    pub id: StreamId,
    /// Whether the end is still attached to the stream.
    pub open: bool,
}

impl RammuxSink {
    /// Returns the ID of this stream.
    pub fn id(&self) -> (r: StreamId)
        ensures
            r == self.id,
    {
        self.id
    }

    /// Polls until data can be sent. A failure detaches the end.
    pub fn poll_ready(&mut self, state: &mut SharedStreamState, waker: &Waker) -> (r: Poll<
        Result<(), WriteError>,
    >)
        requires
            old(state).valid(),
        ensures
            final(state).valid(),
            final(self).id == old(self).id,
            final(state).inbound == old(state).inbound,
            final(state).updates_poller == old(state).updates_poller,
            if !old(self).open {
                &&& r == Poll::Ready(Err::<(), WriteError>(WriteError::BrokenPipe))
                &&& *final(self) == *old(self)
                &&& *final(state) == *old(state)
            } else {
                match old(state).outbound@ {
                    OutboundView::Open { ready, .. } => {
                        &&& final(self).open
                        &&& r == if ready.len() == 0 {
                            Poll::Ready(Ok::<(), WriteError>(()))
                        } else {
                            Poll::Pending
                        }
                        &&& final(state).outbound@ == if ready.len() == 0 {
                            old(state).outbound@
                        } else {
                            old(state).outbound@.with_writer(*waker)
                        }
                    },
                    _ => {
                        &&& r == Poll::Ready(Err::<(), WriteError>(WriteError::BrokenPipe))
                        &&& !final(self).open
                        &&& final(state).outbound@ == old(state).outbound@
                    },
                }
            },
    {
        if !self.open {
            return Poll::Ready(Err(WriteError::BrokenPipe));
        }
        let r = state.outbound.poll_write_ready(waker);
        if let Poll::Ready(Err(_)) = &r {
            self.open = false;
        }
        r
    }

    /// Hands data over to be sent. A failure detaches the end.
    pub fn start_send(
        &mut self,
        state: &mut SharedStreamState,
        item: Bytes,
        woken: &mut Wakes,
    ) -> (r: Result<(), WriteError>)
        requires
            old(state).valid(),
        ensures
            final(state).valid(),
            final(self).id == old(self).id,
            final(state).inbound == old(state).inbound,
            r is Ok <==> old(self).open && old(state).outbound@ is Open && old(state).outbound@.pending().len() == 0,
            final(state).outbound@ == if r is Ok {
                old(state).outbound@.with_data(content(item))
            } else {
                old(state).outbound@
            },
            final(state).updates_poller@ == if r is Ok && old(state).outbound@.write_stirs(
                content(item),
            ) {
                None
            } else {
                old(state).updates_poller@
            },
            final(woken)@ == old(woken)@ + if r is Ok && old(state).outbound@.write_stirs(
                content(item),
            ) {
                registered(old(state).updates_poller@)
            } else {
                Seq::empty()
            },
            r matches Err(e) ==> e == if old(self).open && old(state).outbound@ is Open {
                WriteError::NotReady
            } else {
                WriteError::BrokenPipe
            },
            final(self).open == r is Ok,
    {
        if !self.open {
            return Err(WriteError::BrokenPipe);
        }
        let r = state.outbound.write(item, &mut state.updates_poller, woken);
        if r.is_err() {
            self.open = false;
        }
        r
    }

    /// Polls until all data is framed.
    pub fn poll_flush(&self, state: &mut SharedStreamState, waker: &Waker) -> (r: Poll<()>)
        requires
            old(state).valid(),
        ensures
            final(state).valid(),
            final(state).inbound == old(state).inbound,
            final(state).updates_poller == old(state).updates_poller,
            r == if self.open && old(state).outbound@.pending().len() > 0 {
                Poll::Pending
            } else {
                Poll::Ready(())
            },
            final(state).outbound@ == if r is Pending {
                old(state).outbound@.with_writer(*waker)
            } else {
                old(state).outbound@
            },
    {
        if self.open {
            state.outbound.poll_flushed(waker)
        } else {
            Poll::Ready(())
        }
    }

    /// Closes writing, and polls until all data is framed.
    pub fn poll_close(
        &mut self,
        state: &mut SharedStreamState,
        waker: &Waker,
        woken: &mut Wakes,
    ) -> (r: Poll<()>)
        requires
            old(state).valid(),
        ensures
            final(state).valid(),
            final(self).id == old(self).id,
            final(state).inbound == old(state).inbound,
            r == if old(self).open && old(state).outbound@.pending().len() > 0 {
                Poll::Pending
            } else {
                Poll::Ready(())
            },
            final(self).open == (r is Pending),
            final(state).outbound@ == if !old(self).open {
                old(state).outbound@
            } else if r is Pending {
                old(state).outbound@.writing_closed().with_writer(*waker)
            } else {
                old(state).outbound@.writing_closed()
            },
            final(state).updates_poller@ == if old(self).open && old(state).outbound@.close_stirs() {
                None
            } else {
                old(state).updates_poller@
            },
            final(woken)@ == old(woken)@ + if old(self).open && old(state).outbound@.close_stirs() {
                registered(old(state).updates_poller@)
            } else {
                Seq::empty()
            },
    {
        if !self.open {
            return Poll::Ready(());
        }
        state.outbound.close_writing(&mut state.updates_poller, woken);
        match state.outbound.poll_flushed(waker) {
            Poll::Pending => Poll::Pending,
            Poll::Ready(()) => {
                self.open = false;
                Poll::Ready(())
            },
        }
    }

    /// Closes writing when the end goes away.
    pub fn close(&mut self, state: &mut SharedStreamState, woken: &mut Wakes)
        requires
            old(state).valid(),
        ensures
            final(state).valid(),
            final(self).id == old(self).id,
            !final(self).open,
            final(state).inbound == old(state).inbound,
            final(state).outbound@ == if old(self).open {
                old(state).outbound@.writing_closed()
            } else {
                old(state).outbound@
            },
            final(state).updates_poller@ == if old(self).open && old(state).outbound@.close_stirs() {
                None
            } else {
                old(state).updates_poller@
            },
            final(woken)@ == old(woken)@ + if old(self).open && old(state).outbound@.close_stirs() {
                registered(old(state).updates_poller@)
            } else {
                Seq::empty()
            },
    {
        if self.open {
            self.open = false;
            state.outbound.close_writing(&mut state.updates_poller, woken);
        }
    }
}

/// Reading end of a [`RammuxDuplex`].
#[derive(Debug, PartialEq, Eq, Structural)]
pub struct RammuxStream {
    /// ID of the stream.
    pub id: StreamId,
    /// Whether the end is still attached to the stream.
    pub open: bool,
}

impl RammuxStream {
    /// Returns the ID of this stream.
    pub fn id(&self) -> (r: StreamId)
        ensures
            r == self.id,
    {
        self.id
    }

    /// Polls the next chunk of data, [`None`] at the end of the stream, which
    /// detaches the end.
    pub fn poll_next(
        &mut self,
        state: &mut SharedStreamState,
        waker: &Waker,
        woken: &mut Wakes,
    ) -> (r: Poll<Option<Data>>)
        requires
            old(state).valid(),
        ensures
            final(state).valid(),
            final(self).id == old(self).id,
            final(state).outbound == old(state).outbound,
            final(state).inbound@.borrowed() == old(state).inbound@.borrowed(),
            final(self).open == (old(self).open && !(old(state).inbound@ is Closed)),
            !final(self).open ==> r matches Poll::Ready(None),
            final(self).open && old(state).inbound@.unread().len() == 0 ==> r is Pending,
            final(self).open && old(state).inbound@.unread().len() > 0 ==> (r matches Poll::Ready(
                Some(data),
            ) && data@ == old(state).inbound@.unread()[0]),
            final(state).inbound@ == if old(self).open {
                old(state).inbound@.read_by(*waker)
            } else {
                old(state).inbound@
            },
            final(state).updates_poller@ == if old(self).open && old(state).inbound@.read_stirs() {
                None
            } else {
                old(state).updates_poller@
            },
            final(woken)@ == old(woken)@ + if old(self).open && old(state).inbound@.read_stirs() {
                registered(old(state).updates_poller@)
            } else {
                Seq::empty()
            },
    {
        if !self.open {
            return Poll::Ready(None);
        }
        let r = state.inbound.poll_read(waker, &mut state.updates_poller, woken);
        if let Poll::Ready(None) = &r {
            self.open = false;
        }
        r
    }

    /// Closes reading when the end goes away.
    pub fn close(&mut self, state: &mut SharedStreamState, woken: &mut Wakes)
        requires
            old(state).valid(),
        ensures
            final(state).valid(),
            final(self).id == old(self).id,
            !final(self).open,
            final(state).outbound == old(state).outbound,
            final(state).inbound@ == if old(self).open {
                old(state).inbound@.reading_closed()
            } else {
                old(state).inbound@
            },
            final(state).updates_poller@ == if old(self).open && !(old(state).inbound@ is Closed) {
                None
            } else {
                old(state).updates_poller@
            },
            final(woken)@ == old(woken)@ + if old(self).open && !(old(state).inbound@ is Closed) {
                registered(old(state).updates_poller@)
            } else {
                Seq::empty()
            },
    {
        if self.open {
            self.open = false;
            state.inbound.close_reading(&mut state.updates_poller, woken);
        }
    }
}

} // verus!
