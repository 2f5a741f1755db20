//! The downgrade handshake that hands the transport back.

use vstd::prelude::*;

use crate::transport::{Inbound, Transport};

verus! {

/// What the writing half of the handshake has to do next.
#[derive(Clone, Copy, Debug, PartialEq, Eq, Structural)]
pub enum WriterStep {
    /// Send our `TERM`, if it is not queued yet, and flush it.
    Close,
    /// Shut the I/O transport down.
    Shutdown,
    /// Nothing.
    Done,
}

/// What came of a handshake that ran its course.
#[derive(Clone, Copy, Debug, PartialEq, Eq, Structural)]
pub enum Recovery {
    /// The handshake is not over.
    Pending,
    /// The transport is clean.
    Clean,
    /// Bytes were read that the handshake has no way to attribute: the peer
    /// sent data before the handshake completed.
    Dirty,
}

/// The downgrade of a connection.
///
/// It sends our `TERM`, waits for the peer's, and then gives back the I/O
/// transport, which has no unread protocol bytes left in it.
pub struct Downgraded {
    /// The transport of the connection that ended.
    pub transport: Transport,
    /// Whether we've received the `TERM` frame.
    pub term_received: bool,
    /// Whether our own `TERM` is out and flushed.
    pub term_sent: bool,
    /// Whether we should automatically shut down the I/O transport.
    pub with_shutdown: bool,
    /// Whether the shutdown has run, if one was asked for.
    pub shut_down: bool,
}

impl Downgraded {
    /// The handshake as it starts.
    pub open spec fn starts(self, transport: Transport, term_received: bool) -> bool {
        &&& self.transport == transport
        &&& self.term_received == term_received
        &&& !self.term_sent
        &&& !self.with_shutdown
        &&& !self.shut_down
    }

    /// Whether both halves of the handshake are over.
    pub open spec fn over(self) -> bool {
        self.term_received && self.term_sent && (self.with_shutdown ==> self.shut_down)
    }

    /// Starts the handshake.
    pub fn new(transport: Transport, term_received: bool) -> (r: Self)
        ensures
            r.starts(transport, term_received),
    {
        Downgraded {
            transport,
            term_received,
            term_sent: false,
            with_shutdown: false,
            shut_down: false,
        }
    }

    /// Has the I/O transport shut down after the final `TERM` frame.
    ///
    /// This might save some network roundtrips if the transport is not to be
    /// used anymore.
    pub fn with_shutdown(self) -> (r: Self)
        ensures
            r == (Downgraded { with_shutdown: true, ..self }),
    {
        Downgraded { with_shutdown: true, ..self }
    }

    /// What the writing half has to do next: our `TERM` first, the shutdown
    /// after it if one was asked for.
    pub fn writer_step(&self) -> (r: WriterStep)
        ensures
            r == if !self.term_sent {
                WriterStep::Close
            } else if self.with_shutdown && !self.shut_down {
                WriterStep::Shutdown
            } else {
                WriterStep::Done
            },
    {
        if !self.term_sent {
            WriterStep::Close
        } else if self.with_shutdown && !self.shut_down {
            WriterStep::Shutdown
        } else {
            WriterStep::Done
        }
    }

    /// Notes that the step last asked for is done.
    pub fn writer_done(&mut self)
        ensures
            *final(self) == if !old(self).term_sent {
                (Downgraded { term_sent: true, ..*old(self) })
            } else if old(self).with_shutdown {
                (Downgraded { shut_down: true, ..*old(self) })
            } else {
                *old(self)
            },
    {
        if !self.term_sent {
            self.term_sent = true;
        } else if self.with_shutdown {
            self.shut_down = true;
        }
    }

    /// Whether the reading half still waits for the peer's `TERM`.
    pub fn reading(&self) -> (r: bool)
        ensures
            r == !self.term_received,
    {
        !self.term_received
    }

    /// Takes in what an inbound frame came to. Whatever is still in flight is
    /// discarded: those streams are gone with the connection.
    pub fn on_inbound(&mut self, inbound: &Inbound)
        ensures
            *final(self) == (Downgraded {
                term_received: old(self).term_received || *inbound is Terminated,
                ..*old(self)
            }),
    {
        if let Inbound::Terminated = inbound {
            self.term_received = true;
        }
    }

    /// What came of the handshake, given the bytes that were read past the last
    /// frame.
    pub fn recovery(&self, unread: &[u8]) -> (r: Recovery)
        ensures
            r == if !self.over() {
                Recovery::Pending
            } else if unread@.len() == 0 {
                Recovery::Clean
            } else {
                Recovery::Dirty
            },
    {
        if self.reading() || self.writer_step() != WriterStep::Done {
            Recovery::Pending
        } else if unread.len() == 0 {
            Recovery::Clean
        } else {
            Recovery::Dirty
        }
    }
}

} // verus!
