//! Lifecycle states of a connection.

use vstd::prelude::*;

use crate::connection::downgrade::Downgraded;
use crate::connection::streams::ActiveStreams;
use crate::error::ErrorKind;
use crate::global_pool::GlobalPool;
use crate::transport::Transport;

verus! {

/// Inner state of a connection.
pub enum ConnState {
    /// Connection is active.
    Active(Active),
    /// Connection has failed.
    Poisoned,
    /// Connection was downgraded.
    Downgraded,
}

/// Everything a live connection owns.
pub struct Active {
    /// Session-level protocol state.
    pub transport: Transport,
    /// Streams this connection is serving.
    pub streams: ActiveStreams,
    /// The connection-wide state that the streams share.
    pub global: GlobalPool,
}

/// Whether `e` says why a connection in state `s` is of no use.
pub open spec fn unusable(s: ConnState, e: ErrorKind) -> bool {
    match s {
        ConnState::Active(_) => false,
        ConnState::Poisoned => e is Poisoned,
        ConnState::Downgraded => e is AlreadyDowngraded,
    }
}

impl ConnState {
    /// The live connection, to be worked with.
    pub fn active_mut(&mut self) -> (r: Result<&mut Active, ErrorKind>)
        ensures
            r is Ok <==> *old(self) is Active,
            match r {
                Ok(active) => *old(self) == ConnState::Active(*active) && *final(self)
                    == ConnState::Active(*final(active)),
                Err(e) => unusable(*old(self), e) && *final(self) == *old(self),
            },
    {
        match self {
            ConnState::Active(active) => Ok(active),
            ConnState::Poisoned => Err(ErrorKind::Poisoned),
            ConnState::Downgraded => Err(ErrorKind::AlreadyDowngraded),
        }
    }

    /// The live connection, to be looked at.
    pub fn active(&self) -> (r: Result<&Active, ErrorKind>)
        ensures
            match r {
                Ok(active) => *self == ConnState::Active(*active),
                Err(e) => unusable(*self, e),
            },
    {
        match self {
            ConnState::Active(active) => Ok(active),
            ConnState::Poisoned => Err(ErrorKind::Poisoned),
            ConnState::Downgraded => Err(ErrorKind::AlreadyDowngraded),
        }
    }

    /// Ends the live connection, handing its transport to the downgrade
    /// handshake.
    pub fn downgrade(&mut self, term_received: bool) -> (r: Result<Downgraded, ErrorKind>)
        ensures
            match *old(self) {
                ConnState::Active(active) => {
                    &&& *final(self) is Downgraded
                    &&& r matches Ok(downgraded)
                    &&& downgraded.starts(active.transport, term_received)
                },
                _ => {
                    &&& *final(self) == *old(self)
                    &&& r matches Err(e)
                    &&& unusable(*old(self), e)
                },
            },
    {
        let mut before = ConnState::Downgraded;
        std::mem::swap(&mut before, self);
        match before {
            ConnState::Active(active) => Ok(Downgraded::new(active.transport, term_received)),
            ConnState::Poisoned => {
                *self = ConnState::Poisoned;
                Err(ErrorKind::Poisoned)
            },
            ConnState::Downgraded => Err(ErrorKind::AlreadyDowngraded),
        }
    }
}

} // verus!
