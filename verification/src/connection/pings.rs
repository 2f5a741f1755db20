//! `PING` exchanges on a schedule.

use vstd::prelude::*;

use crate::error::ErrorKind;
use crate::header::PingPayload;
use crate::poll::Poll;
use crate::time::{capped, span, TimeSpan, Timestamp};

verus! {

/// Outbound `PING`s state machine.
#[derive(Clone, Copy, Debug, PartialEq, Eq, Structural)]
pub enum PingsState {
    /// Waiting to send the next `PING`.
    ///
    /// The deadline is when the time comes.
    WaitingToSend,
    /// Ready to send the next `PING`.
    ///
    /// The deadline is when the `PING` times out.
    ReadyToSend {
        /// Time when the `PING` was ready to be sent. Timeout is tracked from
        /// this point in time.
        since: Timestamp,
    },
    /// Waiting for a `PING` response.
    ///
    /// The deadline is when the `PING` times out.
    WaitingForResponse {
        /// Time when the `PING` was ready to be sent. Timeout is tracked from
        /// this point in time.
        ready_since: Timestamp,
        /// Time when the `PING` was sent. Used to measure latency.
        sent_at: Timestamp,
        /// Payload of the sent `PING`. Used to verify the response.
        payload: PingPayload,
    },
}

/// Tracks the state of `PING` exchanges initiated by us.
#[derive(Clone, Copy, Debug, PartialEq, Eq, Structural)]
pub struct OutboundPings {
    /// When it's time to send or timeout a `PING`.
    pub deadline: Timestamp,
    /// Interval on which we send `PING`s.
    pub interval: TimeSpan,
    /// `PING` timeout.
    pub timeout: TimeSpan,
    /// `PING` state machine.
    pub state: PingsState,
}

/// The instant `after` past `t`.
pub open spec fn later(t: Timestamp, after: TimeSpan) -> Timestamp {
    Timestamp { nanos: capped(t.nanos + after.nanos) }
}

impl OutboundPings {
    /// Creates a new instance, configured to send `PING`s on the given interval
    /// and with the given timeout. The first is due right away.
    pub fn new(interval: TimeSpan, timeout: TimeSpan, now: Timestamp) -> (r: Self)
        ensures
            r == (OutboundPings {
                deadline: now,
                interval,
                timeout,
                state: PingsState::WaitingToSend,
            }),
    {
        OutboundPings { deadline: now, interval, timeout, state: PingsState::WaitingToSend }
    }

    /// If a `PING` is ready to be sent, returns it, carrying `payload`.
    ///
    /// The `PING` is considered to be sent.
    pub fn take_ready(&mut self, payload: PingPayload, now: Timestamp) -> (r: Option<PingPayload>)
        ensures
            match old(self).state {
                PingsState::ReadyToSend { since } => {
                    &&& r == Some(payload)
                    &&& *final(self) == (OutboundPings {
                        state: PingsState::WaitingForResponse {
                            ready_since: since,
                            sent_at: now,
                            payload,
                        },
                        ..*old(self)
                    })
                },
                _ => r is None && *final(self) == *old(self),
            },
    {
        match self.state {
            PingsState::ReadyToSend { since } => {
                self.state = PingsState::WaitingForResponse {
                    ready_since: since,
                    sent_at: now,
                    payload,
                };
                Some(payload)
            },
            _ => None,
        }
    }

    /// Polls progress on this state machine.
    ///
    /// Returns when the next `PING` is ready to be sent, or when one timed out.
    /// Before the deadline nothing happens.
    ///
    /// If this method returns an error, this struct should no longer be used.
    pub fn poll_progress(&mut self, now: Timestamp) -> (r: Poll<Result<(), ErrorKind>>)
        ensures
            now.nanos < old(self).deadline.nanos ==> r is Pending && *final(self) == *old(self),
            now.nanos >= old(self).deadline.nanos ==> {
                &&& r matches Poll::Ready(result)
                &&& match old(self).state {
                    PingsState::WaitingToSend => {
                        &&& *final(self) == (OutboundPings {
                            state: PingsState::ReadyToSend { since: now },
                            deadline: later(now, old(self).timeout),
                            ..*old(self)
                        })
                        &&& result is Ok <==> now.nanos < later(now, old(self).timeout).nanos
                        &&& result matches Err(e) ==> e == (ErrorKind::PingSendTimeout {
                            elapsed: (TimeSpan { nanos: 0 }),
                        })
                    },
                    PingsState::ReadyToSend { since } => {
                        &&& *final(self) == *old(self)
                        &&& result == Err::<(), ErrorKind>(
                            ErrorKind::PingSendTimeout { elapsed: span(since, now) },
                        )
                    },
                    PingsState::WaitingForResponse { ready_since, payload, .. } => {
                        &&& *final(self) == *old(self)
                        &&& result == Err::<(), ErrorKind>(
                            ErrorKind::PingResponseTimeout {
                                payload,
                                elapsed: span(ready_since, now),
                            },
                        )
                    },
                }
            },
    {
        if now.nanos < self.deadline.nanos {
            return Poll::Pending;
        }
        match self.state {
            PingsState::WaitingToSend => {
                self.state = PingsState::ReadyToSend { since: now };
                self.deadline = now.plus(self.timeout);
                if now.nanos < self.deadline.nanos {
                    Poll::Ready(Ok(()))
                } else {
                    Poll::Ready(Err(ErrorKind::PingSendTimeout { elapsed: TimeSpan::zero() }))
                }
            },
            PingsState::ReadyToSend { since } => Poll::Ready(
                Err(ErrorKind::PingSendTimeout { elapsed: now.since(since) }),
            ),
            PingsState::WaitingForResponse { ready_since, payload, .. } => Poll::Ready(
                Err(ErrorKind::PingResponseTimeout { payload, elapsed: now.since(ready_since) }),
            ),
        }
    }

    /// Notifies this struct that we received a `PING` response.
    ///
    /// Returns the `PING` exchange latency. The next `PING` is due one interval
    /// after this one was sent.
    ///
    /// If this method returns an error, this struct should no longer be used.
    pub fn received_response(&mut self, payload: PingPayload, now: Timestamp) -> (r: Result<
        TimeSpan,
        ErrorKind,
    >)
        ensures
            match old(self).state {
                PingsState::WaitingForResponse { sent_at, payload: expected, .. } if expected
                    == payload => {
                    &&& r == Ok::<TimeSpan, ErrorKind>(span(sent_at, now))
                    &&& *final(self) == (OutboundPings {
                        deadline: later(sent_at, old(self).interval),
                        state: PingsState::WaitingToSend,
                        ..*old(self)
                    })
                },
                _ => {
                    &&& r == Err::<TimeSpan, ErrorKind>(ErrorKind::UnexpectedPing(payload))
                    &&& *final(self) == *old(self)
                },
            },
    {
        match self.state {
            PingsState::WaitingForResponse { sent_at, payload: expected, .. } => {
                if expected != payload {
                    return Err(ErrorKind::UnexpectedPing(payload));
                }
                self.deadline = sent_at.plus(self.interval);
                self.state = PingsState::WaitingToSend;
                Ok(now.since(sent_at))
            },
            _ => Err(ErrorKind::UnexpectedPing(payload)),
        }
    }
}

} // verus!
