//! Error types.

use vstd::prelude::*;

use crate::header::{PingPayload, RawHeader};
use crate::stream_id::StreamId;
use crate::time::TimeSpan;

verus! {

/// The error type of `std::io`, carried as an opaque value.
#[verifier::external_type_specification]
#[verifier::external_body]
pub struct ExIoError(std::io::Error);

/// The kinds of I/O failure that the protocol itself reports.
#[derive(Clone, Copy, Debug, PartialEq, Eq, Structural)]
pub enum IoFailure {
    /// The transport ended in the middle of a frame.
    UnexpectedEof,
}

/// The `std::io::Error` that stands for a bare failure of the given kind.
pub uninterp spec fn io_error_of(failure: IoFailure) -> std::io::Error;

/// `std::io::Error::from` turns a bare error kind into an error; the error is
/// determined by the kind.
#[verifier::external_body]
pub(crate) fn io_error(failure: IoFailure) -> (r: std::io::Error)
    ensures
        r == io_error_of(failure),
{
    match failure {
        IoFailure::UnexpectedEof => std::io::Error::from(std::io::ErrorKind::UnexpectedEof),
    }
}

/// Errors that can occur when decoding an inbound frame.
#[derive(Clone, Copy, Debug)]
pub struct DecodeError {
    /// Raw frame header that failed decoding.
    pub header: RawHeader,
    /// Opaque message.
    pub message: &'static str,
}

/// Protocol violations that can occur within a specific stream.
#[derive(Clone, Copy, Debug)]
pub struct StreamError(pub &'static str);

impl From<&'static str> for StreamError {
    fn from(value: &'static str) -> (r: Self) {
        StreamError(value)
    }
}

impl vstd::std_specs::convert::FromSpecImpl<&'static str> for StreamError {
    open spec fn obeys_from_spec() -> bool {
        true
    }

    open spec fn from_spec(value: &'static str) -> StreamError {
        StreamError(value)
    }
}

/// What went wrong with a connection.
#[derive(Debug)]
pub enum ErrorKind {
    /// I/O transport failed.
    Io(std::io::Error),
    /// Failed to decode an inbound frame.
    Decode(DecodeError),
    /// The protocol was violated within a specific stream.
    Stream {
        /// ID of the stream.
        id: StreamId,
        /// Message describing the protocol violation.
        error: StreamError,
    },
    /// Received an unexpected `PING` frame.
    UnexpectedPing(PingPayload),
    /// The peer broke the link-clearing exchange.
    Probe(&'static str),
    /// The peer broke the transit window.
    Transit(&'static str),
    /// Failed to receive a `PING` response within the configured timeout.
    PingTimeout {
        /// Payload of the failed `PING`.
        payload: PingPayload,
        /// Time elapsed since the `PING` was sent.
        elapsed: TimeSpan,
    },
    /// Failed to send a `PING` within the configured timeout.
    PingSendTimeout {
        /// Time elapsed since the `PING` was due.
        elapsed: TimeSpan,
    },
    /// Failed to receive a `PING` response within the configured timeout.
    PingResponseTimeout {
        /// Payload of the failed `PING`.
        payload: PingPayload,
        /// Time elapsed since the `PING` was sent.
        elapsed: TimeSpan,
    },
    /// The connection was downgraded and is no longer valid.
    AlreadyDowngraded,
    /// The connection failed earlier and is no longer valid.
    Poisoned,
}

impl From<IoFailure> for ErrorKind {
    fn from(value: IoFailure) -> (r: Self) {
        ErrorKind::Io(io_error(value))
    }
}

impl vstd::std_specs::convert::FromSpecImpl<IoFailure> for ErrorKind {
    open spec fn obeys_from_spec() -> bool {
        true
    }

    open spec fn from_spec(value: IoFailure) -> ErrorKind {
        ErrorKind::Io(io_error_of(value))
    }
}

/// Whether `e` reports the message `m` for stream `id`.
pub open spec fn stream_fault(e: ErrorKind, id: StreamId, m: Seq<char>) -> bool {
    e matches ErrorKind::Stream { id: at, error } && at == id && error.0@ == m
}

/// Opaque error originating from a connection.
#[derive(Debug)]
pub struct RammuxError(pub ErrorKind);

impl RammuxError {
    /// Returns whether this error originates from misuse of this crate.
    pub fn is_user(&self) -> (r: bool)
        ensures
            r == (self.0 is AlreadyDowngraded || self.0 is Poisoned),
    {
        matches!(&self.0, ErrorKind::AlreadyDowngraded | ErrorKind::Poisoned)
    }

    /// Returns whether this error originates from an I/O failure in the
    /// supplied transport.
    pub fn is_io(&self) -> (r: bool)
        ensures
            r == self.0 is Io,
    {
        matches!(&self.0, ErrorKind::Io(..))
    }

    /// If this error originates from an I/O failure in the supplied transport,
    /// returns a reference to the source error.
    pub fn as_io(&self) -> (r: Option<&std::io::Error>)
        ensures
            match self.0 {
                ErrorKind::Io(error) => r == Some(&error),
                _ => r is None,
            },
    {
        if let ErrorKind::Io(error) = &self.0 {
            Some(error)
        } else {
            None
        }
    }

    /// If this error originates from an I/O failure in the supplied transport,
    /// returns the source error.
    pub fn into_io(self) -> (r: Result<std::io::Error, Self>)
        ensures
            match self.0 {
                ErrorKind::Io(error) => r == Ok::<std::io::Error, Self>(error),
                _ => r == Err::<std::io::Error, Self>(self),
            },
    {
        match self.0 {
            ErrorKind::Io(error) => Ok(error),
            other => Err(RammuxError(other)),
        }
    }

    /// Returns whether this error originates from a protocol violation by the
    /// other side of the connection.
    pub fn is_protocol_violation(&self) -> (r: bool)
        ensures
            r == (self.0 is Decode || self.0 is UnexpectedPing || self.0 is Stream
                || self.0 is Probe || self.0 is Transit),
    {
        match &self.0 {
            ErrorKind::Decode(..)
            | ErrorKind::UnexpectedPing(..)
            | ErrorKind::Stream { .. }
            | ErrorKind::Probe(..)
            | ErrorKind::Transit(..) => true,
            _ => false,
        }
    }

    /// Returns whether this error originates from a ping timeout.
    pub fn is_ping_timeout(&self) -> (r: bool)
        ensures
            r == (self.0 is PingTimeout || self.0 is PingSendTimeout
                || self.0 is PingResponseTimeout),
    {
        match &self.0 {
            ErrorKind::PingTimeout { .. }
            | ErrorKind::PingSendTimeout { .. }
            | ErrorKind::PingResponseTimeout { .. } => true,
            _ => false,
        }
    }
}

/// Every error is of exactly one sort: misuse, I/O failure, protocol violation
/// or ping timeout.
pub proof fn errors_are_of_one_sort(e: ErrorKind)
    ensures
        ({
            let user = e is AlreadyDowngraded || e is Poisoned;
            let violation = e is Decode || e is UnexpectedPing || e is Stream || e is Probe
                || e is Transit;
            let timeout = e is PingTimeout || e is PingSendTimeout || e is PingResponseTimeout;
            &&& user || e is Io || violation || timeout
            &&& !(user && e is Io) && !(user && violation) && !(user && timeout)
            &&& !(e is Io && violation) && !(e is Io && timeout) && !(violation && timeout)
        }),
{
}

/// What an error says of itself is what it is: misuse where the connection is over,
/// a failure of I/O which can be taken out, a violation where the peer is at fault,
/// and a timeout where a ping is. It is exactly one of them.
pub proof fn errors_say_what_they_are(
    e: RammuxError,
    user: bool,
    io: bool,
    source: Option<&std::io::Error>,
    taken: Result<std::io::Error, RammuxError>,
    violation: bool,
    timeout: bool,
)
    requires
        call_ensures(RammuxError::is_user, (&e,), user),
        call_ensures(RammuxError::is_io, (&e,), io),
        call_ensures(RammuxError::as_io, (&e,), source),
        call_ensures(RammuxError::into_io, (e,), taken),
        call_ensures(RammuxError::is_protocol_violation, (&e,), violation),
        call_ensures(RammuxError::is_ping_timeout, (&e,), timeout),
    ensures
        match e.0 {
            ErrorKind::Io(error) => io && source == Some(&error) && taken == Ok::<
                std::io::Error,
                RammuxError,
            >(error),
            _ => !io && source is None && taken == Err::<std::io::Error, RammuxError>(e),
        },
        match e.0 {
            ErrorKind::Io(_) => io && !user && !violation && !timeout,
            ErrorKind::Decode(_) => violation && !user && !io && !timeout,
            ErrorKind::Stream { .. } => violation && !user && !io && !timeout,
            ErrorKind::UnexpectedPing(_) => violation && !user && !io && !timeout,
            ErrorKind::Probe(_) => violation && !user && !io && !timeout,
            ErrorKind::Transit(_) => violation && !user && !io && !timeout,
            ErrorKind::PingTimeout { .. } => timeout && !user && !io && !violation,
            ErrorKind::PingSendTimeout { .. } => timeout && !user && !io && !violation,
            ErrorKind::PingResponseTimeout { .. } => timeout && !user && !io && !violation,
            ErrorKind::AlreadyDowngraded => user && !io && !violation && !timeout,
            ErrorKind::Poisoned => user && !io && !violation && !timeout,
        },
{
}

} // verus!
