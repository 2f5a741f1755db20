//! The connection itself: framing, the sender's credit, and what happens between
//! application calls.
//!
//! Nothing here touches a transport. A driver hands in what it read and the
//! instant it read it, and carries away what is staged.
//!
//! # Never stop reading the transport
//!
//! A driver that bounded memory by refusing to read would also refuse the
//! `WINDOW_UPDATE` that unblocks it. Memory is bounded by withholding the *grant*
//! instead.
//!
//! # Half-close
//!
//! Control frames share the write direction with payload, so an end that has
//! shut its write side down can neither return credit nor take part in a probe.
//! Shutting down therefore ends this end's part in the protocol: nothing more
//! goes on the wire, a probe is never started, and a peer that keeps sending can
//! only spend the credit it already holds. The peer, on seeing the end of stream,
//! drops out of any exchange it was in and starts no more of its own. Reading
//! past a local shutdown works as it does on a socket.

use bytes::BytesMut;
use vstd::prelude::*;

use super::frame::{
    decoded, Frame, TransitError, HEADER_LEN, MAX_PAYLOAD, TIMESTAMP_LEN,
};
use super::probe::{Finished, Probe, Role, State};
use super::rate::RateSample;
use super::window::{Sizing, Steering, Window, WindowView};
use crate::bytes_ext::{buffer_limit, bytes_mut_advance, bytes_mut_as_slice, held};
use crate::codec::encoder::joined;
use crate::poll::Poll;
use crate::stream_id::{be32, be32_bytes, u32_from_be_bytes};
use crate::time::{saturated, span, TimeSpan, Timestamp};

verus! {

/// How much encoded output may queue before writes go pending: two of the
/// largest payloads.
///
/// The window already bounds what may be staged; the cap only keeps a transport
/// that has stopped taking bytes from letting it fill with a whole window in one
/// go.
pub const OUT_HIGH_WATER: usize = 131_072;

/// How long a stall stays worth reporting, in nanoseconds.
///
/// A sender that has not hit its window in the last second is not window limited
/// now, whatever it was earlier, and telling the peer otherwise buys a growth
/// step nobody will use.
pub const STALL_REPORT_WINDOW: u128 = 1_000_000_000;

/// Everything a connection needs to be configured with.
#[derive(Clone, Copy, Debug, PartialEq, Eq, Structural)]
pub struct Config {
    /// The bounds the window is sized within.
    pub sizing: Sizing,
    /// Which end schedules the probe. Exactly one end must be the
    /// [`Role::Initiator`].
    pub role: Role,
}

/// The tuned configuration, for a connection in this role.
pub open spec fn tuned(role: Role) -> Config {
    Config {
        sizing: Sizing {
            initial: 131_072,
            max: 16_777_216,
            re_grant: 65_536,
            re_grants_per_rtt: 32,
            delay_filter: 4,
        },
        role,
    }
}

impl Config {
    /// The tuned configuration, for a connection in this role.
    ///
    /// Every field is public, so this is also the starting point for a modified
    /// one.
    pub fn new(role: Role) -> (r: Self)
        ensures
            r == tuned(role),
    {
        Config { sizing: Sizing::default(), role }
    }

    /// Whether anything here uses the clean round trip, and so justifies the
    /// paused output a probe costs.
    ///
    /// The delay rule always does: its target is a fraction of the round trip,
    /// its control interval is one, and the probe's drain is what keeps its delay
    /// base honest.
    fn wants_rtt(&self) -> (r: bool)
        ensures
            r,
    {
        true
    }
}

impl From<Role> for Config {
    fn from(role: Role) -> (r: Self) {
        Config::new(role)
    }
}

impl vstd::std_specs::convert::FromSpecImpl<Role> for Config {
    open spec fn obeys_from_spec() -> bool {
        true
    }

    open spec fn from_spec(role: Role) -> Self {
        tuned(role)
    }
}

/// What a connection will say about itself, for logging and diagnosis.
#[derive(Clone, Copy, Debug, PartialEq, Eq, Structural)]
pub struct Stats {
    /// The window we currently grant the peer.
    pub window: u32,
    /// What is left of the window the peer granted us.
    pub credit: u64,
    /// The last round trip measured over a drained link, once one has been.
    pub clean_rtt: Option<TimeSpan>,
    /// Probe exchanges completed.
    pub probes: u64,
    /// Probe exchanges given up on. Anything but zero says the peer is not
    /// answering, and the round trip being sized from is going stale.
    pub probe_timeouts: u64,
    /// The gap the probe schedule chose after its last exchange.
    pub probe_interval: TimeSpan,
    /// How many times the sender ran out of credit with data to write.
    pub stalls: u64,
    /// Queuing delay the delay rule last acted on.
    pub queued: Option<TimeSpan>,
    /// The size that rule is steering towards.
    pub desired: u32,
}

/// The sender's half: credit the peer granted, and whether we ran out of it.
#[derive(Clone, Copy, Debug, PartialEq, Eq, Structural)]
pub struct Credit {
    /// Payload bytes we may still put in flight.
    pub available: u64,
    /// Whether we are out of credit right now, so one stall is counted once
    /// however many times the application retries.
    pub starved: bool,
    /// When the stall the peer has not been told about yet began, if any.
    ///
    /// Separate from `starved` because the window update that ends a stall
    /// arrives *before* the next frame is written.
    pub unreported: Option<Timestamp>,
    /// Stalls so far.
    pub stalls: u64,
}

impl Credit {
    /// The credit once the peer has granted more.
    pub open spec fn replenished(self, granted: u32) -> Self {
        Credit { available: saturated(self.available + granted), starved: false, ..self }
    }

    /// The credit once the application has found nothing to spend at `now`.
    pub open spec fn held_up(self, now: Timestamp) -> Self {
        if self.available == 0 && !self.starved {
            Credit {
                starved: true,
                unreported: Some(now),
                stalls: saturated(self.stalls + 1),
                ..self
            }
        } else {
            self
        }
    }

    /// Whether a frame written at `now` tells the peer of a stall.
    pub open spec fn reports(self, now: Timestamp) -> bool {
        self.unreported matches Some(since) && span(since, now).nanos < STALL_REPORT_WINDOW
    }

    /// The credit once a frame of `len` bytes has been written.
    pub open spec fn spent(self, len: int) -> Self {
        Credit { available: (self.available - len) as u64, unreported: None, ..self }
    }
}

/// Sender timestamps back into a monotonic clock.
///
/// They are 32 bits of microseconds on the wire and wrap every 71 minutes.
/// Frames arrive in order and the sender's clock is monotonic, so a timestamp
/// below the previous one can only be a wrap.
#[derive(Clone, Copy, Debug, PartialEq, Eq, Structural)]
pub struct SenderClock {
    /// The last timestamp.
    pub last: u32,
    /// How often the timestamps have wrapped.
    pub laps: u32,
}

/// The most laps that are counted; as many as an `i64` of microseconds can hold.
pub const MAX_LAPS: u32 = 0x7fff_ffff;

impl SenderClock {
    /// The clock once `stamp` has been read.
    pub open spec fn read(self, stamp: u32) -> Self {
        SenderClock {
            last: stamp,
            laps: if stamp < self.last && self.laps < MAX_LAPS {
                (self.laps + 1) as u32
            } else {
                self.laps
            },
        }
    }

    /// What the clock shows: whole laps, and the last timestamp.
    pub open spec fn shows(self) -> int {
        self.last + self.laps * 0x1_0000_0000
    }

    /// Laps are counted no further than they can be shown.
    pub open spec fn valid(self) -> bool {
        self.laps <= MAX_LAPS
    }

    /// Reads a timestamp.
    pub fn unwrap(&mut self, stamp: u32) -> (r: i64)
        requires
            old(self).valid(),
        ensures
            final(self).valid(),
            *final(self) == old(self).read(stamp),
            r == final(self).shows(),
    {
        if stamp < self.last && self.laps < MAX_LAPS {
            self.laps = self.laps + 1;
        }
        self.last = stamp;
        stamp as i64 + self.laps as i64 * 0x1_0000_0000
    }
}

impl Default for SenderClock {
    fn default() -> (r: Self)
        ensures
            r == (SenderClock { last: 0, laps: 0 }),
            r.valid(),
    {
        SenderClock { last: 0, laps: 0 }
    }
}

/// Where the inbound parser is.
#[derive(Clone, Copy, Debug, PartialEq, Eq, Structural)]
pub enum Parse {
    /// Between frames.
    Header,
    /// After a `DATA` header, waiting for the sender timestamp that follows it.
    /// Carries the payload length the timestamp belongs to.
    Timestamp(u32),
    /// Inside a `DATA` frame with this many payload bytes to go.
    Payload(u32),
}

/// A [`Transit`] as a mathematical value.
#[verifier::ext_equal]
pub ghost struct TransitView {
    /// Encoded frames waiting for the transport.
    pub out: Seq<u8>,
    /// The sender's half.
    pub credit: Credit,
    /// Read from the transport, not yet parsed.
    pub raw: Seq<u8>,
    /// Parsed payload waiting for the application.
    pub payload: Seq<u8>,
    /// Where the parser is.
    pub parse: Parse,
    /// Whether the peer's stream has ended.
    pub eof: bool,
    /// The window we grant.
    pub window: WindowView,
    /// Our part in the probe.
    pub probe: Probe,
    /// Whether our write side is shut down.
    pub shut_down: bool,
    /// Our clock's origin, which every timestamp we send counts from.
    pub started: Timestamp,
    /// The peer's clock.
    pub clock: SenderClock,
}

/// What one step of the parser comes to.
pub ghost enum Step {
    /// More bytes are needed.
    Wait,
    /// The connection has failed.
    Fail(TransitView, TransitError),
    /// Something was parsed.
    Go(TransitView),
}

/// The timestamp a frame written at `now` carries: microseconds since
/// `started`, as far as 32 bits hold them.
pub open spec fn stamp_at(started: Timestamp, now: Timestamp) -> u32 {
    (span(started, now).nanos / 1_000 % 0x1_0000_0000) as u32
}

/// The `DATA` frame that carries `payload` on the wire.
pub open spec fn data_wire(starved: bool, stamp: u32, payload: Seq<u8>) -> Seq<u8> {
    (Frame::Data { len: payload.len() as u32, starved }).wire() + be32_bytes(stamp as int)
        + payload
}

/// Where the parser is with `left` payload bytes to go.
pub open spec fn after_payload(left: int) -> Parse {
    if left == 0 {
        Parse::Header
    } else {
        Parse::Payload(left as u32)
    }
}

impl TransitView {
    /// What has been parsed and what has not fit the buffers.
    pub open spec fn roomy(self) -> bool {
        &&& self.out.len() + self.raw.len() <= buffer_limit()
        &&& self.payload.len() + self.raw.len() <= buffer_limit()
    }

    /// A connection that starts at `now`: the window is announced rather than
    /// assumed.
    pub open spec fn opened(config: Config, now: Timestamp) -> Self {
        TransitView {
            out: Frame::WindowUpdate(config.sizing.initial).wire(),
            credit: Credit { available: 0, starved: false, unreported: None, stalls: 0 },
            raw: Seq::empty(),
            payload: Seq::empty(),
            parse: Parse::Header,
            eof: false,
            window: WindowView::opened(config.sizing, now),
            probe: Probe {
                state: State::Idle,
                seq: 0,
                timer: now,
                paused_since: now,
                interval: TimeSpan { nanos: 0 },
                unspaced: None,
                role: config.role,
                wanted: true,
                clean_rtt: None,
                completed: 0,
                abandoned: 0,
            },
            shut_down: false,
            started: now,
            clock: SenderClock { last: 0, laps: 0 },
        }
    }

    /// The connection with a frame staged.
    pub open spec fn staging(self, frame: Option<Frame>) -> Self {
        TransitView {
            out: match frame {
                Some(frame) => self.out + frame.wire(),
                None => self.out,
            },
            ..self
        }
    }

    /// Whether a control frame fails the connection.
    pub open spec fn refuses(self, frame: Frame) -> bool {
        !(frame is WindowUpdate) && self.probe.refuses(frame)
    }

    /// The connection after an acceptable control frame at `now`.
    pub open spec fn controlled(self, frame: Frame, now: Timestamp) -> Self {
        match frame {
            Frame::WindowUpdate(granted) => TransitView {
                credit: self.credit.replenished(granted),
                ..self
            },
            _ => {
                let outcome = self.probe.outcome_of(frame, now);
                TransitView {
                    probe: self.probe.received(frame, now),
                    window: if outcome.finished {
                        self.window.probe_ended(now)
                    } else {
                        self.window
                    },
                    ..self
                }.staging(outcome.reply)
            },
        }
    }

    /// The connection after a sender timestamp at `now`: the offset between the
    /// two clocks is unknown and lands in every sample identically.
    pub open spec fn stamped(self, stamp: u32, now: Timestamp) -> Self {
        let clock = self.clock.read(stamp);
        TransitView {
            clock,
            window: self.window.delayed(
                (span(self.started, now).nanos / 1_000 - clock.shows()) as i64,
                now,
            ),
            ..self
        }
    }

    /// One step of the parser at `now`.
    pub open spec fn step(self, now: Timestamp) -> Step {
        match self.parse {
            Parse::Header => if self.raw.len() < HEADER_LEN {
                Step::Wait
            } else {
                match decoded(self.raw.take(HEADER_LEN as int)) {
                    Err(error) => Step::Fail(self, error),
                    Ok(frame) => {
                        let rest = TransitView { raw: self.raw.skip(HEADER_LEN as int), ..self };
                        match frame {
                            Frame::Data { len, starved } => Step::Go(
                                TransitView {
                                    window: WindowView {
                                        peer_starved: starved || self.window.peer_starved,
                                        ..self.window
                                    },
                                    parse: Parse::Timestamp(len),
                                    ..rest
                                },
                            ),
                            _ => if self.refuses(frame) {
                                Step::Fail(rest, TransitError::TwoInitiators)
                            } else {
                                Step::Go(rest.controlled(frame, now))
                            },
                        }
                    },
                }
            },
            Parse::Timestamp(len) => if self.raw.len() < TIMESTAMP_LEN {
                Step::Wait
            } else {
                Step::Go(
                    TransitView {
                        raw: self.raw.skip(TIMESTAMP_LEN as int),
                        parse: Parse::Payload(len),
                        ..self
                    }.stamped(be32(self.raw.take(TIMESTAMP_LEN as int)) as u32, now),
                )
            },
            Parse::Payload(remaining) => if remaining == 0 {
                Step::Go(TransitView { parse: Parse::Header, ..self })
            } else if self.raw.len() == 0 {
                Step::Wait
            } else {
                let take = if remaining < self.raw.len() {
                    remaining as int
                } else {
                    self.raw.len() as int
                };
                let taken = TransitView {
                    payload: self.payload + self.raw.take(take),
                    raw: self.raw.skip(take),
                    window: self.window.paid(take as u32, self.probe.clean_rtt, now),
                    ..self
                };
                if taken.window.overdrawn() {
                    Step::Fail(taken, TransitError::Overdrawn)
                } else {
                    Step::Go(TransitView { parse: after_payload(remaining - take), ..taken })
                }
            },
        }
    }

    /// The connection once everything that can be parsed at `now` has been.
    pub open spec fn parsed(self, now: Timestamp) -> (TransitView, Result<(), TransitError>)
        decreases
                self.raw.len(),
                if self.parse == Parse::Payload(0) {
                    1int
                } else {
                    0
                },
    {
        match self.step(now) {
            Step::Wait => (self, Ok(())),
            Step::Fail(failed, error) => (failed, Err(error)),
            Step::Go(next) => next.parsed(now),
        }
    }

    /// The connection with more bytes read from the transport.
    pub open spec fn fed(self, bytes: Seq<u8>) -> Self {
        TransitView { raw: self.raw + bytes, ..self }
    }

    /// The connection once its peer's stream has ended: the peer will neither
    /// finish an exchange it is part of nor answer one we start.
    pub open spec fn ended(self) -> Self {
        TransitView {
            eof: true,
            probe: Probe { state: State::Idle, wanted: false, ..self.probe },
            ..self
        }
    }

    /// The connection once its clock has been advanced to `now`: a probe is
    /// started if one is due, and the signals that steer the window are read.
    /// After a shutdown nothing more goes on the wire.
    pub open spec fn serviced(self, now: Timestamp) -> Self {
        if self.shut_down {
            TransitView { out: Seq::empty(), ..self }
        } else {
            TransitView {
                probe: self.probe.advanced(now),
                window: self.window.steered(self.probe.clean_rtt, now),
                ..self
            }.staging(self.probe.opens(now))
        }
    }

    /// What the control law acts on at `now`, if it runs.
    pub open spec fn steering(self, now: Timestamp) -> Option<Steering> {
        if self.shut_down {
            None
        } else {
            self.window.steering(self.probe.clean_rtt, now)
        }
    }

    /// Whether credit is returned.
    pub open spec fn grants(self, paced: Option<u32>) -> bool {
        !self.shut_down && self.window.grants(
            self.payload.len() as int,
            self.probe.clean_rtt,
            paced,
        )
    }

    /// The connection once freed credit has been returned, if it is due.
    pub open spec fn granting(self, paced: Option<u32>) -> Self {
        if self.grants(paced) {
            TransitView { window: self.window.regranted(), ..self }.staging(
                if self.window.update() > 0 {
                    Some(Frame::WindowUpdate(self.window.update() as u32))
                } else {
                    None
                },
            )
        } else {
            self
        }
    }

    /// Whether nothing may be written: a probe has paused the output, there is
    /// no credit, or enough is staged already.
    pub open spec fn blocked(self) -> bool {
        self.probe.pausing() || self.credit.available == 0 || self.out.len() >= OUT_HIGH_WATER
    }

    /// How much of `wanted` bytes the next `DATA` frame carries.
    pub open spec fn frame_len(self, wanted: int) -> int {
        if wanted <= MAX_PAYLOAD && wanted <= self.credit.available {
            wanted
        } else if self.credit.available < MAX_PAYLOAD {
            self.credit.available as int
        } else {
            MAX_PAYLOAD as int
        }
    }

    /// The connection once the application has tried to write at `now` and may
    /// not.
    pub open spec fn held_up(self, now: Timestamp) -> Self {
        TransitView { credit: self.credit.held_up(now), ..self }
    }

    /// The connection once a frame carrying `payload` has been staged at `now`.
    pub open spec fn staged(self, payload: Seq<u8>, now: Timestamp) -> Self {
        TransitView {
            out: self.out + data_wire(
                self.credit.reports(now),
                stamp_at(self.started, now),
                payload,
            ),
            credit: self.credit.spent(payload.len() as int),
            ..self
        }
    }

    /// The connection once the application has tried to write `bytes` at `now`.
    pub open spec fn writing(self, bytes: Seq<u8>, now: Timestamp) -> Self {
        if bytes.len() == 0 {
            self
        } else if self.blocked() {
            self.held_up(now)
        } else {
            self.staged(bytes.take(self.frame_len(bytes.len() as int)), now)
        }
    }

    /// How many of `wanted` bytes a write takes, if it may go.
    pub open spec fn write_result(self, wanted: int) -> Option<int> {
        if wanted == 0 {
            Some(0)
        } else if self.blocked() {
            None
        } else {
            Some(self.frame_len(wanted))
        }
    }
}

/// A transit window over some byte transport.
///
/// Payload passes through transparently: the framing, the credit accounting and
/// the probe are not visible in what the application reads and writes.
#[derive(Debug)]
pub struct Transit {
    out: BytesMut,
    credit: Credit,
    in_raw: BytesMut,
    in_payload: BytesMut,
    parse: Parse,
    eof: bool,
    window: Window,
    probe: Probe,
    shut_down: bool,
    started: Timestamp,
    peer_clock: SenderClock,
}

impl View for Transit {
    type V = TransitView;

    closed spec fn view(&self) -> TransitView {
        TransitView {
            out: held(self.out),
            credit: self.credit,
            raw: held(self.in_raw),
            payload: held(self.in_payload),
            parse: self.parse,
            eof: self.eof,
            window: self.window@,
            probe: self.probe,
            shut_down: self.shut_down,
            started: self.started,
            clock: self.peer_clock,
        }
    }
}

impl Transit {
    /// The window is sound, and so is the peer's clock.
    pub closed spec fn wf(self) -> bool {
        self.window.wf() && self.peer_clock.valid()
    }

    /// Starts a connection, granting the peer the initial window.
    ///
    /// The window is announced rather than assumed, so the two ends may be
    /// configured independently - only [`Config::role`] has to agree.
    pub fn new(config: Config, now: Timestamp) -> (r: Self)
        ensures
            r.wf(),
            r@ == TransitView::opened(config, now),
            r@.roomy(),
    {
        let mut out = BytesMut::new();
        Frame::WindowUpdate(config.sizing.initial).encode(&mut out);
        let r = Transit {
            out,
            credit: Credit { available: 0, starved: false, unreported: None, stalls: 0 },
            in_raw: BytesMut::new(),
            in_payload: BytesMut::new(),
            parse: Parse::Header,
            eof: false,
            window: Window::new(config.sizing, now),
            probe: Probe::new(config.role, config.wants_rtt(), now),
            shut_down: false,
            started: now,
            peer_clock: SenderClock::default(),
        };
        assert(r@.out =~= Frame::WindowUpdate(config.sizing.initial).wire());
        r
    }

    /// What the connection can say about itself right now.
    pub fn stats(&self) -> (r: Stats)
        ensures
            r == (Stats {
                window: self@.window.granted,
                credit: self@.credit.available,
                clean_rtt: self@.probe.clean_rtt,
                probes: self@.probe.completed,
                probe_timeouts: self@.probe.abandoned,
                probe_interval: self@.probe.interval,
                stalls: self@.credit.stalls,
                queued: self@.window.queued,
                desired: self@.window.desired,
            }),
    {
        Stats {
            window: self.window.granted(),
            credit: self.credit.available,
            clean_rtt: self.probe.clean_rtt(),
            probes: self.probe.completed(),
            probe_timeouts: self.probe.abandoned(),
            probe_interval: self.probe.interval(),
            stalls: self.credit.stalls,
            queued: self.window.queued(),
            desired: self.window.desired(),
        }
    }

    /// Whether `more` bytes can be taken in at once.
    ///
    /// Only the address space is ever in the way.
    pub fn has_room(&self, more: usize) -> (r: bool)
        ensures
            r == (self@.out.len() + self@.raw.len() + more <= buffer_limit()
                && self@.payload.len() + self@.raw.len() + more <= buffer_limit()),
    {
        let limit: usize = isize::MAX as usize / 4;
        let raw: usize = self.in_raw.len();
        let busiest: usize = if self.out.len() > self.in_payload.len() {
            self.out.len()
        } else {
            self.in_payload.len()
        };
        busiest <= limit && raw <= limit - busiest && more <= limit - busiest - raw
    }

    /// Handles a frame that is not `DATA`.
    fn on_control(&mut self, frame: Frame, now: Timestamp) -> (r: Result<(), TransitError>)
        requires
            old(self).wf(),
            !(frame is Data),
            old(self)@.out.len() + HEADER_LEN <= buffer_limit(),
        ensures
            final(self).wf(),
            old(self)@.refuses(frame) ==> r == Err::<(), TransitError>(TransitError::TwoInitiators)
                && final(self)@ == old(self)@,
            !old(self)@.refuses(frame) ==> r == Ok::<(), TransitError>(()) && final(self)@ == old(self)@.controlled(frame, now),
    {
        match frame {
            Frame::WindowUpdate(granted) => {
                self.credit.available = self.credit.available.saturating_add(granted as u64);
                self.credit.starved = false;
            },
            _ => {
                let outcome = match self.probe.on_frame(frame, now) {
                    Ok(outcome) => outcome,
                    Err(error) => return Err(error),
                };
                match outcome.reply {
                    Some(reply) => reply.encode(&mut self.out),
                    None => {},
                }
                if outcome.finished {
                    self.window.on_probe_end(now);
                }
            },
        }
        Ok(())
    }

    /// Folds an arriving frame's one-way delay into the queue estimate.
    ///
    /// The offset between the two clocks is unknown and lands in every sample
    /// identically, so it cancels when the delay's base is subtracted. Nothing
    /// here needs the clocks to agree.
    fn on_timestamp(&mut self, sent: u32, now: Timestamp)
        requires
            old(self).wf(),
        ensures
            final(self).wf(),
            final(self)@ == old(self)@.stamped(sent, now),
    {
        let sent: i64 = self.peer_clock.unwrap(sent);
        let arrived: u128 = now.since(self.started).as_micros();
        let owd: i64 = #[verifier::truncate] ((arrived as i128 - sent as i128) as i64);
        self.window.on_delay(owd, now);
    }

    /// Parses one thing: a header, a timestamp, or what there is of a payload.
    fn parse_step(&mut self, now: Timestamp) -> (r: Result<bool, TransitError>)
        requires
            old(self).wf(),
            old(self)@.roomy(),
        ensures
            final(self).wf(),
            final(self)@.roomy(),
            match old(self)@.step(now) {
                Step::Wait => r == Ok::<bool, TransitError>(false) && final(self)@ == old(self)@,
                Step::Fail(failed, error) => r == Err::<bool, TransitError>(error) && final(self)@
                    == failed,
                Step::Go(next) => r == Ok::<bool, TransitError>(true) && final(self)@ == next,
            },
    {
        match self.parse {
            Parse::Header => {
                if self.in_raw.len() < HEADER_LEN {
                    return Ok(false);
                }
                let raw = bytes_mut_as_slice(&self.in_raw);
                let header = vstd::slice::slice_subrange(raw, 0, HEADER_LEN);
                assert(header@ =~= self@.raw.take(HEADER_LEN as int));
                let frame = match Frame::decode(header) {
                    Ok(frame) => frame,
                    Err(error) => return Err(error),
                };
                bytes_mut_advance(&mut self.in_raw, HEADER_LEN);
                match frame {
                    Frame::Data { len, starved } => {
                        if starved {
                            self.window.note_peer_starved();
                        }
                        self.parse = Parse::Timestamp(len);
                    },
                    control => {
                        match self.on_control(control, now) {
                            Ok(()) => {},
                            Err(error) => return Err(error),
                        }
                    },
                }
            },
            Parse::Timestamp(len) => {
                if self.in_raw.len() < TIMESTAMP_LEN {
                    return Ok(false);
                }
                let raw = bytes_mut_as_slice(&self.in_raw);
                let sent: u32 = u32_from_be_bytes([raw[0], raw[1], raw[2], raw[3]]);
                bytes_mut_advance(&mut self.in_raw, TIMESTAMP_LEN);
                self.on_timestamp(sent, now);
                self.parse = Parse::Payload(len);
            },
            Parse::Payload(remaining) => {
                // A zero-length frame is legal - it is a timestamp with nothing
                // attached - and has to move on without waiting for bytes that
                // are not coming.
                if remaining == 0 {
                    self.parse = Parse::Header;
                    return Ok(true);
                }
                if self.in_raw.is_empty() {
                    return Ok(false);
                }
                let wanted: usize = crate::safe_cast_usize(remaining);
                let take: usize = if wanted < self.in_raw.len() {
                    wanted
                } else {
                    self.in_raw.len()
                };
                let raw = bytes_mut_as_slice(&self.in_raw);
                let piece = vstd::slice::slice_subrange(raw, 0, take);
                assert(piece@ =~= self@.raw.take(take as int));
                self.in_payload.extend_from_slice(piece);
                bytes_mut_advance(&mut self.in_raw, take);
                self.window.on_payload(take as u32, self.probe.clean_rtt(), now);
                // The window is the only thing bounding memory on this side, and
                // a peer that ignores it is not applying backpressure to itself
                // either.
                if self.window.overdrawn() {
                    return Err(TransitError::Overdrawn);
                }
                let left: u32 = remaining - take as u32;
                self.parse = if left == 0 {
                    Parse::Header
                } else {
                    Parse::Payload(left)
                };
            },
        }
        Ok(true)
    }

    /// Turns whatever has been read into payload and control handling.
    fn parse(&mut self, now: Timestamp) -> (r: Result<(), TransitError>)
        requires
            old(self).wf(),
            old(self)@.roomy(),
        ensures
            final(self).wf(),
            final(self)@.roomy(),
            (final(self)@, r) == old(self)@.parsed(now),
    {
        loop
            invariant
                self.wf(),
                self@.roomy(),
                self@.parsed(now) == old(self)@.parsed(now),
            decreases
                    self@.raw.len(),
                    if self@.parse == Parse::Payload(0) {
                        1int
                    } else {
                        0
                    },
        {
            match self.parse_step(now) {
                Ok(true) => {},
                Ok(false) => return Ok(()),
                Err(error) => return Err(error),
            }
        }
    }

    /// Takes in bytes read from the transport at `now`, and parses.
    pub fn receive(&mut self, bytes: &[u8], now: Timestamp) -> (r: Result<(), TransitError>)
        requires
            old(self).wf(),
            old(self)@.fed(bytes@).roomy(),
        ensures
            final(self).wf(),
            final(self)@.roomy(),
            (final(self)@, r) == old(self)@.fed(bytes@).parsed(now),
    {
        self.in_raw.extend_from_slice(bytes);
        self.parse(now)
    }

    /// Records that the peer's stream has ended.
    pub fn receive_end(&mut self)
        requires
            old(self).wf(),
        ensures
            final(self).wf(),
            final(self)@ == old(self)@.ended(),
    {
        self.eof = true;
        self.probe.stop();
    }

    /// Whether the peer's stream has ended.
    pub fn is_ended(&self) -> (r: bool)
        ensures
            r == self@.eof,
    {
        self.eof
    }

    /// Advances the clock: starts a probe if one is due, and reads the signals
    /// that steer the window.
    ///
    /// After a shutdown a reply the parser staged is dropped rather than failing
    /// the read that produced it, and no probe is started, since its frames could
    /// not be sent either.
    pub fn service(&mut self, now: Timestamp) -> (r: Option<Steering>)
        requires
            old(self).wf(),
            old(self)@.out.len() + HEADER_LEN <= buffer_limit(),
        ensures
            final(self).wf(),
            final(self)@ == old(self)@.serviced(now),
            r == old(self)@.steering(now),
    {
        if self.shut_down {
            self.out.clear();
            return None;
        }
        match self.probe.poll(now) {
            Some(frame) => frame.encode(&mut self.out),
            None => {},
        }
        self.window.steer(self.probe.clean_rtt(), now)
    }

    /// Sets the size the window is steered towards to what the delay rule's
    /// formula gave, growing only for a peer that asked for it.
    pub fn steer_towards(&mut self, scaled: u32, starved: bool)
        requires
            old(self).wf(),
        ensures
            final(self).wf(),
            final(self)@ == (TransitView {
                window: WindowView {
                    desired: old(self)@.window.aim(scaled, starved),
                    ..old(self)@.window
                },
                ..old(self)@
            }),
    {
        self.window.resize_towards(scaled, starved);
    }

    /// Returns freed credit to the peer, if enough of it has gathered. `paced` is
    /// what the arrival rate carries in one of the re-grants of a round trip,
    /// once a rate is known.
    pub fn return_credit(&mut self, paced: Option<u32>)
        requires
            old(self).wf(),
            old(self)@.out.len() + HEADER_LEN <= buffer_limit(),
        ensures
            final(self).wf(),
            final(self)@ == old(self)@.granting(paced),
    {
        if self.shut_down {
            return;
        }
        match self.window.take_grant(self.in_payload.len(), self.probe.clean_rtt(), paced) {
            Some(granted) => Frame::WindowUpdate(granted).encode(&mut self.out),
            None => {},
        }
    }

    /// How much of `wanted` bytes the next `DATA` frame may carry, or `Pending`
    /// while nothing may go.
    pub fn frame_room(&mut self, wanted: usize, now: Timestamp) -> (r: Poll<usize>)
        requires
            old(self).wf(),
        ensures
            final(self).wf(),
            match old(self)@.write_result(wanted as int) {
                Some(len) => r matches Poll::Ready(n) && n == len && final(self)@ == old(self)@,
                None => r is Pending && final(self)@ == old(self)@.held_up(now),
            },
    {
        if wanted == 0 {
            return Poll::Ready(0);
        }
        if self.probe.paused() || self.credit.available == 0 || self.out.len() >= OUT_HIGH_WATER {
            // Only a lack of credit is the window's doing; a paused probe and a
            // full staging buffer are this connection's own cost.
            if self.credit.available == 0 && !self.credit.starved {
                self.credit.starved = true;
                self.credit.unreported = Some(now);
                self.credit.stalls = self.credit.stalls.saturating_add(1);
            }
            return Poll::Pending;
        }
        let mut room: usize = wanted;
        if room > MAX_PAYLOAD as usize {
            room = MAX_PAYLOAD as usize;
        }
        if room as u64 > self.credit.available {
            room = self.credit.available as usize;
        }
        Poll::Ready(room)
    }

    /// Stages the header of a `DATA` frame carrying `len` payload bytes, which
    /// the caller appends next, and spends the credit for them.
    fn start_frame(&mut self, len: usize, now: Timestamp)
        requires
            old(self).wf(),
            len <= MAX_PAYLOAD,
            len <= old(self)@.credit.available,
            old(self)@.out.len() + HEADER_LEN + TIMESTAMP_LEN <= buffer_limit(),
        ensures
            final(self).wf(),
            final(self)@ == (TransitView {
                out: old(self)@.out + (Frame::Data {
                    len: len as u32,
                    starved: old(self)@.credit.reports(now),
                }).wire() + be32_bytes(stamp_at(old(self)@.started, now) as int),
                credit: old(self)@.credit.spent(len as int),
                ..old(self)@
            }),
    {
        let micros: u128 = now.since(self.started).as_micros();
        let stamp: u32 = (micros % 0x1_0000_0000) as u32;
        let starved = match self.credit.unreported {
            Some(since) => now.since(since).nanos < STALL_REPORT_WINDOW,
            None => false,
        };
        self.credit.unreported = None;
        Frame::encode_data(len as u32, starved, stamp, &mut self.out);
        self.credit.available = self.credit.available - len as u64;
    }

    /// Stages what may go of `bytes`, as one `DATA` frame.
    pub fn write(&mut self, bytes: &[u8], now: Timestamp) -> (r: Poll<usize>)
        requires
            old(self).wf(),
        ensures
            final(self).wf(),
            final(self)@ == old(self)@.writing(bytes@, now),
            match old(self)@.write_result(bytes@.len() as int) {
                Some(len) => r matches Poll::Ready(n) && n == len,
                None => r is Pending,
            },
    {
        let take: usize = match self.frame_room(bytes.len(), now) {
            Poll::Ready(take) => take,
            Poll::Pending => return Poll::Pending,
        };
        if take == 0 {
            return Poll::Ready(0);
        }
        self.start_frame(take, now);
        let piece = vstd::slice::slice_subrange(bytes, 0, take);
        self.out.extend_from_slice(piece);
        assert(piece@ =~= bytes@.take(take as int));
        assert(self@.out =~= old(self)@.staged(piece@, now).out);
        Poll::Ready(take)
    }

    /// Stages what may go of a batch of slices, as one `DATA` frame.
    ///
    /// A caller that writes a batch of small pieces - a multiplexer's frame
    /// headers and payloads, say - pays one header and one timestamp for the
    /// batch rather than one of each per piece.
    pub fn write_vectored(&mut self, bufs: &[&[u8]], now: Timestamp) -> (r: Poll<usize>)
        requires
            old(self).wf(),
            joined(bufs@).len() <= usize::MAX,
        ensures
            final(self).wf(),
            final(self)@ == old(self)@.writing(joined(bufs@), now),
            match old(self)@.write_result(joined(bufs@).len() as int) {
                Some(len) => r matches Poll::Ready(n) && n == len,
                None => r is Pending,
            },
    {
        let ghost all = joined(bufs@);
        let wanted: usize = total_of(bufs);
        let take: usize = match self.frame_room(wanted, now) {
            Poll::Ready(take) => take,
            Poll::Pending => return Poll::Pending,
        };
        if take == 0 {
            return Poll::Ready(0);
        }
        self.start_frame(take, now);
        let ghost staged = self@;
        let mut left: usize = take;
        let mut i: usize = 0;
        proof {
            assert(bufs@.skip(0) =~= bufs@);
            assert(all.take(0) =~= Seq::empty());
            assert(all.skip(0) =~= all);
            assert(staged.out + all.take(0) =~= staged.out);
        }
        while i < bufs.len() && left > 0
            invariant
                self.wf(),
                left <= take <= all.len(),
                i <= bufs@.len(),
                left == 0 || joined(bufs@.skip(i as int)) == all.skip(take - left),
                self@ == (TransitView { out: staged.out + all.take(take - left), ..staged }),
                staged.out.len() + take <= buffer_limit(),
            decreases bufs@.len() - i,
        {
            let buf = bufs[i];
            let n: usize = if buf.len() < left {
                buf.len()
            } else {
                left
            };
            let piece = vstd::slice::slice_subrange(buf, 0, n);
            let ghost rest = bufs@.skip(i as int);
            proof {
                assert(rest[0] == bufs@[i as int]);
                assert(rest.drop_first() =~= bufs@.skip(i + 1));
                assert(joined(rest) == buf@ + joined(rest.drop_first()));
                assert(piece@ =~= joined(rest).take(n as int));
                let done = take - left;
                assert(all.take(done) + all.skip(done).take(n as int) =~= all.take(done + n));
                assert(staged.out + all.take(done) + piece@ =~= staged.out + all.take(done + n));
                if n < left {
                    assert(joined(rest.drop_first()) =~= joined(rest).skip(n as int));
                    assert(all.skip(done).skip(n as int) =~= all.skip(done + n));
                }
            }
            self.out.extend_from_slice(piece);
            left = left - n;
            i = i + 1;
        }
        proof {
            if left > 0 {
                assert(bufs@.skip(i as int) =~= Seq::empty());
                assert(all.skip(take - left).len() == 0);
            }
            assert(self@.out =~= old(self)@.staged(all.take(take as int), now).out);
        }
        Poll::Ready(take)
    }

    /// Takes up to `room` bytes of payload for the application. Nothing, once the
    /// peer's stream has ended and everything has been read; `Pending` while more
    /// may come.
    pub fn read(&mut self, room: usize) -> (r: Poll<Vec<u8>>)
        requires
            old(self).wf(),
        ensures
            final(self).wf(),
            ({
                let payload = old(self)@.payload;
                let take = if room < payload.len() {
                    room as int
                } else {
                    payload.len() as int
                };
                &&& final(self)@ == (TransitView { payload: payload.skip(take), ..old(self)@ })
                &&& r is Pending <==> payload.len() == 0 && !old(self)@.eof
                &&& r matches Poll::Ready(bytes) ==> bytes@ == payload.take(take)
            }),
    {
        let ghost payload = self@.payload;
        assert(payload.skip(0) =~= payload);
        if self.in_payload.is_empty() {
            if self.eof {
                let none: Vec<u8> = Vec::new();
                assert(none@ =~= payload.take(0));
                return Poll::Ready(none);
            }
            return Poll::Pending;
        }
        let take: usize = if room < self.in_payload.len() {
            room
        } else {
            self.in_payload.len()
        };
        let waiting = bytes_mut_as_slice(&self.in_payload);
        let mut bytes: Vec<u8> = Vec::new();
        bytes.extend_from_slice(vstd::slice::slice_subrange(waiting, 0, take));
        assert(bytes@ =~= payload.take(take as int));
        bytes_mut_advance(&mut self.in_payload, take);
        Poll::Ready(bytes)
    }

    /// Encoded frames waiting for the transport.
    pub fn output(&self) -> (r: &[u8])
        ensures
            r@ == self@.out,
    {
        bytes_mut_as_slice(&self.out)
    }

    /// Records that the transport has taken the first `count` bytes of the
    /// output.
    pub fn written(&mut self, count: usize)
        requires
            old(self).wf(),
            count <= old(self)@.out.len(),
        ensures
            final(self).wf(),
            final(self)@ == (TransitView {
                out: old(self)@.out.skip(count as int),
                ..old(self)@
            }),
    {
        bytes_mut_advance(&mut self.out, count);
    }

    /// Ends this end's part in the protocol.
    pub fn shut_down(&mut self)
        requires
            old(self).wf(),
        ensures
            final(self).wf(),
            final(self)@ == (TransitView { shut_down: true, ..old(self)@ }),
    {
        self.shut_down = true;
    }

    /// The bounds and cadences the window is sized within.
    pub fn sizing(&self) -> (r: Sizing)
        ensures
            r == self@.window.sizing,
    {
        self.window.sizing()
    }

    /// Takes the buckets of arrivals that have closed since the last time.
    pub fn take_rate_samples(&mut self) -> (r: Vec<RateSample>)
        requires
            old(self).wf(),
        ensures
            final(self).wf(),
            r@ == old(self)@.window.rate_samples,
            final(self)@ == (TransitView {
                window: WindowView { rate_samples: Seq::empty(), ..old(self)@.window },
                ..old(self)@
            }),
    {
        self.window.take_rate_samples()
    }

    /// The exchange of the probe whose successor waits to be scheduled, if there
    /// is one.
    pub fn unspaced(&self) -> (r: Option<Finished>)
        ensures
            r == self@.probe.unspaced,
    {
        self.probe.unspaced()
    }

    /// Schedules the next exchange of the probe `gap` after the last one ended.
    pub fn space_probe(&mut self, gap: TimeSpan)
        requires
            old(self).wf(),
        ensures
            final(self).wf(),
            final(self)@ == (TransitView { probe: old(self)@.probe.spaced(gap), ..old(self)@ }),
    {
        self.probe.space(gap);
    }

    /// When the clock has to be advanced next, if anything waits for it.
    pub fn next_wake(&self) -> (r: Option<Timestamp>)
        ensures
            r == (if self@.probe.pausing() || (self@.probe.role is Initiator && self@.probe.wanted
                && self@.probe.unspaced is None) {
                Some(self@.probe.timer)
            } else {
                None
            }),
    {
        self.probe.next_wake()
    }
}

/// The length of a batch of slices.
fn total_of(bufs: &[&[u8]]) -> (r: usize)
    requires
        joined(bufs@).len() <= usize::MAX,
    ensures
        r == joined(bufs@).len(),
{
    let mut total: usize = 0;
    let mut i: usize = 0;
    proof {
        assert(bufs@.skip(0) =~= bufs@);
    }
    while i < bufs.len()
        invariant
            i <= bufs@.len(),
            joined(bufs@).len() <= usize::MAX,
            total + joined(bufs@.skip(i as int)).len() == joined(bufs@).len(),
        decreases bufs@.len() - i,
    {
        proof {
            let rest = bufs@.skip(i as int);
            assert(rest[0] == bufs@[i as int]);
            assert(rest.drop_first() =~= bufs@.skip(i + 1));
        }
        total = total + bufs[i].len();
        i = i + 1;
    }
    proof {
        assert(bufs@.skip(i as int) =~= Seq::empty());
    }
    total
}

} // verus!
