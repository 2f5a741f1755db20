//! The transport: round trip measurement and the transit window, between raw
//! frames and stream multiplexing.
//!
//! [`Transport`] handles everything that is *not* about any one stream on its
//! own:
//!
//! - the session-level **transit window**, which bounds how much `DATA` payload
//!   may be in flight at once,
//! - the **plain ping**, which measures the loaded round trip,
//! - the **link-clearing probe**, which measures the round trip over a drained
//!   link.
//!
//! None of those appear in the frames it yields. A caller writes stream frames
//! and reads stream frames; the `PING`, `CLEAR_LINK` and
//! `SESSION_WINDOW_UPDATE` traffic that keeps the connection measured and paced
//! is generated, answered and consumed here.
//!
//! # No timers
//!
//! Nothing in this module sleeps or wakes a task on its own. Pings and probes
//! are started by the caller ([`Transport::init_ping`],
//! [`Transport::init_probe`]) and are never given up on. Every transition is
//! reported as a [`ProbeEvent`], which is what lets a caller impose its own
//! schedule and its own deadlines.

pub mod frame;
pub mod laws;
pub mod session_laws;
pub mod transit_recv;

use vstd::prelude::*;

use crate::codec::decoder::{DecodedFrame, FrameView, StreamPayload};
use crate::codec::encoder::EncoderItem;
use crate::codec::laws::frame_bytes;
use crate::config::{RammuxConfig, RammuxRole, TransitReserve};
use crate::error::{io_error, io_error_of, ErrorKind, IoFailure};
use crate::header::PingPayload;
use crate::probe::{
    AfterClear, DirtyPingView, DirtyPingState, Probe, ProbeDone, ProbeEvent, ProbeFrame, ProbeView,
};
use crate::time::{capped, saturated, span, TimeSpan, Timestamp};
use crate::transport::frame::{Data, Payload, StreamFrame, StreamWindowUpdate};
use crate::transport::transit_recv::{RateSample, TransitRecv};

verus! {

/// A round trip time sample, and when it was taken.
///
/// The timestamp is what makes a sample usable: measurements are taken only on
/// request, so how old one is depends entirely on the caller's schedule.
#[derive(Clone, Copy, Debug, PartialEq, Eq, Structural)]
pub struct MeasuredRtt {
    /// The measured round trip.
    pub value: TimeSpan,
    /// When the sample completed.
    pub at: Timestamp,
}

/// A frame that the transport itself owes the peer.
#[derive(Clone, Copy, Debug, PartialEq, Eq, Structural)]
pub enum OwnFrame {
    /// A frame of the round trip machinery.
    Probe(ProbeFrame),
    /// Credit returned for the transit window.
    SessionWindowUpdate(u32),
}

impl OwnFrame {
    /// The frame as it arrives at the peer.
    pub open spec fn frame(self) -> FrameView {
        match self {
            OwnFrame::Probe(ProbeFrame::Clear(syn)) => FrameView::ClearLink { syn },
            OwnFrame::Probe(ProbeFrame::Ping(payload)) => FrameView::Ping {
                payload,
                is_response: false,
            },
            OwnFrame::Probe(ProbeFrame::Pong(payload)) => FrameView::Ping {
                payload,
                is_response: true,
            },
            OwnFrame::SessionWindowUpdate(update) => FrameView::SessionWindowUpdate { update },
        }
    }

    /// Encodes the frame. Barriers and session credit have no header among
    /// those of [`RawHeader`](crate::header::RawHeader): it is for the driver
    /// to say how they travel.
    pub fn encode(self) -> (r: Option<EncoderItem>)
        ensures
            r is Some <==> self.frame() is Ping,
            r matches Some(item) ==> item@ == frame_bytes(self.frame()),
    {
        match self {
            OwnFrame::Probe(ProbeFrame::Ping(payload)) => Some(
                EncoderItem::new_ping(payload, false),
            ),
            OwnFrame::Probe(ProbeFrame::Pong(payload)) => Some(
                EncoderItem::new_ping(payload, true),
            ),
            OwnFrame::Probe(ProbeFrame::Clear(_)) => None,
            OwnFrame::SessionWindowUpdate(_) => None,
        }
    }
}

/// What an inbound frame came to.
pub enum Inbound {
    /// The peer ended the session.
    Terminated,
    /// The frame was the transport's own business.
    Absorbed,
    /// A frame for the caller, and the arrival rate sample that it completed.
    Frame(StreamFrame, Option<RateSample>),
}

/// What a sender has to do before it can send.
#[derive(Clone, Copy, Debug, PartialEq, Eq, Structural)]
pub enum SendGate {
    /// Nothing: frames are accepted.
    Open,
    /// Take the frame that is waiting for the reader; nothing else gets the
    /// transport further.
    TakeHeld,
    /// Read: only an inbound frame ends the probe that owns the link.
    Read,
}

/// Handles the transit window, the plain ping, and the link-clearing probe of
/// one connection.
///
/// # Reading
///
/// Every inbound frame goes through [`Transport::on_frame`]. The peer's `TERM`
/// ends the session.
///
/// # Writing
///
/// Stream frames go through [`Transport::start_send`]. They are held back while
/// a probe owns the link, and no more `DATA` payload is accepted than
/// [`Transport::send_budget`] allows - the caller must size its frames against
/// that budget. Once the peer's `TERM` has arrived, frames are accepted and
/// dropped: there is no longer anybody to read them.
pub struct Transport {
    /// The `PING` machinery: plain ping and link-clearing probe.
    pub probe: Probe,
    /// Credit the peer granted us, if the transit window is enabled.
    pub transit_send: Option<u32>,
    /// The transit window we grant the peer, if enabled.
    pub transit_recv: Option<TransitRecv>,
    /// What decides when credit is returned to the peer.
    pub update_reserve: TransitReserve,
    /// Latest sample over a drained link.
    pub clean_rtt: Option<MeasuredRtt>,
    /// Latest sample with the connection's queues standing.
    pub dirty_rtt: Option<MeasuredRtt>,
    /// The peer's `TERM` has arrived.
    pub terminated: bool,
    /// Our `TERM` has been queued; nothing may follow it.
    pub term_sent: bool,
    /// A frame decoded while the sender was reading to get itself unblocked,
    /// waiting for the reader to take it.
    pub held: Option<StreamFrame>,
    /// Something happened that may unblock a held-back sender.
    pub unblocked: bool,
    /// When the current transit stall began, if the sender is stalled.
    pub stalled_since: Option<Timestamp>,
    /// Total time the sender spent stalled on transit credit.
    pub stalled_total: TimeSpan,
    /// How many transit stalls the sender has entered.
    pub stalled_events: u64,
}

/// A [`Transport`] as a mathematical value.
#[verifier::ext_equal]
pub ghost struct TransportView {
    pub probe: ProbeView,
    pub transit_send: Option<u32>,
    pub transit_recv: Option<TransitRecv>,
    pub update_reserve: TransitReserve,
    pub clean_rtt: Option<MeasuredRtt>,
    pub dirty_rtt: Option<MeasuredRtt>,
    pub terminated: bool,
    pub term_sent: bool,
    pub held: Option<FrameView>,
    pub unblocked: bool,
    pub stalled_since: Option<Timestamp>,
    pub stalled_total: TimeSpan,
    pub stalled_events: u64,
}

impl View for Transport {
    type V = TransportView;

    open spec fn view(&self) -> TransportView {
        TransportView {
            probe: self.probe@,
            transit_send: self.transit_send,
            transit_recv: self.transit_recv,
            update_reserve: self.update_reserve,
            clean_rtt: self.clean_rtt,
            dirty_rtt: self.dirty_rtt,
            terminated: self.terminated,
            term_sent: self.term_sent,
            held: match self.held {
                Some(frame) => Some(frame@),
                None => None,
            },
            unblocked: self.unblocked,
            stalled_since: self.stalled_since,
            stalled_total: self.stalled_total,
            stalled_events: self.stalled_events,
        }
    }
}

/// The value of a sample.
pub open spec fn sample_value(sample: Option<MeasuredRtt>) -> Option<TimeSpan> {
    match sample {
        Some(sample) => Some(sample.value),
        None => None,
    }
}

impl TransportView {
    /// A session that has not begun: the opening exchange is due.
    pub open spec fn fresh(role: RammuxRole, config: RammuxConfig, now: Timestamp) -> Self {
        TransportView {
            probe: ProbeView::opening(role),
            transit_send: if config.remote_transit_window > 0 {
                Some(config.remote_transit_window)
            } else {
                None
            },
            transit_recv: if config.local_transit_window > 0 {
                Some(
                    TransitRecv {
                        current: config.local_transit_window,
                        freed: 0,
                        max: if config.transit_window_max < config.local_transit_window {
                            config.local_transit_window
                        } else {
                            config.transit_window_max
                        },
                        reserve: None,
                        rate_bucket_start: now,
                        rate_bucket_bytes: 0,
                        last_update: now,
                    },
                )
            } else {
                None
            },
            update_reserve: config.transit_update_reserve,
            clean_rtt: None,
            dirty_rtt: None,
            terminated: false,
            term_sent: false,
            held: None,
            unblocked: false,
            stalled_since: None,
            stalled_total: TimeSpan { nanos: 0 },
            stalled_events: 0,
        }
    }

    /// The probe machine and the transit window are in order, and credit is
    /// reserved only where it is to be.
    pub open spec fn valid(self) -> bool {
        &&& self.probe.valid()
        &&& self.transit_recv matches Some(recv) ==> {
            &&& recv.valid()
            &&& self.update_reserve is HalfWindow ==> recv.reserve is None
        }
    }

    /// The round trip that credit is reserved for, if it is to be and one was
    /// measured.
    pub open spec fn reserve_rtt(self) -> Option<TimeSpan> {
        match self.update_reserve {
            TransitReserve::HalfWindow => None,
            TransitReserve::CleanRtt => sample_value(self.clean_rtt),
            TransitReserve::DirtyRtt => sample_value(self.dirty_rtt),
        }
    }

    /// With `reserve` as the credit reserve, where there is to be one.
    pub open spec fn reserving(self, reserve: Option<u32>) -> Self {
        TransportView {
            transit_recv: match self.transit_recv {
                Some(recv) => Some(
                    TransitRecv {
                        reserve: if self.reserve_rtt() is Some {
                            reserve
                        } else {
                            None
                        },
                        ..recv
                    },
                ),
                None => None,
            },
            ..self
        }
    }

    /// The clean round trip, if one was measured.
    pub open spec fn clean_value(self) -> Option<TimeSpan> {
        sample_value(self.clean_rtt)
    }

    /// With one send pass accounted for.
    pub open spec fn passed(self, blocked: bool, now: Timestamp) -> Self {
        match (blocked, self.stalled_since) {
            (true, None) => TransportView {
                stalled_since: Some(now),
                stalled_events: saturated(self.stalled_events + 1),
                ..self
            },
            (false, Some(at)) => TransportView {
                stalled_since: None,
                stalled_total: TimeSpan {
                    nanos: capped(self.stalled_total.nanos + span(at, now).nanos),
                },
                ..self
            },
            _ => self,
        }
    }

    /// With what the round trip machinery measured taken over at `now`.
    pub open spec fn measured(self, done: Option<ProbeDone>, now: Timestamp) -> Self {
        let dirty_rtt = match self.probe.last_dirty {
            Some(value) => Some(MeasuredRtt { value, at: now }),
            None => self.dirty_rtt,
        };
        let drained = TransportView {
            probe: ProbeView { last_dirty: None, ..self.probe },
            dirty_rtt,
            ..self
        };
        match done {
            Some(done) => TransportView {
                clean_rtt: Some(MeasuredRtt { value: done.rtt, at: now }),
                // The opening exchange runs on a link that is clear by
                // construction, so its sample is both.
                dirty_rtt: match dirty_rtt {
                    Some(rtt) => Some(rtt),
                    None => Some(MeasuredRtt { value: done.rtt, at: now }),
                },
                unblocked: self.unblocked || done.resume,
                ..drained
            },
            None => drained,
        }
    }

    /// Whether an inbound frame is legal where the session stands.
    pub open spec fn accepts(self, frame: FrameView, now: Timestamp) -> bool {
        match frame {
            FrameView::Terminate => true,
            FrameView::ClearLink { syn } => self.probe.accepts_clear_link(syn),
            FrameView::Ping { payload, is_response } => if is_response {
                self.probe.accepts_pong(payload, now)
            } else {
                self.probe.accepts_ping()
            },
            FrameView::SessionWindowUpdate { update } => !self.probe.peer_must_be_silent()
                && self.transit_send is Some && self.transit_send->Some_0 + update <= u32::MAX,
            FrameView::WindowUpdate { .. } => !self.probe.peer_must_be_silent(),
            FrameView::Data { .. } => !self.probe.peer_must_be_silent(),
        }
    }

    /// Whether `e` is the error that a frame which is not legal fails with.
    pub open spec fn refuses_with(self, frame: FrameView, e: ErrorKind) -> bool {
        match frame {
            FrameView::Terminate => false,
            FrameView::ClearLink { .. } => e matches ErrorKind::Probe(m) && m@
                == self.probe.clear_link_fault(),
            FrameView::Ping { payload, .. } => e == ErrorKind::UnexpectedPing(payload),
            _ => if self.probe.peer_must_be_silent() {
                e matches ErrorKind::Probe(m) && m@
                    == "received a non-probe frame while the link is being cleared"@
            } else if self.transit_send is None {
                e matches ErrorKind::Transit(m) && m@ == "transit window is not enabled"@
            } else {
                e matches ErrorKind::Transit(m) && m@ == "transit window overflow"@
            },
        }
    }

    /// The session once a legal frame has arrived at `now`.
    pub open spec fn after_frame(self, frame: FrameView, now: Timestamp) -> Self {
        match frame {
            // Whatever the sender was waiting for, it is moot now.
            FrameView::Terminate => TransportView { terminated: true, unblocked: true, ..self },
            FrameView::ClearLink { syn } => TransportView {
                probe: self.probe.after_clear_link(syn, now),
                ..self
            },
            FrameView::Ping { payload, is_response } => if is_response {
                TransportView { probe: self.probe.after_pong(payload, now), ..self }.measured(
                    self.probe.completed_by_pong(payload, now),
                    now,
                )
            } else {
                TransportView { probe: self.probe.after_ping(payload, now), ..self }.measured(
                    self.probe.completed_by_ping(),
                    now,
                )
            },
            FrameView::SessionWindowUpdate { update } => {
                let granted = TransportView {
                    transit_send: Some((self.transit_send->Some_0 + update) as u32),
                    ..self
                };
                if update > 0 {
                    TransportView { unblocked: true, ..granted.passed(false, now) }
                } else {
                    granted
                }
            },
            FrameView::WindowUpdate { .. } => self,
            FrameView::Data { data, .. } => TransportView {
                transit_recv: match self.transit_recv {
                    Some(recv) => Some(
                        recv.after_freed(data.len() as int, self.clean_value(), now),
                    ),
                    None => None,
                },
                ..self
            },
        }
    }

    /// The arrival rate sample that a frame completes.
    pub open spec fn rate_sample(self, frame: FrameView, now: Timestamp) -> Option<RateSample> {
        match (frame, self.transit_recv) {
            (FrameView::Data { data, .. }, Some(recv)) => recv.sample(
                data.len() as int,
                self.clean_value(),
                now,
            ),
            _ => None,
        }
    }

    /// Whether transit credit may be returned: the peer can still use it, and
    /// no probe pause would be broken.
    pub open spec fn may_grant(self) -> bool {
        !self.terminated && !self.probe.paused()
    }

    /// The next frame that the transport owes the peer: probe frames first,
    /// then transit credit, and nothing past our own `TERM`.
    pub open spec fn own_frame(
        self,
        ceiling: Option<u32>,
        now: Timestamp,
        fresh: PingPayload,
    ) -> Option<OwnFrame> {
        if self.term_sent {
            None
        } else if let Some((frame, _)) = self.probe.next_frame(fresh) {
            Some(OwnFrame::Probe(frame))
        } else {
            match self.transit_recv {
                Some(recv) if self.may_grant() => match recv.grant(
                    ceiling,
                    self.clean_value(),
                    now,
                ) {
                    Some(update) => Some(OwnFrame::SessionWindowUpdate(update)),
                    None => None,
                },
                _ => None,
            }
        }
    }

    /// The session once that frame has been taken.
    pub open spec fn after_own_frame(
        self,
        ceiling: Option<u32>,
        now: Timestamp,
        fresh: PingPayload,
    ) -> Self {
        if self.term_sent {
            self
        } else if let Some((_, resume)) = self.probe.next_frame(fresh) {
            TransportView {
                probe: self.probe.after_frame(now, fresh),
                unblocked: self.unblocked || resume,
                ..self
            }
        } else {
            match self.transit_recv {
                Some(recv) if self.may_grant() => TransportView {
                    transit_recv: Some(recv.after_grant(ceiling, self.clean_value(), now)),
                    ..self
                },
                _ => self,
            }
        }
    }

    /// How much payload of a frame counts against the transit window.
    pub open spec fn cost(frame: FrameView) -> int {
        match frame {
            FrameView::Data { data, .. } => if data.len() > u32::MAX {
                u32::MAX as int
            } else {
                data.len() as int
            },
            _ => 0,
        }
    }

    /// Whether a stream frame keeps to the transit window.
    pub open spec fn affords(self, frame: FrameView) -> bool {
        self.transit_send matches Some(credit) ==> Self::cost(frame) <= credit
    }

    /// The session once a stream frame that it affords has been sent.
    pub open spec fn after_send(self, frame: FrameView, now: Timestamp) -> Self {
        let paid = TransportView {
            transit_send: match self.transit_send {
                Some(credit) => Some((credit - Self::cost(frame)) as u32),
                None => None,
            },
            ..self
        };
        if Self::cost(frame) > 0 {
            paid.passed(false, now)
        } else {
            paid
        }
    }
}

impl Transport {
    /// Creates a new transport.
    ///
    /// The initial state is the opening `PING` exchange: neither side has sent
    /// anything yet, so the link is clear by construction and the first sample
    /// needs no `CLEAR_LINK`. Stream frames are held back until it completes,
    /// and it fills in both [`Transport::clean_rtt`] and
    /// [`Transport::dirty_rtt`]: on an empty link the two are the same
    /// measurement.
    pub fn new(role: RammuxRole, config: &RammuxConfig, now: Timestamp) -> (r: Self)
        ensures
            r@ == TransportView::fresh(role, *config, now),
            r@.valid(),
    {
        Transport {
            probe: Probe::new(role),
            transit_send: if config.remote_transit_window > 0 {
                Some(config.remote_transit_window)
            } else {
                None
            },
            transit_recv: if config.local_transit_window > 0 {
                Some(
                    TransitRecv::new(config.local_transit_window, config.transit_window_max, now),
                )
            } else {
                None
            },
            update_reserve: config.transit_update_reserve,
            clean_rtt: None,
            dirty_rtt: None,
            terminated: false,
            term_sent: false,
            held: None,
            unblocked: false,
            stalled_since: None,
            stalled_total: TimeSpan::zero(),
            stalled_events: 0,
        }
    }

    /// Initiates a ping-pong exchange carrying `payload`, if currently
    /// possible.
    ///
    /// The ping travels inline with data, so it times the round trip through
    /// the queues that are actually standing - the loaded round trip, reported
    /// by [`Transport::dirty_rtt`].
    ///
    /// Returns whether the exchange was initiated. It is refused if:
    /// 1. an exchange initiated by this side is already in progress,
    /// 2. a probe is in progress - a `PING` there belongs to the dance,
    /// 3. the peer terminated the connection.
    pub fn init_ping(&mut self, payload: PingPayload) -> (r: bool)
        requires
            old(self)@.valid(),
        ensures
            final(self)@.valid(),
            r == (!old(self)@.terminated && old(self)@.probe.state is Idle && old(self)@.probe.ping.state is Idle),
            final(self)@ == if r {
                (TransportView {
                    probe: (ProbeView {
                        ping: (DirtyPingView {
                            state: DirtyPingState::Queued { payload },
                            ..old(self)@.probe.ping
                        }),
                        ..old(self)@.probe
                    }),
                    ..old(self)@
                })
            } else {
                old(self)@
            },
    {
        if self.terminated {
            return false;
        }
        self.probe.send_ping(payload)
    }

    /// Initiates a link-clearing probe, if currently possible.
    ///
    /// Both sides pause data output, drain the link with a `CLEAR_LINK`
    /// exchange, and time a `PING` over it - the clean round trip, reported by
    /// [`Transport::clean_rtt`]. The transit window autotunes against it, so a
    /// connection that never probes never grows its window.
    ///
    /// Returns whether the probe was initiated. It is refused if:
    /// 1. a probe is already in progress - including one the peer initiated,
    ///    and the opening exchange,
    /// 2. the peer terminated the connection.
    ///
    /// A ping-pong exchange in flight does not refuse it: the probe takes the
    /// link and gives that ping up.
    pub fn init_probe(&mut self) -> (r: bool)
        requires
            old(self)@.valid(),
        ensures
            final(self)@.valid(),
            r == (!old(self)@.terminated && old(self)@.probe.state is Idle),
            final(self)@ == if r {
                (TransportView {
                    probe: old(self)@.probe.begun(true, AfterClear::AwaitClear { collided: false }),
                    ..old(self)@
                })
            } else {
                old(self)@
            },
    {
        if self.terminated {
            return false;
        }
        self.probe.start()
    }

    /// Gives up on the outstanding plain `PING`, so [`Transport::init_ping`]
    /// can run again.
    ///
    /// Returns whether one was in flight. A `PONG` that arrives for it
    /// afterwards is ignored rather than failing the connection.
    pub fn abandon_ping(&mut self) -> (r: bool)
        requires
            old(self)@.valid(),
        ensures
            final(self)@.valid(),
            r == (old(self)@.probe.ping.state is Awaiting),
            final(self)@ == (TransportView {
                probe: old(self)@.probe.without_ping(),
                ..old(self)@
            }),
    {
        self.probe.give_up_ping()
    }

    /// Returns the latest round trip measured on a clear link.
    pub fn clean_rtt(&self) -> (r: Option<MeasuredRtt>)
        ensures
            r == self@.clean_rtt,
    {
        self.clean_rtt
    }

    /// Returns the latest round trip measured on a dirty link (with data
    /// possibly flowing).
    pub fn dirty_rtt(&self) -> (r: Option<MeasuredRtt>)
        ensures
            r == self@.dirty_rtt,
    {
        self.dirty_rtt
    }

    /// Takes the next transition of the round trip machinery, if any.
    pub fn next_event(&mut self) -> (r: Option<ProbeEvent>)
        requires
            old(self)@.valid(),
        ensures
            final(self)@.valid(),
            ({
                let events = old(self)@.probe.events;
                &&& r == if events.len() > 0 {
                    Some(events[0])
                } else {
                    None
                }
                &&& final(self)@ == (TransportView {
                    probe: (ProbeView {
                        events: if events.len() > 0 {
                            events.drop_first()
                        } else {
                            events
                        },
                        ..old(self)@.probe
                    }),
                    ..old(self)@
                })
            }),
    {
        self.probe.next_event()
    }

    /// How much more `DATA` payload the transit window allows in flight, or
    /// [`None`] if the transit window is disabled in this direction.
    ///
    /// A frame handed to [`Transport::start_send`] must not carry more than
    /// this.
    pub fn send_budget(&self) -> (r: Option<u32>)
        ensures
            r == self@.transit_send,
    {
        self.transit_send
    }

    /// Current size of the transit window we grant the peer, if enabled.
    pub fn transit_window(&self) -> (r: Option<u32>)
        ensures
            r == match self@.transit_recv {
                Some(recv) => Some(recv.current),
                None => None,
            },
    {
        match &self.transit_recv {
            Some(recv) => Some(recv.current),
            None => None,
        }
    }

    /// Whether the peer has terminated the connection.
    pub fn terminated(&self) -> (r: bool)
        ensures
            r == self@.terminated,
    {
        self.terminated
    }

    /// Whether something has happened that may unblock a sender this transport
    /// was holding back: a probe finished, or transit credit arrived. Both
    /// leave senders parked on wakers only the caller has, so the caller has to
    /// wake them.
    ///
    /// Consumes the signal.
    pub fn take_unblocked(&mut self) -> (r: bool)
        requires
            old(self)@.valid(),
        ensures
            final(self)@.valid(),
            r == old(self)@.unblocked,
            final(self)@ == (TransportView { unblocked: false, ..old(self)@ }),
    {
        let unblocked = self.unblocked;
        self.unblocked = false;
        unblocked
    }

    /// Total time the sender spent stalled on a transit credit grant, and how
    /// many such stalls it entered.
    ///
    /// A stall is time in which the transport was writable and stream payload
    /// was ready, but the transit window was spent.
    pub fn transit_stalls(&self, now: Timestamp) -> (r: (TimeSpan, u64))
        ensures
            r.0.nanos == capped(
                self@.stalled_total.nanos + match self@.stalled_since {
                    Some(at) => span(at, now).nanos as int,
                    None => 0,
                },
            ),
            r.1 == self@.stalled_events,
    {
        let pending = match self.stalled_since {
            Some(at) => now.since(at),
            None => TimeSpan::zero(),
        };
        (self.stalled_total.plus(pending), self.stalled_events)
    }

    /// Accounts for one completed pass of the caller's send loop.
    ///
    /// `blocked` means the transport was ready to accept a frame and the caller
    /// had payload for it, but [`Transport::send_budget`] was spent. That is
    /// the only state in which the credit-return loop - not the link, the
    /// peer's stream windows, or the probe pause - is what holds the sender
    /// back.
    pub fn note_send_pass(&mut self, blocked: bool, now: Timestamp)
        requires
            old(self)@.valid(),
        ensures
            final(self)@.valid(),
            final(self)@ == old(self)@.passed(blocked, now),
    {
        match self.stalled_since {
            None => if blocked {
                self.stalled_since = Some(now);
                self.stalled_events = self.stalled_events.saturating_add(1);
            },
            Some(at) => if !blocked {
                self.stalled_total = self.stalled_total.plus(now.since(at));
                self.stalled_since = None;
            },
        }
    }

    /// The round trip that credit is to be reserved for, if any: the peer should
    /// have as much left, when it is given more, as arrives in that time.
    pub fn reserve_rtt(&self) -> (r: Option<TimeSpan>)
        ensures
            r == self@.reserve_rtt(),
    {
        let sample = match self.update_reserve {
            TransitReserve::HalfWindow => None,
            TransitReserve::CleanRtt => self.clean_rtt,
            TransitReserve::DirtyRtt => self.dirty_rtt,
        };
        match sample {
            Some(rtt) => Some(rtt.value),
            None => None,
        }
    }

    /// Sets what arrives in [`Transport::reserve_rtt`] as the credit reserve;
    /// [`None`] where it is not known. It counts for nothing where there is no
    /// such round trip.
    pub fn set_transit_reserve(&mut self, reserve: Option<u32>)
        requires
            old(self)@.valid(),
        ensures
            final(self)@.valid(),
            final(self)@ == old(self)@.reserving(reserve),
    {
        let reserve = match self.reserve_rtt() {
            Some(_) => reserve,
            None => None,
        };
        if let Some(recv) = &mut self.transit_recv {
            recv.reserve = reserve;
        }
    }

    /// Takes the next frame that the transport itself owes the peer, if any.
    ///
    /// `ceiling` bounds the growth of the transit window, see
    /// [`TransitRecv::take_grant`]. A probe `PING` carries the `fresh` payload.
    pub fn next_own_frame(
        &mut self,
        ceiling: Option<u32>,
        now: Timestamp,
        fresh: PingPayload,
    ) -> (r: Option<OwnFrame>)
        requires
            old(self)@.valid(),
        ensures
            final(self)@.valid(),
            r == old(self)@.own_frame(ceiling, now, fresh),
            final(self)@ == old(self)@.after_own_frame(ceiling, now, fresh),
    {
        if self.term_sent {
            return None;
        }
        let before = self.probe.next_frame(now, fresh);
        if let Some((frame, resume)) = before {
            self.unblocked = self.unblocked || resume;
            return Some(OwnFrame::Probe(frame));
        }
        // Credit is only worth returning while the peer can still use it, and a
        // probe pause must not be broken by a session frame.
        if self.terminated || self.probe.paused() {
            return None;
        }
        let clean_rtt = match self.clean_rtt {
            Some(rtt) => Some(rtt.value),
            None => None,
        };
        match &mut self.transit_recv {
            Some(recv) => match recv.take_grant(ceiling, clean_rtt, now) {
                Some(update) => Some(OwnFrame::SessionWindowUpdate(update)),
                None => None,
            },
            None => None,
        }
    }

    /// Takes over what the round trip machinery measured.
    fn note_measured(&mut self, done: Option<ProbeDone>, now: Timestamp)
        ensures
            final(self)@ == old(self)@.measured(done, now),
    {
        // Loaded samples come from the plain ping and from the probe's own
        // CLEAR_LINK leg, so they are drained here rather than carried on probe
        // completion.
        if let Some(value) = self.probe.take_dirty_rtt() {
            self.dirty_rtt = Some(MeasuredRtt { value, at: now });
        }
        if let Some(done) = done {
            let sample = MeasuredRtt { value: done.rtt, at: now };
            self.clean_rtt = Some(sample);
            if self.dirty_rtt.is_none() {
                self.dirty_rtt = Some(sample);
            }
            self.unblocked = self.unblocked || done.resume;
        }
    }

    /// Handles one inbound frame. Everything that is the transport's own
    /// business is consumed here rather than surfaced.
    pub fn on_frame(&mut self, frame: DecodedFrame, now: Timestamp) -> (r: Result<
        Inbound,
        ErrorKind,
    >)
        requires
            old(self)@.valid(),
        ensures
            final(self)@.valid(),
            r is Ok <==> old(self)@.accepts(frame@, now),
            r matches Err(e) ==> old(self)@.refuses_with(frame@, e),
            r is Ok ==> final(self)@ == old(self)@.after_frame(frame@, now),
            r is Err ==> final(self)@ == if frame@ is ClearLink {
                (TransportView { probe: old(self)@.probe.without_ping(), ..old(self)@ })
            } else {
                old(self)@
            },
            r matches Ok(inbound) ==> match frame@ {
                FrameView::Terminate => inbound is Terminated,
                FrameView::WindowUpdate { .. } | FrameView::Data { .. } => {
                    &&& inbound matches Inbound::Frame(out, sample)
                    &&& out@ == frame@
                    &&& sample == old(self)@.rate_sample(frame@, now)
                },
                _ => inbound is Absorbed,
            },
    {
        match frame {
            DecodedFrame::Terminate => {
                self.terminated = true;
                self.unblocked = true;
                Ok(Inbound::Terminated)
            },
            DecodedFrame::ClearLink { syn } => match self.probe.on_clear_link(syn, now) {
                Ok(()) => Ok(Inbound::Absorbed),
                Err(error) => Err(error),
            },
            DecodedFrame::Ping { payload, is_response } => {
                let done = if is_response {
                    self.probe.on_pong(payload, now)
                } else {
                    self.probe.on_ping(payload, now)
                };
                match done {
                    Ok(done) => {
                        self.note_measured(done, now);
                        Ok(Inbound::Absorbed)
                    },
                    Err(error) => Err(error),
                }
            },
            DecodedFrame::SessionWindowUpdate { update } => {
                if self.probe.peer_must_be_silent() {
                    return Err(
                        ErrorKind::Probe(
                            "received a non-probe frame while the link is being cleared",
                        ),
                    );
                }
                match self.transit_send {
                    None => Err(ErrorKind::Transit("transit window is not enabled")),
                    Some(credit) => match credit.checked_add(update) {
                        None => Err(ErrorKind::Transit("transit window overflow")),
                        Some(credit) => {
                            self.transit_send = Some(credit);
                            if update > 0 {
                                // The grant is what the sender was stalled on,
                                // so the stall ends here rather than on its
                                // next pass.
                                self.note_send_pass(false, now);
                                self.unblocked = true;
                            }
                            Ok(Inbound::Absorbed)
                        },
                    },
                }
            },
            DecodedFrame::Stream { stream_id, flags, payload } => {
                // Past the peer's CLEAR_LINK its direction is drained: only
                // probe frames may arrive until the probe runs its course on
                // the peer's side.
                if self.probe.peer_must_be_silent() {
                    return Err(
                        ErrorKind::Probe(
                            "received a non-probe frame while the link is being cleared",
                        ),
                    );
                }
                match payload {
                    StreamPayload::WindowUpdate(update) => Ok(
                        Inbound::Frame(
                            StreamFrame::WindowUpdate(
                                StreamWindowUpdate { stream_id, flags, update },
                            ),
                            None,
                        ),
                    ),
                    StreamPayload::Data(data) => {
                        // Transit credit is freed as soon as the payload is
                        // stored here: the bytes have left the link, which is
                        // all this window accounts for.
                        let clean_rtt = match self.clean_rtt {
                            Some(rtt) => Some(rtt.value),
                            None => None,
                        };
                        let sample = match &mut self.transit_recv {
                            Some(recv) => recv.note_freed(data.len(), clean_rtt, now),
                            None => None,
                        };
                        Ok(
                            Inbound::Frame(
                                StreamFrame::Data(
                                    Data { stream_id, flags, payload: Payload::Received(data) },
                                ),
                                sample,
                            ),
                        )
                    },
                }
            },
        }
    }

    /// Takes in the end of the inbound flow between two frames. It is a failure
    /// unless the peer has ended the session before.
    pub fn on_end(&self) -> (r: Option<ErrorKind>)
        ensures
            r == if self@.terminated {
                None
            } else {
                Some(ErrorKind::Io(io_error_of(IoFailure::UnexpectedEof)))
            },
    {
        if self.terminated {
            None
        } else {
            Some(ErrorKind::Io(io_error(IoFailure::UnexpectedEof)))
        }
    }

    /// What a sender has to do before it can send, once the transport's own
    /// frames are queued.
    pub fn send_gate(&self) -> (r: SendGate)
        ensures
            r == if self@.terminated || !self@.probe.paused() {
                SendGate::Open
            } else if self@.held is Some {
                SendGate::TakeHeld
            } else {
                SendGate::Read
            },
    {
        if self.terminated || !self.probe.paused() {
            SendGate::Open
        } else if self.held.is_some() {
            SendGate::TakeHeld
        } else {
            SendGate::Read
        }
    }

    /// Keeps a frame that a sender read for whoever reads next.
    pub fn hold(&mut self, frame: StreamFrame)
        requires
            old(self)@.valid(),
        ensures
            final(self)@.valid(),
            final(self)@ == (TransportView { held: Some(frame@), ..old(self)@ }),
    {
        self.held = Some(frame);
    }

    /// Takes the frame that a sender read, if there is one.
    pub fn take_held(&mut self) -> (r: Option<StreamFrame>)
        requires
            old(self)@.valid(),
        ensures
            final(self)@.valid(),
            match r {
                Some(frame) => old(self)@.held == Some(frame@),
                None => old(self)@.held is None,
            },
            final(self)@ == (TransportView { held: None, ..old(self)@ }),
    {
        self.held.take()
    }

    /// Accounts for a stream frame that is about to be sent. Returns the frame
    /// to encode, or [`None`] where the peer has terminated and nobody is going
    /// to read it.
    pub fn start_send(&mut self, frame: StreamFrame, now: Timestamp) -> (r: Result<
        Option<StreamFrame>,
        ErrorKind,
    >)
        requires
            old(self)@.valid(),
        ensures
            final(self)@.valid(),
            r is Ok <==> old(self)@.terminated || old(self)@.affords(frame@),
            r matches Err(e) ==> {
                &&& e matches ErrorKind::Transit(m)
                &&& m@ == "sent more data than the transit window allows"@
                &&& final(self)@ == old(self)@
            },
            r matches Ok(out) ==> if old(self)@.terminated {
                out is None && final(self)@ == old(self)@
            } else {
                out == Some(frame) && final(self)@ == old(self)@.after_send(frame@, now)
            },
    {
        if self.terminated {
            return Ok(None);
        }
        if let StreamFrame::Data(data) = &frame {
            let payload_len: usize = data.payload.len();
            let len: u32 = if payload_len > crate::safe_cast_usize(u32::MAX) {
                u32::MAX
            } else {
                payload_len as u32
            };
            if let Some(credit) = self.transit_send {
                if credit < len {
                    return Err(ErrorKind::Transit("sent more data than the transit window allows"));
                }
                self.transit_send = Some(credit - len);
            }
            if len > 0 {
                // Payload moved, so whatever the sender was waiting for, it was
                // not a credit grant.
                self.note_send_pass(false, now);
            }
        }
        Ok(Some(frame))
    }

    /// Marks our `TERM` as queued, unless it was before. Returns whether it has
    /// to be queued now; nothing of ours follows it.
    pub fn start_close(&mut self) -> (r: bool)
        requires
            old(self)@.valid(),
        ensures
            final(self)@.valid(),
            r == !old(self)@.term_sent,
            final(self)@ == (TransportView { term_sent: true, ..old(self)@ }),
    {
        let first = !self.term_sent;
        self.term_sent = true;
        first
    }
}

} // verus!
