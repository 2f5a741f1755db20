//! Round trip measurement: the link-clearing probe and the loaded ping.
//!
//! Two different round trips are measured, with two different `PING`
//! mechanisms:
//!
//! - The **link-clearing probe** ([`Probe::start`]) pauses data output on both
//!   sides, drains the link with a `CLEAR_LINK` exchange, and then times a
//!   `PING` over the empty link. That sample is the path's own cost, which the
//!   connection's standing queues cannot inflate.
//! - The **plain ping** ([`Probe::send_ping`]) travels inline with data and
//!   times the round trip through the queues that are actually standing.
//!
//! Neither mechanism runs on a clock: both are started by the caller, nothing
//! here gives up on an exchange, and every transition is announced as a
//! [`ProbeEvent`] so the caller can impose its own schedule and deadlines.

use std::collections::VecDeque;

use vstd::prelude::*;

use crate::config::RammuxRole;
use crate::error::ErrorKind;
use crate::header::PingPayload;
use crate::time::{span, TimeSpan, Timestamp};

verus! {

/// A transition in a connection's round trip measurement state machine.
///
/// Every exchange is announced when it starts and again when it ends:
///
/// | start | end |
/// | --- | --- |
/// | [`ProbeEvent::PingSent`] | [`ProbeEvent::PingAnswered`] or [`ProbeEvent::PingAbandoned`] |
/// | [`ProbeEvent::ProbeStarted`] | [`ProbeEvent::ProbeCompleted`] |
///
/// An unfinished probe pauses this side's data output indefinitely, so putting
/// a deadline on [`ProbeEvent::ProbeStarted`] is how an application detects a
/// dead peer.
#[derive(Debug, Clone, Copy, PartialEq, Eq, Structural)]
#[non_exhaustive]
pub enum ProbeEvent {
    /// A plain `PING` has been encoded, and its round trip is now being timed.
    PingSent,
    /// The peer answered the plain `PING`.
    PingAnswered {
        /// The loaded round trip: the path plus both sides' standing queues.
        rtt: TimeSpan,
    },
    /// The plain `PING` was given up on. A pong that arrives for it afterwards
    /// is ignored.
    PingAbandoned,
    /// A link-clearing probe has begun and data output is now paused.
    ProbeStarted {
        /// Whether this side initiated the probe. `false` means the peer did,
        /// and this side was pulled in by an inbound `CLEAR_LINK`.
        initiated: bool,
    },
    /// The link-clearing probe completed and data output has resumed.
    ProbeCompleted {
        /// The clean round trip, measured over the drained link.
        rtt: TimeSpan,
    },
}

/// The plain `PING` that measures the loaded round trip.
///
/// It never blocks the probe and the probe never waits on it.
#[derive(Debug)]
pub struct DirtyPing {
    /// Where the ping stands.
    pub state: DirtyPingState,
    /// The payloads we stopped waiting for. Their pongs may still arrive, and are
    /// then ignored rather than failing the connection.
    pub forgotten: Vec<PingPayload>,
}

/// A [`DirtyPing`] as a mathematical value.
#[verifier::ext_equal]
pub ghost struct DirtyPingView {
    pub state: DirtyPingState,
    pub forgotten: Seq<PingPayload>,
}

impl View for DirtyPing {
    type V = DirtyPingView;

    open spec fn view(&self) -> DirtyPingView {
        DirtyPingView { state: self.state, forgotten: self.forgotten@ }
    }
}

/// Where the plain ping stands.
#[derive(Clone, Copy, PartialEq, Eq, Structural, Debug)]
pub enum DirtyPingState {
    /// No ping requested.
    Idle,
    /// Requested, waiting to be encoded.
    Queued {
        /// What it will carry.
        payload: PingPayload,
    },
    /// On the wire, being timed.
    Awaiting {
        /// What it carries.
        payload: PingPayload,
        /// When it went out.
        sent_at: Timestamp,
    },
}

/// What an inbound `PING` is, given where the probe dance stands.
#[derive(Clone, Copy, PartialEq, Eq, Structural, Debug)]
pub enum PingKind {
    /// Part of the dance.
    Probe,
    /// The peer's own loaded ping; answer it and carry on.
    Plain,
    /// The peer owes us something else and cannot legally be pinging.
    Illegal,
}

/// What an inbound `PONG` meant to the plain ping.
#[derive(Clone, Copy, PartialEq, Eq, Structural, Debug)]
pub enum DirtyPong {
    /// It answered our outstanding ping: the loaded round trip.
    Matched(TimeSpan),
    /// It answered a ping we had already given up on.
    Forgotten,
    /// Not ours - the probe should look at it.
    Other,
}

impl DirtyPingView {
    /// Nothing requested, nothing given up.
    pub open spec fn unused() -> Self {
        DirtyPingView { state: DirtyPingState::Idle, forgotten: Seq::empty() }
    }

    /// The ping once it has been given up on.
    pub open spec fn abandoned(self) -> Self {
        DirtyPingView {
            state: DirtyPingState::Idle,
            forgotten: match self.state {
                DirtyPingState::Awaiting { payload, .. } => self.forgotten.push(payload),
                _ => self.forgotten,
            },
        }
    }

    /// What a pong carrying `payload` means to the ping at `now`.
    pub open spec fn pong_meaning(self, payload: PingPayload, now: Timestamp) -> DirtyPong {
        match self.state {
            DirtyPingState::Awaiting { payload: expected, sent_at } if expected == payload => {
                DirtyPong::Matched(span(sent_at, now))
            },
            _ => if self.forgotten.contains(payload) {
                DirtyPong::Forgotten
            } else {
                DirtyPong::Other
            },
        }
    }

    /// The ping once that pong is dealt with. Of a payload that was given up
    /// several times, one is done with.
    pub open spec fn after_pong(self, payload: PingPayload, now: Timestamp) -> Self {
        match self.pong_meaning(payload, now) {
            DirtyPong::Matched(_) => DirtyPingView { state: DirtyPingState::Idle, ..self },
            DirtyPong::Forgotten => DirtyPingView {
                forgotten: self.forgotten.remove_value(payload),
                ..self
            },
            DirtyPong::Other => self,
        }
    }
}

impl DirtyPing {
    /// Nothing requested, nothing given up.
    pub fn new() -> (r: Self)
        ensures
            r@ == DirtyPingView::unused(),
    {
        DirtyPing { state: DirtyPingState::Idle, forgotten: Vec::new() }
    }

    /// Queues a ping. Returns `false` if one is already queued or in flight:
    /// only one plain ping is ever outstanding, so its pong is unambiguous.
    pub fn send(&mut self, payload: PingPayload) -> (r: bool)
        ensures
            r == (old(self)@.state is Idle),
            final(self)@ == if r {
                (DirtyPingView { state: DirtyPingState::Queued { payload }, ..old(self)@ })
            } else {
                old(self)@
            },
    {
        match self.state {
            DirtyPingState::Idle => {
                self.state = DirtyPingState::Queued { payload };
                true
            },
            _ => false,
        }
    }

    /// Hands over a queued ping to be encoded.
    pub fn take_frame(&mut self, now: Timestamp) -> (r: Option<PingPayload>)
        ensures
            match old(self)@.state {
                DirtyPingState::Queued { payload } => {
                    &&& r == Some(payload)
                    &&& final(self)@ == (DirtyPingView {
                        state: DirtyPingState::Awaiting { payload, sent_at: now },
                        ..old(self)@
                    })
                },
                _ => r is None && final(self)@ == old(self)@,
            },
    {
        match self.state {
            DirtyPingState::Queued { payload } => {
                self.state = DirtyPingState::Awaiting { payload, sent_at: now };
                Some(payload)
            },
            _ => None,
        }
    }

    /// Gives up on the ping, so a probe can own the link.
    ///
    /// Returns whether one was actually in flight. A queued ping is dropped
    /// either way, but it never reached the wire, so there is nothing to
    /// announce and nothing to ignore later.
    pub fn abandon(&mut self) -> (r: bool)
        ensures
            r == (old(self)@.state is Awaiting),
            final(self)@ == old(self)@.abandoned(),
    {
        let in_flight = match self.state {
            DirtyPingState::Awaiting { payload, .. } => {
                self.forgotten.push(payload);
                true
            },
            _ => false,
        };
        self.state = DirtyPingState::Idle;
        in_flight
    }

    /// Takes an inbound pong, if it answers the ping or one given up on.
    pub fn on_pong(&mut self, payload: PingPayload, now: Timestamp) -> (r: DirtyPong)
        ensures
            r == old(self)@.pong_meaning(payload, now),
            final(self)@ == old(self)@.after_pong(payload, now),
    {
        if let DirtyPingState::Awaiting { payload: expected, sent_at } = self.state {
            if expected == payload {
                self.state = DirtyPingState::Idle;
                return DirtyPong::Matched(now.since(sent_at));
            }
        }
        let mut i: usize = 0;
        while i < self.forgotten.len()
            invariant
                i <= self.forgotten@.len(),
                *self == *old(self),
                old(self)@.state matches DirtyPingState::Awaiting { payload: expected, .. }
                    ==> expected != payload,
                forall|j: int| 0 <= j < i ==> self.forgotten@[j] != payload,
            decreases self.forgotten@.len() - i,
        {
            if self.forgotten[i] == payload {
                proof {
                    self.forgotten@.index_of_first_ensures(payload);
                }
                self.forgotten.remove(i);
                return DirtyPong::Forgotten;
            }
            i = i + 1;
        }
        DirtyPong::Other
    }
}

/// Where the probe dance stands; see [`Probe`] for the dance itself.
#[derive(Clone, Copy, PartialEq, Eq, Structural, Debug)]
pub enum ProbeState {
    /// No probe in flight; data flows.
    Idle,
    /// Data paused; our `CLEAR_LINK` waits to be sent, then `next`.
    SendClear {
        /// Spontaneous initiation rather than receipt.
        syn: bool,
        /// What follows.
        next: AfterClear,
    },
    /// Initiator: `CLEAR_LINK` sent, waiting for the peer's receipt.
    AwaitClear {
        /// The peer initiated simultaneously. As the client we keep the
        /// initiator role, the peer demotes to responder, and its receipt is
        /// still owed - we must not ping before it arrives, since only the
        /// receipt proves our own direction has drained.
        collided: bool,
    },
    /// Responder: `CLEAR_LINK` sent, waiting for the peer's probe `PING`.
    AwaitPing,
    /// Our probe `PING` waits to be sent over the drained link.
    SendPing {
        /// Data flow resumes as soon as the ping is sent: the responder's pong
        /// and ping lead the resumed data on the drained link.
        resume: bool,
        /// The peer's own probe `PING` was already received.
        peer_pinged: bool,
        /// This is the opening exchange - see [`ProbeState::AwaitPong`].
        opening: bool,
    },
    /// Probe `PING` sent. The probe completes when the pong has arrived (`rtt`)
    /// and the peer's own probe `PING` has been answered (`peer_pinged`).
    AwaitPong {
        /// Payload we are waiting to see echoed.
        payload: PingPayload,
        /// When it went out.
        sent_at: Timestamp,
        /// Data flows again.
        resumed: bool,
        /// The peer's own probe `PING` has arrived.
        peer_pinged: bool,
        /// Our own sample, once the pong is back.
        rtt: Option<TimeSpan>,
        /// This is the opening exchange, where the two sides ping
        /// simultaneously rather than one behind the other, so the two halves
        /// complete independently.
        opening: bool,
    },
}

/// Successor of [`ProbeState::SendClear`].
#[derive(Clone, Copy, PartialEq, Eq, Structural, Debug)]
pub enum AfterClear {
    /// We initiated: wait for the peer's receipt.
    AwaitClear {
        /// The peer initiated simultaneously.
        collided: bool,
    },
    /// The peer initiated: wait for the peer's probe `PING`.
    AwaitPing,
}

/// A completed probe.
#[derive(Clone, Copy, PartialEq, Eq, Structural, Debug)]
pub struct ProbeDone {
    /// The clean sample, measured over the drained link.
    pub rtt: TimeSpan,
    /// Whether data flow resumes with this completion.
    pub resume: bool,
}

/// A probe frame ready to be encoded.
#[derive(Clone, Copy, PartialEq, Eq, Structural, Debug)]
pub enum ProbeFrame {
    /// `CLEAR_LINK`; `true` marks a spontaneous initiation (`SYN`), `false` the
    /// responder's receipt.
    Clear(bool),
    /// A `PING` request, from either mechanism.
    Ping(PingPayload),
    /// Response to the peer's `PING`.
    Pong(PingPayload),
}

/// The cooperative link-clearing probe.
///
/// One side pauses its data output, both sides drain the link with a
/// `CLEAR_LINK` exchange, and each measures the round trip with a `PING`
/// exchange over the empty link.
///
/// The dance (I = initiator, R = responder; each direction of the transport is
/// ordered, so a `CLEAR_LINK` frame is a drain barrier). An initiation carries
/// `SYN`; the responder answers with a receipt (`CLEAR_LINK` without `SYN`),
/// which it can only produce after consuming everything ahead of the
/// initiation - receiving it therefore proves both directions are drained:
///
/// ```text
/// I: pause data, send CLEAR_LINK+SYN
/// R: receive CLEAR_LINK+SYN -> pause data, send CLEAR_LINK receipt
/// I: receive receipt (both directions drained) -> send PING
/// R: receive PING (I->R is drained) -> send PONG, own PING, resume data
/// I: receive PONG (clean RTT), receive R's PING -> send PONG, resume data
/// R: receive PONG (clean RTT)
/// ```
///
/// Colliding initiations tie-break by role: the client stays initiator, the
/// server demotes to responder - its own initiation stands as its pause marker
/// and it still sends the receipt.
///
/// This type also owns the plain ping, because the two mechanisms share the
/// `PING` frame and have to stay mutually unambiguous.
pub struct Probe {
    /// Protocol state.
    pub state: ProbeState,
    /// Response owed to the peer's probe `PING`.
    pub pong: Option<PingPayload>,
    /// Our role, used to tie-break colliding initiations.
    pub role: RammuxRole,
    /// When this side entered the exchange: our `CLEAR_LINK` went out
    /// (initiator), or the peer's arrived (responder).
    pub clear_at: Option<Timestamp>,
    /// Loaded round trip of the most recent exchange, drained by
    /// [`Probe::take_dirty_rtt`].
    pub last_dirty: Option<TimeSpan>,
    /// The plain `PING` that measures the loaded round trip.
    pub ping: DirtyPing,
    /// Pongs owed to plain pings.
    pub plain_pongs: VecDeque<PingPayload>,
    /// Transitions not yet handed to the caller.
    pub events: VecDeque<ProbeEvent>,
}

/// A [`Probe`] as a mathematical value.
#[verifier::ext_equal]
pub ghost struct ProbeView {
    pub state: ProbeState,
    pub pong: Option<PingPayload>,
    pub role: RammuxRole,
    pub clear_at: Option<Timestamp>,
    pub last_dirty: Option<TimeSpan>,
    pub ping: DirtyPingView,
    pub plain_pongs: Seq<PingPayload>,
    pub events: Seq<ProbeEvent>,
}

impl View for Probe {
    type V = ProbeView;

    open spec fn view(&self) -> ProbeView {
        ProbeView {
            state: self.state,
            pong: self.pong,
            role: self.role,
            clear_at: self.clear_at,
            last_dirty: self.last_dirty,
            ping: self.ping@,
            plain_pongs: self.plain_pongs@,
            events: self.events@,
        }
    }
}

impl ProbeView {
    /// A plain ping exists only while no exchange is under way.
    pub open spec fn valid(self) -> bool {
        !(self.state is Idle) ==> self.ping.state is Idle
    }

    /// The opening exchange, before anything was sent.
    pub open spec fn opening(role: RammuxRole) -> Self {
        ProbeView {
            state: ProbeState::SendPing { resume: false, peer_pinged: false, opening: true },
            pong: None,
            role,
            clear_at: None,
            last_dirty: None,
            ping: DirtyPingView::unused(),
            plain_pongs: Seq::empty(),
            events: seq![ProbeEvent::ProbeStarted { initiated: true }],
        }
    }

    /// With one more event to report.
    pub open spec fn announcing(self, event: ProbeEvent) -> Self {
        ProbeView { events: self.events.push(event), ..self }
    }

    /// With the plain ping given up, which is announced if one was in flight.
    pub open spec fn without_ping(self) -> Self {
        let dropped = ProbeView { ping: self.ping.abandoned(), ..self };
        if self.ping.state is Awaiting {
            dropped.announcing(ProbeEvent::PingAbandoned)
        } else {
            dropped
        }
    }

    /// A probe has begun: `CLEAR_LINK` goes out next.
    pub open spec fn begun(self, syn: bool, next: AfterClear) -> Self {
        ProbeView {
            state: ProbeState::SendClear { syn, next },
            ..self.without_ping().announcing(ProbeEvent::ProbeStarted { initiated: syn })
        }
    }

    /// The probe completed with the clean sample `rtt`.
    pub open spec fn finished(self, rtt: TimeSpan) -> Self {
        ProbeView { state: ProbeState::Idle, ..self }.announcing(
            ProbeEvent::ProbeCompleted { rtt },
        )
    }

    /// Whether outbound frames other than probe frames must be held back.
    pub open spec fn paused(self) -> bool {
        match self.state {
            ProbeState::Idle => false,
            ProbeState::AwaitPong { resumed, .. } => !resumed,
            _ => true,
        }
    }

    /// Whether the peer may send nothing but probe frames: it has sent its
    /// `CLEAR_LINK` and the probe has not run its course.
    pub open spec fn peer_must_be_silent(self) -> bool {
        match self.state {
            ProbeState::Idle => false,
            ProbeState::SendPing { opening, .. } => !opening,
            ProbeState::AwaitPong { opening, .. } => !opening,
            ProbeState::SendClear { next: AfterClear::AwaitClear { collided }, .. } => collided,
            ProbeState::SendClear { next: AfterClear::AwaitPing, .. } => true,
            ProbeState::AwaitClear { collided } => collided,
            ProbeState::AwaitPing => true,
        }
    }

    /// What an inbound `PING` is, given where the dance stands.
    pub open spec fn ping_kind(self) -> PingKind {
        match self.state {
            ProbeState::AwaitPing => PingKind::Probe,
            ProbeState::AwaitPong { peer_pinged, .. } => if peer_pinged {
                PingKind::Plain
            } else {
                PingKind::Probe
            },
            ProbeState::SendPing { opening, peer_pinged, .. } => if opening && !peer_pinged {
                PingKind::Probe
            } else {
                PingKind::Illegal
            },
            ProbeState::AwaitClear { collided } => if collided {
                PingKind::Illegal
            } else {
                PingKind::Plain
            },
            ProbeState::Idle => PingKind::Plain,
            ProbeState::SendClear { .. } => PingKind::Plain,
        }
    }

    /// The loaded sample taken at `now` from the `CLEAR_LINK` leg.
    pub open spec fn clear_leg(self, now: Timestamp) -> Option<TimeSpan> {
        match self.clear_at {
            Some(at) => Some(span(at, now)),
            None => None,
        }
    }

    /// Whether a `CLEAR_LINK` can legally arrive: an initiation when no probe
    /// runs or when ours has not been crossed by another, a receipt when our
    /// initiation is out.
    pub open spec fn accepts_clear_link(self, syn: bool) -> bool {
        match self.state {
            ProbeState::Idle => syn,
            ProbeState::SendClear { syn: ours, next: AfterClear::AwaitClear { collided } } => {
                syn && ours && !collided
            },
            ProbeState::AwaitClear { collided } => !syn || !collided,
            _ => false,
        }
    }

    /// What is wrong with a `CLEAR_LINK` that cannot legally arrive.
    pub open spec fn clear_link_fault(self) -> Seq<char> {
        if self.state is Idle {
            "CLEAR_LINK receipt without initiation"@
        } else {
            "unexpected CLEAR_LINK"@
        }
    }

    /// The machine once a legal `CLEAR_LINK` has arrived at `now`.
    pub open spec fn after_clear_link(self, syn: bool, now: Timestamp) -> Self {
        let dropped = self.without_ping();
        match self.state {
            // The peer initiated: answer with a receipt, then wait for its ping.
            ProbeState::Idle => ProbeView { clear_at: Some(now), ..dropped }.begun(
                false,
                AfterClear::AwaitPing,
            ),
            // The receipt: both directions are drained.
            ProbeState::AwaitClear { .. } if !syn => ProbeView {
                last_dirty: self.clear_leg(now),
                state: ProbeState::SendPing { resume: false, peer_pinged: false, opening: false },
                ..dropped
            },
            // A collision: the client stays initiator, the server demotes.
            _ => ProbeView {
                state: match self.role {
                    RammuxRole::Server => ProbeState::SendClear {
                        syn: false,
                        next: AfterClear::AwaitPing,
                    },
                    RammuxRole::Client => match self.state {
                        ProbeState::SendClear { .. } => ProbeState::SendClear {
                            syn: true,
                            next: AfterClear::AwaitClear { collided: true },
                        },
                        _ => ProbeState::AwaitClear { collided: true },
                    },
                },
                ..dropped
            },
        }
    }

    /// Whether a `PING` request can legally arrive: the peer's plain ping, or
    /// the dance's own while its pong is not already owed and, outside of the
    /// opening exchange, behind the pong it follows.
    pub open spec fn accepts_ping(self) -> bool {
        match self.ping_kind() {
            PingKind::Plain => true,
            PingKind::Illegal => false,
            PingKind::Probe => self.pong is None && (self.state matches ProbeState::AwaitPong {
                opening,
                rtt,
                ..
            } ==> opening || rtt is Some),
        }
    }

    /// The machine once a legal `PING` request has arrived at `now`.
    pub open spec fn after_ping(self, payload: PingPayload, now: Timestamp) -> Self {
        if self.ping_kind() is Plain {
            ProbeView { plain_pongs: self.plain_pongs.push(payload), ..self }
        } else {
            let owing = ProbeView { pong: Some(payload), ..self };
            match self.state {
                ProbeState::SendPing { .. } => ProbeView {
                    state: ProbeState::SendPing { resume: true, peer_pinged: true, opening: true },
                    ..owing
                },
                ProbeState::AwaitPong { payload: ours, sent_at, resumed, rtt, opening, .. } => {
                    match rtt {
                        Some(rtt) => owing.finished(rtt),
                        None => ProbeView {
                            state: ProbeState::AwaitPong {
                                payload: ours,
                                sent_at,
                                resumed,
                                peer_pinged: true,
                                rtt,
                                opening,
                            },
                            ..owing
                        },
                    }
                },
                _ => ProbeView {
                    last_dirty: self.clear_leg(now),
                    state: ProbeState::SendPing { resume: true, peer_pinged: true, opening: false },
                    ..owing
                },
            }
        }
    }

    /// The probe that a legal `PING` request completes, if it completes one: it
    /// was the last thing missing.
    pub open spec fn completed_by_ping(self) -> Option<ProbeDone> {
        match self.state {
            ProbeState::AwaitPong { peer_pinged, resumed, rtt: Some(rtt), .. } if !peer_pinged => {
                Some(ProbeDone { rtt, resume: !resumed })
            },
            _ => None,
        }
    }

    /// Whether a pong that the plain ping knows nothing of answers the dance.
    pub open spec fn dance_awaits(self, payload: PingPayload) -> bool {
        self.state matches ProbeState::AwaitPong { payload: expected, rtt, .. } && expected
            == payload && rtt is None
    }

    /// Whether a pong can legally arrive.
    pub open spec fn accepts_pong(self, payload: PingPayload, now: Timestamp) -> bool {
        !(self.ping.pong_meaning(payload, now) is Other) || self.dance_awaits(payload)
    }

    /// The machine once a legal pong has arrived at `now`.
    pub open spec fn after_pong(self, payload: PingPayload, now: Timestamp) -> Self {
        let ping = self.ping.after_pong(payload, now);
        match self.ping.pong_meaning(payload, now) {
            DirtyPong::Matched(rtt) => ProbeView { last_dirty: Some(rtt), ping, ..self }.announcing(
                ProbeEvent::PingAnswered { rtt },
            ),
            DirtyPong::Forgotten => ProbeView { ping, ..self },
            DirtyPong::Other => match self.state {
                ProbeState::AwaitPong { payload: ours, sent_at, resumed, peer_pinged, opening, .. } => {
                    if peer_pinged {
                        self.finished(span(sent_at, now))
                    } else {
                        ProbeView {
                            state: ProbeState::AwaitPong {
                                payload: ours,
                                sent_at,
                                resumed,
                                peer_pinged,
                                rtt: Some(span(sent_at, now)),
                                opening,
                            },
                            ..self
                        }
                    }
                },
                _ => self,
            },
        }
    }

    /// The probe that a legal pong completes, if it completes one.
    pub open spec fn completed_by_pong(
        self,
        payload: PingPayload,
        now: Timestamp,
    ) -> Option<ProbeDone> {
        match self.state {
            ProbeState::AwaitPong { sent_at, resumed, peer_pinged, .. } if peer_pinged
                && self.ping.pong_meaning(payload, now) is Other => Some(
                ProbeDone { rtt: span(sent_at, now), resume: !resumed },
            ),
            _ => None,
        }
    }

    /// The next frame to send, if any, and whether sending it resumes data.
    /// Pongs lead, then the plain ping, then the dance itself.
    pub open spec fn next_frame(self, fresh: PingPayload) -> Option<(ProbeFrame, bool)> {
        if let Some(payload) = self.pong {
            Some(
                (
                    ProbeFrame::Pong(payload),
                    self.state matches ProbeState::AwaitPong { opening, resumed, .. } && opening
                        && !resumed,
                ),
            )
        } else if self.plain_pongs.len() > 0 {
            Some((ProbeFrame::Pong(self.plain_pongs[0]), false))
        } else if let DirtyPingState::Queued { payload } = self.ping.state {
            Some((ProbeFrame::Ping(payload), false))
        } else {
            match self.state {
                ProbeState::SendClear { syn, .. } => Some((ProbeFrame::Clear(syn), false)),
                ProbeState::SendPing { resume, .. } => Some((ProbeFrame::Ping(fresh), resume)),
                _ => None,
            }
        }
    }

    /// The machine once that frame has been taken at `now`.
    pub open spec fn after_frame(self, now: Timestamp, fresh: PingPayload) -> Self {
        if self.pong is Some {
            ProbeView {
                pong: None,
                state: match self.state {
                    ProbeState::AwaitPong {
                        payload,
                        sent_at,
                        resumed,
                        peer_pinged,
                        rtt,
                        opening,
                    } => ProbeState::AwaitPong {
                        payload,
                        sent_at,
                        resumed: resumed || opening,
                        peer_pinged,
                        rtt,
                        opening,
                    },
                    other => other,
                },
                ..self
            }
        } else if self.plain_pongs.len() > 0 {
            ProbeView { plain_pongs: self.plain_pongs.drop_first(), ..self }
        } else if let DirtyPingState::Queued { payload } = self.ping.state {
            ProbeView {
                ping: DirtyPingView {
                    state: DirtyPingState::Awaiting { payload, sent_at: now },
                    ..self.ping
                },
                ..self
            }.announcing(ProbeEvent::PingSent)
        } else {
            match self.state {
                ProbeState::SendClear { syn, next } => ProbeView {
                    clear_at: if syn {
                        Some(now)
                    } else {
                        self.clear_at
                    },
                    state: match next {
                        AfterClear::AwaitClear { collided } => ProbeState::AwaitClear { collided },
                        AfterClear::AwaitPing => ProbeState::AwaitPing,
                    },
                    ..self
                },
                ProbeState::SendPing { resume, peer_pinged, opening } => ProbeView {
                    state: ProbeState::AwaitPong {
                        payload: fresh,
                        sent_at: now,
                        resumed: resume,
                        peer_pinged,
                        rtt: None,
                        opening,
                    },
                    ..self
                },
                _ => self,
            }
        }
    }
}

impl Probe {
    /// Creates a probe machine holding the opening exchange.
    ///
    /// At this point neither side has sent anything, so the link is clear by
    /// construction and the sample needs no `CLEAR_LINK`: both sides simply
    /// `PING` as their very first frame. Data is still held until the exchange
    /// completes, because the `PONG` we owe the peer must not queue behind our
    /// opening burst.
    pub fn new(role: RammuxRole) -> (r: Self)
        ensures
            r@ == ProbeView::opening(role),
            r@.valid(),
    {
        let mut events: VecDeque<ProbeEvent> = VecDeque::new();
        events.push_back(ProbeEvent::ProbeStarted { initiated: true });
        Probe {
            state: ProbeState::SendPing { resume: false, peer_pinged: false, opening: true },
            pong: None,
            role,
            clear_at: None,
            last_dirty: None,
            ping: DirtyPing::new(),
            plain_pongs: VecDeque::new(),
            events,
        }
    }

    /// Whether an exchange that pauses data output is under way.
    pub fn in_progress(&self) -> (r: bool)
        ensures
            r == !(self@.state is Idle),
    {
        match self.state {
            ProbeState::Idle => false,
            _ => true,
        }
    }

    /// Initiates a link-clearing probe: data pauses now and `CLEAR_LINK` goes
    /// out with the next frame.
    ///
    /// Returns whether the probe was started. The only thing that refuses it is
    /// another exchange already running - the peer's probe, or the opening one.
    /// A plain ping in flight does not: the probe takes the link and gives that
    /// ping up.
    pub fn start(&mut self) -> (r: bool)
        requires
            old(self)@.valid(),
        ensures
            final(self)@.valid(),
            r == (old(self)@.state is Idle),
            final(self)@ == if r {
                old(self)@.begun(true, AfterClear::AwaitClear { collided: false })
            } else {
                old(self)@
            },
    {
        if self.in_progress() {
            return false;
        }
        self.begin(true, AfterClear::AwaitClear { collided: false });
        true
    }

    /// Queues a plain `PING` carrying `payload` to measure the loaded round
    /// trip.
    ///
    /// Returns whether it was queued. It is refused while a probe is running,
    /// since a `PING` there belongs to the dance, and while another plain ping
    /// is queued or in flight.
    pub fn send_ping(&mut self, payload: PingPayload) -> (r: bool)
        requires
            old(self)@.valid(),
        ensures
            final(self)@.valid(),
            r == (old(self)@.state is Idle && old(self)@.ping.state is Idle),
            final(self)@ == if r {
                (ProbeView {
                    ping: (DirtyPingView {
                        state: DirtyPingState::Queued { payload },
                        ..old(self)@.ping
                    }),
                    ..old(self)@
                })
            } else {
                old(self)@
            },
    {
        match self.state {
            ProbeState::Idle => self.ping.send(payload),
            _ => false,
        }
    }

    /// Gives up on the plain ping, so a probe can own the link or the caller's
    /// own deadline can expire.
    ///
    /// Returns whether one was in flight. A pong that arrives for it afterwards
    /// is ignored rather than failing the connection.
    pub fn give_up_ping(&mut self) -> (r: bool)
        ensures
            r == (old(self)@.ping.state is Awaiting),
            final(self)@ == old(self)@.without_ping(),
            old(self)@.valid() ==> final(self)@.valid(),
    {
        let was_in_flight = self.ping.abandon();
        if was_in_flight {
            self.events.push_back(ProbeEvent::PingAbandoned);
        }
        was_in_flight
    }

    /// Takes the next transition to report to the caller, oldest first.
    pub fn next_event(&mut self) -> (r: Option<ProbeEvent>)
        ensures
            old(self)@.events.len() == 0 ==> r is None && final(self)@ == old(self)@,
            old(self)@.events.len() > 0 ==> r == Some(old(self)@.events[0]) && final(self)@ == (
            ProbeView { events: old(self)@.events.drop_first(), ..old(self)@ }),
            old(self)@.valid() ==> final(self)@.valid(),
    {
        let event = self.events.pop_front();
        proof {
            if old(self)@.events.len() > 0 {
                assert(self@.events =~= old(self)@.events.drop_first());
            }
        }
        event
    }

    /// Returns whether outbound frames other than probe frames must be held
    /// back.
    pub fn paused(&self) -> (r: bool)
        ensures
            r == self@.paused(),
    {
        match self.state {
            ProbeState::Idle => false,
            ProbeState::AwaitPong { resumed, .. } => !resumed,
            _ => true,
        }
    }

    /// Returns whether the peer's data direction is drained: past its
    /// `CLEAR_LINK`, only probe frames may arrive until the probe runs its
    /// course.
    pub fn peer_must_be_silent(&self) -> (r: bool)
        ensures
            r == self@.peer_must_be_silent(),
    {
        match self.state {
            // The opening exchange carries no CLEAR_LINK, so it obliges the
            // peer to nothing.
            ProbeState::Idle => false,
            ProbeState::SendPing { opening, .. } | ProbeState::AwaitPong { opening, .. } => !opening,
            // Until the peer is known to be in the exchange, its data is
            // legitimate.
            ProbeState::SendClear { next: AfterClear::AwaitClear { collided }, .. } => collided,
            ProbeState::AwaitClear { collided } => collided,
            _ => true,
        }
    }

    /// What an inbound `PING` is, given where the dance stands.
    ///
    /// Each direction of the transport is ordered, which is what makes this
    /// decidable without a flag on the wire.
    pub fn classify_ping(&self) -> (r: PingKind)
        ensures
            r == self@.ping_kind(),
    {
        match self.state {
            ProbeState::AwaitPing => PingKind::Probe,
            ProbeState::AwaitPong { peer_pinged, .. } => if peer_pinged {
                PingKind::Plain
            } else {
                PingKind::Probe
            },
            // The opening exchange is symmetric, so the peer's ping can beat
            // ours out the door.
            ProbeState::SendPing { opening, peer_pinged, .. } => if opening && !peer_pinged {
                PingKind::Probe
            } else {
                PingKind::Illegal
            },
            // The peer has sent CLEAR_LINK and owes a receipt.
            ProbeState::AwaitClear { collided } => if collided {
                PingKind::Illegal
            } else {
                PingKind::Plain
            },
            ProbeState::Idle | ProbeState::SendClear { .. } => PingKind::Plain,
        }
    }

    /// Takes the most recent loaded sample, if one has landed.
    pub fn take_dirty_rtt(&mut self) -> (r: Option<TimeSpan>)
        ensures
            r == old(self)@.last_dirty,
            final(self)@ == (ProbeView { last_dirty: None, ..old(self)@ }),
            old(self)@.valid() ==> final(self)@.valid(),
    {
        self.last_dirty.take()
    }

    /// Enters a probe: data pauses now, `CLEAR_LINK` goes out next.
    fn begin(&mut self, syn: bool, next: AfterClear)
        ensures
            final(self)@ == old(self)@.begun(syn, next),
            final(self)@.valid(),
    {
        // Any plain ping is dropped: queued, it must not follow our CLEAR_LINK
        // onto the link the probe is clearing; in flight, its pong would be
        // indistinguishable from the probe's own.
        self.give_up_ping();
        self.state = ProbeState::SendClear { syn, next };
        self.events.push_back(ProbeEvent::ProbeStarted { initiated: syn });
    }

    /// Completes a probe.
    fn finish(&mut self, rtt: TimeSpan, resumed: bool) -> (r: Option<ProbeDone>)
        ensures
            final(self)@ == old(self)@.finished(rtt),
            r == Some(ProbeDone { rtt, resume: !resumed }),
            final(self)@.valid(),
    {
        self.state = ProbeState::Idle;
        self.events.push_back(ProbeEvent::ProbeCompleted { rtt });
        Some(ProbeDone { rtt, resume: !resumed })
    }

    /// Handles an inbound `CLEAR_LINK`.
    ///
    /// `syn` marks a spontaneous initiation; without it the frame is the
    /// responder's receipt, sent only in response to our own initiation. The
    /// receipt is the initiator's license to ping. A colliding initiation
    /// carries no such proof, which is why the demoted side still owes a
    /// receipt.
    pub fn on_clear_link(&mut self, syn: bool, now: Timestamp) -> (r: Result<(), ErrorKind>)
        requires
            old(self)@.valid(),
        ensures
            final(self)@.valid(),
            r is Ok <==> old(self)@.accepts_clear_link(syn),
            r is Ok ==> final(self)@ == old(self)@.after_clear_link(syn, now),
            r is Err ==> final(self)@ == old(self)@.without_ping(),
            r matches Err(e) ==> (e matches ErrorKind::Probe(m) && m@ == old(self)@.clear_link_fault()),
    {
        // The probe owns the link from here; a plain ping in flight would put
        // an ambiguous pong on it, so it is forgotten.
        self.give_up_ping();
        match self.state {
            ProbeState::Idle => if syn {
                self.clear_at = Some(now);
                self.begin(false, AfterClear::AwaitPing);
                Ok(())
            } else {
                Err(ErrorKind::Probe("CLEAR_LINK receipt without initiation"))
            },
            ProbeState::SendClear {
                syn: true,
                next: AfterClear::AwaitClear { collided: false },
            } => if syn {
                self.state = match self.role {
                    RammuxRole::Client => ProbeState::SendClear {
                        syn: true,
                        next: AfterClear::AwaitClear { collided: true },
                    },
                    RammuxRole::Server => ProbeState::SendClear {
                        syn: false,
                        next: AfterClear::AwaitPing,
                    },
                };
                Ok(())
            } else {
                Err(ErrorKind::Probe("unexpected CLEAR_LINK"))
            },
            ProbeState::AwaitClear { collided } => if !syn {
                // The time since our CLEAR_LINK went out is the loaded round
                // trip - it carries both sides' standing queues.
                self.last_dirty = match self.clear_at {
                    Some(at) => Some(now.since(at)),
                    None => None,
                };
                self.state = ProbeState::SendPing {
                    resume: false,
                    peer_pinged: false,
                    opening: false,
                };
                Ok(())
            } else if !collided {
                self.state = match self.role {
                    RammuxRole::Client => ProbeState::AwaitClear { collided: true },
                    RammuxRole::Server => ProbeState::SendClear {
                        syn: false,
                        next: AfterClear::AwaitPing,
                    },
                };
                Ok(())
            } else {
                Err(ErrorKind::Probe("unexpected CLEAR_LINK"))
            },
            _ => Err(ErrorKind::Probe("unexpected CLEAR_LINK")),
        }
    }

    /// Handles an inbound `PING` request.
    pub fn on_ping(&mut self, payload: PingPayload, now: Timestamp) -> (r: Result<
        Option<ProbeDone>,
        ErrorKind,
    >)
        requires
            old(self)@.valid(),
        ensures
            final(self)@.valid(),
            r is Ok <==> old(self)@.accepts_ping(),
            r matches Ok(done) ==> done == old(self)@.completed_by_ping() && final(self)@ == old(self)@.after_ping(payload, now),
            r matches Err(e) ==> e == ErrorKind::UnexpectedPing(payload) && final(self)@ == old(self)@,
    {
        // Only two states expect a ping from the dance, and each direction of
        // the transport is ordered, so a ping arriving anywhere else is the
        // peer's plain one: answer it and carry on.
        match self.classify_ping() {
            PingKind::Plain => {
                self.plain_pongs.push_back(payload);
                return Ok(None);
            },
            PingKind::Illegal => return Err(ErrorKind::UnexpectedPing(payload)),
            PingKind::Probe => {},
        }
        if self.pong.is_some() {
            return Err(ErrorKind::UnexpectedPing(payload));
        }
        match self.state {
            // The opening exchange: the peer's ping beat ours out the door.
            // Sending our own is then the last thing before data resumes.
            ProbeState::SendPing { .. } => {
                self.pong = Some(payload);
                self.state = ProbeState::SendPing {
                    resume: true,
                    peer_pinged: true,
                    opening: true,
                };
                Ok(None)
            },
            ProbeState::AwaitPong { opening, resumed, rtt, payload: ours, sent_at, .. } => match rtt {
                Some(rtt) => {
                    self.pong = Some(payload);
                    Ok(self.finish(rtt, resumed))
                },
                // The two halves of the opening exchange are independent, so
                // this may land before our pong.
                None if opening => {
                    self.pong = Some(payload);
                    self.state = ProbeState::AwaitPong {
                        payload: ours,
                        sent_at,
                        resumed,
                        peer_pinged: true,
                        rtt,
                        opening: true,
                    };
                    Ok(None)
                },
                None => Err(ErrorKind::UnexpectedPing(payload)),
            },
            // The peer's probe ping arrived over the drained link: pong it,
            // send our own probe ping, and resume data right after.
            ProbeState::AwaitPing => {
                self.last_dirty = match self.clear_at {
                    Some(at) => Some(now.since(at)),
                    None => None,
                };
                self.pong = Some(payload);
                self.state = ProbeState::SendPing {
                    resume: true,
                    peer_pinged: true,
                    opening: false,
                };
                Ok(None)
            },
            _ => Err(ErrorKind::UnexpectedPing(payload)),
        }
    }

    /// Handles an inbound `PING` response.
    pub fn on_pong(&mut self, payload: PingPayload, now: Timestamp) -> (r: Result<
        Option<ProbeDone>,
        ErrorKind,
    >)
        requires
            old(self)@.valid(),
        ensures
            final(self)@.valid(),
            r is Ok <==> old(self)@.accepts_pong(payload, now),
            r matches Ok(done) ==> done == old(self)@.completed_by_pong(payload, now) && final(self)@ == old(self)@.after_pong(payload, now),
            r matches Err(e) ==> e == ErrorKind::UnexpectedPing(payload) && final(self)@ == old(self)@,
    {
        match self.ping.on_pong(payload, now) {
            DirtyPong::Matched(rtt) => {
                self.last_dirty = Some(rtt);
                self.events.push_back(ProbeEvent::PingAnswered { rtt });
                return Ok(None);
            },
            // Answering a ping we gave up on, or one dropped for a probe.
            DirtyPong::Forgotten => return Ok(None),
            DirtyPong::Other => {},
        }
        match self.state {
            ProbeState::AwaitPong {
                payload: expected,
                sent_at,
                resumed,
                peer_pinged,
                rtt: None,
                opening,
            } => if expected != payload {
                Err(ErrorKind::UnexpectedPing(payload))
            } else if peer_pinged {
                Ok(self.finish(now.since(sent_at), resumed))
            } else {
                // The peer's own probe ping is still on its way; hold the pause
                // until we have answered it.
                self.state = ProbeState::AwaitPong {
                    payload: expected,
                    sent_at,
                    resumed,
                    peer_pinged,
                    rtt: Some(now.since(sent_at)),
                    opening,
                };
                Ok(None)
            },
            _ => Err(ErrorKind::UnexpectedPing(payload)),
        }
    }

    /// Next frame to send, if any, and whether sending it resumes data flow.
    ///
    /// A probe `PING` carries the `fresh` payload.
    pub fn next_frame(&mut self, now: Timestamp, fresh: PingPayload) -> (r: Option<
        (ProbeFrame, bool),
    >)
        requires
            old(self)@.valid(),
        ensures
            final(self)@.valid(),
            r == old(self)@.next_frame(fresh),
            final(self)@ == old(self)@.after_frame(now, fresh),
    {
        if let Some(payload) = self.pong.take() {
            // In the opening exchange the pong we owe the peer is the last
            // frame that must precede our data, so the pause lifts without
            // waiting for our pong.
            let resume = match self.state {
                ProbeState::AwaitPong {
                    payload: ours,
                    sent_at,
                    resumed: false,
                    peer_pinged,
                    rtt,
                    opening: true,
                } => {
                    self.state = ProbeState::AwaitPong {
                        payload: ours,
                        sent_at,
                        resumed: true,
                        peer_pinged,
                        rtt,
                        opening: true,
                    };
                    true
                },
                _ => false,
            };
            return Some((ProbeFrame::Pong(payload), resume));
        }
        if let Some(payload) = self.plain_pongs.pop_front() {
            proof {
                assert(self@.plain_pongs =~= old(self)@.plain_pongs.drop_first());
            }
            return Some((ProbeFrame::Pong(payload), false));
        }
        if let Some(payload) = self.ping.take_frame(now) {
            self.events.push_back(ProbeEvent::PingSent);
            return Some((ProbeFrame::Ping(payload), false));
        }
        match self.state {
            ProbeState::SendClear { syn, next } => {
                if syn {
                    self.clear_at = Some(now);
                }
                self.state = match next {
                    AfterClear::AwaitClear { collided } => ProbeState::AwaitClear { collided },
                    AfterClear::AwaitPing => ProbeState::AwaitPing,
                };
                Some((ProbeFrame::Clear(syn), false))
            },
            ProbeState::SendPing { resume, peer_pinged, opening } => {
                self.state = ProbeState::AwaitPong {
                    payload: fresh,
                    sent_at: now,
                    resumed: resume,
                    peer_pinged,
                    rtt: None,
                    opening,
                };
                Some((ProbeFrame::Ping(fresh), resume))
            },
            _ => None,
        }
    }
}

} // verus!
