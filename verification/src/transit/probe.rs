//! The link-clearing probe: a round trip no queue can inflate.
//!
//! Sizing a window from a loaded round trip runs away, since a bigger window
//! queues more. Draining the link is the only way to see the path's own cost,
//! and it works because the frames travel in the same ordered stream as the
//! data. This end pauses its data output, so `CLEAR_LINK` leaves behind
//! everything already queued and cannot arrive until the forward path has
//! emptied. The peer pauses in turn, so its `CLEAR_ACK` cannot arrive until the
//! reverse path has emptied too. Only then is the `PING` timed, over a link with
//! nothing in it.
//!
//! The next exchange starts at a fixed multiple of how long the last one took,
//! which holds the cost of probing to a bounded share of the connection's time
//! on any link. Only one end probes; it reports what it measured in a
//! `CLEAN_RTT` frame and both ends size from it.
//!
//! An exchange can fail in two ways. If both ends are configured as
//! [`Role::Initiator`], an initiator that receives a `CLEAR_LINK` fails the
//! connection. If the peer never answers, the exchange is given up on at its
//! deadline and output resumes.

use vstd::prelude::*;

use super::frame::{Frame, TransitError};
use crate::time::{capped, saturated, span, TimeSpan, Timestamp};

verus! {

/// How long an exchange may take before it is given up on, in nanoseconds.
pub const EXCHANGE_DEADLINE: u128 = 30_000_000_000;

/// Shortest gap between exchanges, whatever the multiplier says, in nanoseconds.
///
/// Only there to keep a path with a microsecond round trip from probing in a
/// tight loop.
pub const MIN_SPACING: u128 = 100_000_000;

/// Longest gap between exchanges, whatever the multiplier says, in nanoseconds.
///
/// Half the delay base's memory. The probe is what re-establishes that base, and
/// a base that outlives its last clean sample lets a standing queue become the
/// base.
pub const MAX_SPACING: u128 = 30_000_000_000;

/// Which end pays for the probe.
#[derive(Clone, Copy, Debug, PartialEq, Eq, Structural)]
pub enum Role {
    /// Schedules the exchanges, times the `PING`, and reports what it measured.
    /// Exactly one end of a connection must be this.
    Initiator,
    /// Answers exchanges the peer opens, and sizes from the round trip it
    /// reports.
    Responder,
}

/// Where an exchange stands.
#[derive(Clone, Copy, Debug, PartialEq, Eq, Structural)]
pub enum State {
    /// Nothing in flight; data output runs.
    Idle,
    /// We paused and sent `CLEAR_LINK`.
    AwaitingAck {
        /// Number of the exchange.
        seq: u32,
    },
    /// Both ends are paused and the link is drained. Timing the `PING`.
    AwaitingPong {
        /// Number of the exchange.
        seq: u32,
        /// When the `PING` was sent.
        sent_at: Timestamp,
    },
    /// The peer is probing us. Paused until we answer its `PING`.
    Responding,
}

/// What the connection should do about a frame the probe just saw.
#[derive(Clone, Copy, Debug, PartialEq, Eq, Structural)]
pub struct Outcome {
    /// A frame to put on the wire.
    pub reply: Option<Frame>,
    /// Whether an exchange just ended, so data output resumes and every clock
    /// the pause disturbed should restart.
    pub finished: bool,
}

/// An exchange that ended and whose successor has not been scheduled yet.
#[derive(Clone, Copy, Debug, PartialEq, Eq, Structural)]
pub struct Finished {
    /// When it ended.
    pub at: Timestamp,
    /// How long it took.
    pub took: TimeSpan,
}

/// One end's part in the probe.
#[derive(Clone, Copy, Debug, PartialEq, Eq, Structural)]
pub struct Probe {
    /// Where the exchange stands.
    pub state: State,
    /// Number of the last exchange this end opened.
    pub seq: u32,
    /// While idle, when the next exchange is due. During an exchange, when it
    /// has taken too long - the same timer does both jobs because the two never
    /// overlap.
    pub timer: Timestamp,
    /// When the exchange in progress began.
    pub paused_since: Timestamp,
    /// The gap scheduled after the last exchange.
    pub interval: TimeSpan,
    /// The last exchange to end, until the gap after it has been chosen.
    pub unspaced: Option<Finished>,
    /// Which end this is.
    pub role: Role,
    /// Whether exchanges are to be opened at all.
    pub wanted: bool,
    /// The last round trip measured over a drained link.
    pub clean_rtt: Option<TimeSpan>,
    /// Exchanges completed.
    pub completed: u64,
    /// Exchanges given up on for want of an answer.
    pub abandoned: u64,
}

/// `x` held between `low` and `high`.
pub open spec fn held_between(x: int, low: int, high: int) -> int {
    if x < low {
        low
    } else if x > high {
        high
    } else {
        x
    }
}

/// A round trip in whole microseconds, held to what a frame can carry.
pub open spec fn reported_micros(rtt: TimeSpan) -> u32 {
    if rtt.nanos / 1_000 > u32::MAX {
        u32::MAX
    } else {
        (rtt.nanos / 1_000) as u32
    }
}

impl Outcome {
    /// Nothing to send, and no exchange ended.
    pub open spec fn nothing() -> Self {
        Outcome { reply: None, finished: false }
    }
}

impl Probe {
    /// Whether data output is held back for an exchange in progress.
    pub open spec fn pausing(self) -> bool {
        !(self.state is Idle)
    }

    /// The probe once it has entered an exchange at `now`.
    pub open spec fn entered(self, state: State, now: Timestamp) -> Self {
        Probe {
            state,
            paused_since: now,
            timer: Timestamp { nanos: capped(now.nanos + EXCHANGE_DEADLINE) },
            ..self
        }
    }

    /// The probe once its exchange has ended at `now`.
    pub open spec fn left(self, now: Timestamp) -> Self {
        Probe {
            state: State::Idle,
            unspaced: Some(Finished { at: now, took: span(self.paused_since, now) }),
            ..self
        }
    }

    /// Whether this end opens an exchange at `now`.
    pub open spec fn due(self, now: Timestamp) -> bool {
        self.state is Idle && self.role is Initiator && self.wanted && self.unspaced is None
            && now.nanos >= self.timer.nanos
    }

    /// Whether the exchange in progress has overrun its deadline at `now`.
    pub open spec fn overrun(self, now: Timestamp) -> bool {
        self.pausing() && now.nanos >= self.timer.nanos
    }

    /// Number of the next exchange this end opens.
    pub open spec fn next_seq(self) -> u32 {
        if self.seq == u32::MAX {
            0
        } else {
            (self.seq + 1) as u32
        }
    }

    /// The probe once the clock has been advanced to `now`.
    pub open spec fn advanced(self, now: Timestamp) -> Self {
        if self.overrun(now) {
            (Probe { abandoned: saturated(self.abandoned + 1), ..self }).left(now)
        } else if self.due(now) {
            (Probe { seq: self.next_seq(), ..self }).entered(
                State::AwaitingAck { seq: self.next_seq() },
                now,
            )
        } else {
            self
        }
    }

    /// The frame that an advance of the clock to `now` sends.
    pub open spec fn opens(self, now: Timestamp) -> Option<Frame> {
        if self.due(now) {
            Some(Frame::ClearLink(self.next_seq()))
        } else {
            None
        }
    }

    /// The fault in receiving `frame`: only an initiator sends `CLEAR_LINK`, and
    /// there is meant to be one.
    pub open spec fn refuses(self, frame: Frame) -> bool {
        frame is ClearLink && self.role is Initiator
    }

    /// Whether `frame` ends the exchange in progress.
    pub open spec fn ends_with(self, frame: Frame) -> bool {
        match frame {
            Frame::Ping(_) => self.state is Responding,
            Frame::Pong(seq) => self.state matches State::AwaitingPong { seq: ours, .. } && ours
                == seq,
            _ => false,
        }
    }

    /// Whether `frame` is the receipt the exchange in progress waits for.
    pub open spec fn drained_by(self, frame: Frame) -> bool {
        frame matches Frame::ClearAck(seq) && self.state == (State::AwaitingAck { seq })
    }

    /// The frame that answers `frame`.
    pub open spec fn reply_to(self, frame: Frame, now: Timestamp) -> Option<Frame> {
        match frame {
            Frame::ClearLink(seq) => Some(Frame::ClearAck(seq)),
            Frame::ClearAck(seq) => if self.drained_by(frame) {
                Some(Frame::Ping(seq))
            } else {
                None
            },
            Frame::Ping(seq) => if self.ends_with(frame) {
                Some(Frame::Pong(seq))
            } else {
                None
            },
            Frame::Pong(_) => if self.ends_with(frame) {
                Some(Frame::CleanRtt(reported_micros(span(self.state->sent_at, now))))
            } else {
                None
            },
            _ => None,
        }
    }

    /// The probe after an acceptable `frame` at `now`.
    pub open spec fn received(self, frame: Frame, now: Timestamp) -> Self {
        match frame {
            Frame::ClearLink(_) => self.entered(State::Responding, now),
            Frame::ClearAck(seq) => if self.drained_by(frame) {
                Probe { state: State::AwaitingPong { seq, sent_at: now }, ..self }
            } else {
                self
            },
            Frame::Ping(_) => if self.ends_with(frame) {
                self.left(now)
            } else {
                self
            },
            Frame::Pong(_) => if self.ends_with(frame) {
                (Probe {
                    clean_rtt: Some(span(self.state->sent_at, now)),
                    completed: saturated(self.completed + 1),
                    ..self
                }).left(now)
            } else {
                self
            },
            Frame::CleanRtt(micros) => Probe {
                clean_rtt: Some(TimeSpan { nanos: capped(micros * 1_000) }),
                ..self
            },
            _ => self,
        }
    }

    /// What the connection should do about an acceptable `frame`.
    pub open spec fn outcome_of(self, frame: Frame, now: Timestamp) -> Outcome {
        Outcome { reply: self.reply_to(frame, now), finished: self.ends_with(frame) }
    }

    /// The probe once the gap after its last exchange has been chosen.
    pub open spec fn spaced(self, gap: TimeSpan) -> Self {
        match self.unspaced {
            Some(finished) => {
                let interval = held_between(
                    gap.nanos as int,
                    MIN_SPACING as int,
                    MAX_SPACING as int,
                );
                Probe {
                    interval: TimeSpan { nanos: interval as u128 },
                    timer: if self.pausing() {
                        self.timer
                    } else {
                        Timestamp { nanos: capped(finished.at.nanos + interval) }
                    },
                    unspaced: None,
                    ..self
                }
            },
            None => self,
        }
    }

    /// The probe of a connection that starts at `now`.
    ///
    /// The link is empty before any data flows, so the first exchange is due at
    /// once: it is both the cheapest one and the one the connection's ramp needs.
    pub fn new(role: Role, wanted: bool, now: Timestamp) -> (r: Self)
        ensures
            r == (Probe {
                state: State::Idle,
                seq: 0,
                timer: now,
                paused_since: now,
                interval: TimeSpan { nanos: 0 },
                unspaced: None,
                role,
                wanted,
                clean_rtt: None,
                completed: 0,
                abandoned: 0,
            }),
    {
        Probe {
            state: State::Idle,
            seq: 0,
            timer: now,
            paused_since: now,
            interval: TimeSpan::zero(),
            unspaced: None,
            role,
            wanted,
            clean_rtt: None,
            completed: 0,
            abandoned: 0,
        }
    }

    /// Whether data output is held back for an exchange in progress.
    pub fn paused(&self) -> (r: bool)
        ensures
            r == self.pausing(),
    {
        match self.state {
            State::Idle => false,
            _ => true,
        }
    }

    /// The last round trip measured over a drained link, once one has been.
    pub fn clean_rtt(&self) -> (r: Option<TimeSpan>)
        ensures
            r == self.clean_rtt,
    {
        self.clean_rtt
    }

    /// Exchanges completed.
    pub fn completed(&self) -> (r: u64)
        ensures
            r == self.completed,
    {
        self.completed
    }

    /// Exchanges given up on for want of an answer.
    pub fn abandoned(&self) -> (r: u64)
        ensures
            r == self.abandoned,
    {
        self.abandoned
    }

    /// The gap the schedule chose after the last exchange.
    pub fn interval(&self) -> (r: TimeSpan)
        ensures
            r == self.interval,
    {
        self.interval
    }

    /// When the clock has to be advanced next, if the probe waits for anything.
    pub fn next_wake(&self) -> (r: Option<Timestamp>)
        ensures
            r == (if self.pausing() || (self.role is Initiator && self.wanted && self.unspaced
                is None) {
                Some(self.timer)
            } else {
                None
            }),
    {
        let scheduled = match (self.role, self.unspaced) {
            (Role::Initiator, None) => self.wanted,
            _ => false,
        };
        if self.paused() || scheduled {
            Some(self.timer)
        } else {
            None
        }
    }

    /// Advances the clock: opens an exchange if one is due, returning the frame
    /// that starts it, or gives up on one that has overrun its deadline.
    ///
    /// Both ends call this, so a responder left waiting for a `PING` that never
    /// comes also finds its way out.
    pub fn poll(&mut self, now: Timestamp) -> (r: Option<Frame>)
        ensures
            *final(self) == old(self).advanced(now),
            r == old(self).opens(now),
    {
        if self.paused() {
            if now.nanos >= self.timer.nanos {
                self.abandoned = self.abandoned.saturating_add(1);
                self.finish(now);
            }
            return None;
        }
        let scheduled = match (self.role, self.unspaced) {
            (Role::Initiator, None) => self.wanted,
            _ => false,
        };
        if !scheduled || now.nanos < self.timer.nanos {
            return None;
        }
        self.seq = self.seq.wrapping_add(1);
        self.pause(State::AwaitingAck { seq: self.seq }, now);
        Some(Frame::ClearLink(self.seq))
    }

    /// Feeds the state machine a frame that belongs to it.
    pub fn on_frame(&mut self, frame: Frame, now: Timestamp) -> (r: Result<Outcome, TransitError>)
        ensures
            old(self).refuses(frame) ==> r == Err::<Outcome, TransitError>(
                TransitError::TwoInitiators,
            ) && *final(self) == *old(self),
            !old(self).refuses(frame) ==> r == Ok::<Outcome, TransitError>(
                old(self).outcome_of(frame, now),
            ) && *final(self) == old(self).received(frame, now),
    {
        let idle = Outcome { reply: None, finished: false };
        let outcome = match frame {
            Frame::ClearLink(seq) => {
                match self.role {
                    Role::Initiator => {
                        return Err(TransitError::TwoInitiators);
                    },
                    Role::Responder => {
                        self.pause(State::Responding, now);
                        Outcome { reply: Some(Frame::ClearAck(seq)), finished: false }
                    },
                }
            },
            // Both directions have drained. Time the ping across the gap.
            Frame::ClearAck(seq) => {
                match self.state {
                    State::AwaitingAck { seq: ours } => {
                        if ours == seq {
                            self.state = State::AwaitingPong { seq, sent_at: now };
                            Outcome { reply: Some(Frame::Ping(seq)), finished: false }
                        } else {
                            idle
                        }
                    },
                    _ => idle,
                }
            },
            Frame::Ping(seq) => {
                match self.state {
                    State::Responding => {
                        self.finish(now);
                        Outcome { reply: Some(Frame::Pong(seq)), finished: true }
                    },
                    _ => idle,
                }
            },
            Frame::Pong(seq) => {
                match self.state {
                    State::AwaitingPong { seq: ours, sent_at } => {
                        if ours == seq {
                            let rtt = now.since(sent_at);
                            self.clean_rtt = Some(rtt);
                            self.completed = self.completed.saturating_add(1);
                            self.finish(now);
                            let micros: u128 = rtt.as_micros();
                            let reported: u32 = if micros > u32::MAX as u128 {
                                u32::MAX
                            } else {
                                micros as u32
                            };
                            Outcome { reply: Some(Frame::CleanRtt(reported)), finished: true }
                        } else {
                            idle
                        }
                    },
                    _ => idle,
                }
            },
            // The other end measured it; no exchange of ours to end.
            Frame::CleanRtt(micros) => {
                self.clean_rtt = Some(TimeSpan::from_micros(micros as u128));
                idle
            },
            _ => idle,
        };
        Ok(outcome)
    }

    /// Drops out of any exchange and opens no more, because the peer will
    /// neither finish one nor answer one.
    ///
    /// A peer closing is not a peer failing to answer, so nothing is counted as
    /// given up on.
    pub fn stop(&mut self)
        ensures
            *final(self) == (Probe { state: State::Idle, wanted: false, ..*old(self) }),
    {
        self.state = State::Idle;
        self.wanted = false;
    }

    /// The exchange whose successor waits to be scheduled, if there is one: how
    /// long it took is what the gap after it is a multiple of.
    pub fn unspaced(&self) -> (r: Option<Finished>)
        ensures
            r == self.unspaced,
    {
        self.unspaced
    }

    /// Schedules the next exchange `gap` after the last one ended, within the
    /// bounds that hold whatever the multiplier says.
    pub fn space(&mut self, gap: TimeSpan)
        ensures
            *final(self) == old(self).spaced(gap),
    {
        match self.unspaced {
            Some(finished) => {
                let nanos: u128 = if gap.nanos < MIN_SPACING {
                    MIN_SPACING
                } else if gap.nanos > MAX_SPACING {
                    MAX_SPACING
                } else {
                    gap.nanos
                };
                self.interval = TimeSpan { nanos };
                if !self.paused() {
                    self.timer = finished.at.plus(self.interval);
                }
                self.unspaced = None;
            },
            None => {},
        }
    }

    /// Enters an exchange, and starts the clock it has to finish by.
    fn pause(&mut self, state: State, now: Timestamp)
        ensures
            *final(self) == old(self).entered(state, now),
    {
        self.state = state;
        self.paused_since = now;
        self.timer = now.plus(TimeSpan { nanos: EXCHANGE_DEADLINE });
    }

    /// Resumes data output; the next exchange is scheduled at a multiple of how
    /// long this one took.
    fn finish(&mut self, now: Timestamp)
        ensures
            *final(self) == old(self).left(now),
    {
        self.state = State::Idle;
        self.unspaced = Some(Finished { at: now, took: now.since(self.paused_since) });
    }
}

/// An exchange opened by the initiator runs to its end when the peer answers,
/// both ends resume their output, and both hold the round trip that was timed.
///
/// The four readings are the initiator's and the responder's clocks as the
/// frames arrive; nothing relates the two clocks to each other.
pub proof fn exchange_completes(
    initiator: Probe,
    responder: Probe,
    opened: Timestamp,
    cleared: Timestamp,
    drained: Timestamp,
    pinged: Timestamp,
    answered: Timestamp,
)
    requires
        initiator.due(opened),
        responder.role is Responder,
        drained.nanos <= answered.nanos,
    ensures
        ({
            let seq = initiator.next_seq();
            let i1 = initiator.advanced(opened);
            let r1 = responder.received(Frame::ClearLink(seq), cleared);
            let i2 = i1.received(Frame::ClearAck(seq), drained);
            let r2 = r1.received(Frame::Ping(seq), pinged);
            let i3 = i2.received(Frame::Pong(seq), answered);
            let rtt = TimeSpan { nanos: (answered.nanos - drained.nanos) as u128 };
            let r3 = r2.received(Frame::CleanRtt(reported_micros(rtt)), pinged);
            &&& initiator.opens(opened) == Some(Frame::ClearLink(seq))
            &&& responder.reply_to(Frame::ClearLink(seq), cleared) == Some(Frame::ClearAck(seq))
            &&& i1.reply_to(Frame::ClearAck(seq), drained) == Some(Frame::Ping(seq))
            &&& r1.reply_to(Frame::Ping(seq), pinged) == Some(Frame::Pong(seq))
            &&& i2.reply_to(Frame::Pong(seq), answered) == Some(
                Frame::CleanRtt(reported_micros(rtt)),
            )
            &&& i1.pausing() && r1.pausing() && i2.pausing()
            &&& !i3.pausing() && !r2.pausing() && !r3.pausing()
            &&& i3.clean_rtt == Some(rtt)
            &&& i3.completed == saturated(initiator.completed + 1)
            &&& rtt.nanos / 1_000 <= u32::MAX ==> r3.clean_rtt == Some(
                TimeSpan { nanos: (rtt.nanos / 1_000 * 1_000) as u128 },
            )
        }),
{
}

/// Whatever state it is in, an initiator that hears another initiator fails
/// instead of answering.
pub proof fn two_initiators_are_refused(left: Probe, right: Probe, now: Timestamp)
    requires
        left.role is Initiator,
        right.opens(now) is Some,
    ensures
        left.refuses(right.opens(now).unwrap()),
{
}

/// A paused end resumes its output no later than its deadline, whatever the
/// peer does, and counts the exchange as given up on.
pub proof fn pauses_end_by_their_deadline(probe: Probe, state: State, began: Timestamp, now: Timestamp)
    requires
        !(state is Idle),
        now.nanos >= began.nanos + EXCHANGE_DEADLINE,
    ensures
        ({
            let paused = probe.entered(state, began);
            &&& paused.pausing()
            &&& !paused.advanced(now).pausing()
            &&& paused.advanced(now).abandoned == saturated(probe.abandoned + 1)
        }),
{
}

/// Exchanges are never closer together than the shortest gap, nor further apart
/// than the longest, and a gap in between is the one that was asked for.
pub proof fn exchanges_keep_their_spacing(probe: Probe, gap: TimeSpan, now: Timestamp)
    requires
        probe.state is Idle,
        probe.unspaced is Some,
        probe.unspaced.unwrap().at.nanos + MAX_SPACING <= u128::MAX,
    ensures
        ({
            let spaced = probe.spaced(gap);
            let ended = probe.unspaced.unwrap().at;
            &&& spaced.due(now) ==> now.nanos >= ended.nanos + MIN_SPACING
            &&& probe.role is Initiator && probe.wanted && now.nanos >= ended.nanos
                + MAX_SPACING ==> spaced.due(now)
            &&& MIN_SPACING <= gap.nanos <= MAX_SPACING ==> spaced.interval == gap
        }),
{
}

/// Frames that no exchange waits for change nothing but the reported round trip.
pub proof fn stray_frames_are_ignored(probe: Probe, frame: Frame, now: Timestamp)
    requires
        !(frame is ClearLink),
        !(frame is CleanRtt),
        !probe.drained_by(frame),
        !probe.ends_with(frame),
    ensures
        probe.received(frame, now) == probe,
        probe.outcome_of(frame, now) == Outcome::nothing(),
{
}

} // verus!
