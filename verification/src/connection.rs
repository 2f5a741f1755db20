//! A single multiplexed connection.

pub mod downgrade;
pub mod laws;
pub mod pass;
pub mod pings;
pub mod state;
pub mod step_laws;
pub mod streams;

use vstd::prelude::*;

use crate::config::{RammuxConfig, RammuxRole};
use crate::connection::downgrade::Downgraded;
use crate::connection::state::{unusable, Active, ConnState};
use crate::connection::streams::{
    next_slot_is_vacant, no_slots, ActiveStreams, StreamsView, IDS_PER_ROLE,
};
use crate::error::{stream_fault, ErrorKind, RammuxError, StreamError};
use crate::global_pool::GlobalPool;
use crate::header::{ControlFlags, PingPayload};
use crate::probe::{AfterClear, DirtyPingView, DirtyPingState, ProbeEvent, ProbeView};
use crate::stream::fin::FinState;
use crate::stream::waker::Wakes;
use crate::stream::SharedStreamState;
use crate::stream_id::{id_of, initiator_of, slot_value, StreamId, MAX_STREAM_ID};
use crate::time::{TimeSpan, Timestamp};
use crate::transport::frame::StreamFrame;
use crate::transport::{sample_value, Transport, TransportView};

verus! {

/// State machine of a single connection.
///
/// It decides; a driver does the I/O, holds the streams, and keeps polling.
/// Dropping it while the connection is open abruptly closes the connection and
/// all its streams. A proper end is a downgrade that ran to completion.
pub struct RammuxConnection {
    /// Where the connection stands.
    pub state: ConnState,
    /// Role of this side.
    pub role: RammuxRole,
    /// Config of this connection.
    pub config: RammuxConfig,
}

/// Where an inbound frame goes.
#[derive(Clone, Copy, Debug, PartialEq, Eq, Structural)]
pub enum Route {
    /// To a stream that is active.
    Existing,
    /// To a stream that it starts.
    New,
}

/// What the connection made of the inbound frames of one pass.
#[derive(Clone, Copy, Debug, PartialEq, Eq, Structural)]
pub enum Progress {
    /// A stream was started by the other side.
    Inbound(StreamId),
    /// The round trip machinery changed state.
    Probe(ProbeEvent),
    /// Some progress was made, but nothing meaningful to report.
    Empty,
}

/// Statistics of a connection.
#[derive(Debug, Clone, Copy, PartialEq, Eq, Structural)]
pub struct RammuxStats {
    /// Count of currently active inbound streams.
    pub inbound_streams: u32,
    /// Count of currently active outbound streams.
    pub outbound_streams: u32,
    /// Most recent clean round trip time, measured by the link-clearing probe
    /// over the drained link.
    ///
    /// Empty until the opening exchange completes. Later samples come from
    /// [`RammuxConnection::start_probe`], so a connection that never probes
    /// keeps the opening one.
    pub rtt: Option<TimeSpan>,
    /// Bytes available in the global receive window pool.
    pub available_global_recv_window: usize,
    /// Most recent loaded round trip time: the path plus both sides' standing
    /// queues.
    pub dirty_rtt: Option<TimeSpan>,
    /// Remaining in-flight credit granted to us by the peer, if the transit
    /// window is enabled.
    pub transit_send_credit: Option<u32>,
    /// Current size of the transit window we grant to the peer, if enabled.
    pub transit_recv_window: Option<u32>,
    /// Total time the sender spent stalled on a transit credit grant.
    pub transit_starved: TimeSpan,
    /// How many such stalls the sender entered.
    pub transit_starved_events: u64,
}

/// Statistics of a connection that is over.
pub open spec fn no_stats() -> RammuxStats {
    RammuxStats {
        inbound_streams: 0,
        outbound_streams: 0,
        rtt: None,
        available_global_recv_window: 0,
        dirty_rtt: None,
        transit_send_credit: None,
        transit_recv_window: None,
        transit_starved: TimeSpan { nanos: 0 },
        transit_starved_events: 0,
    }
}

impl Default for RammuxStats {
    fn default() -> (r: Self)
        ensures
            r == no_stats(),
    {
        RammuxStats {
            inbound_streams: 0,
            outbound_streams: 0,
            rtt: None,
            available_global_recv_window: 0,
            dirty_rtt: None,
            transit_send_credit: None,
            transit_recv_window: None,
            transit_starved: TimeSpan { nanos: 0 },
            transit_starved_events: 0,
        }
    }
}

/// What is wrong with a frame that no stream can take, if anything.
///
/// Streams we started ourselves the peer may only ever answer on, never open.
pub open spec fn route_fault(
    streams: StreamsView,
    role: RammuxRole,
    max_inbound: u32,
    id: StreamId,
    syn: bool,
) -> Option<Seq<char>> {
    let active = streams.contains(id, role);
    if initiator_of(id@) == role && syn {
        Some("started a new stream with an ID from the wrong pool"@)
    } else if active && syn {
        Some("started a new stream with an occupied ID"@)
    } else if !active && !syn {
        Some("sent a frame for an unknown stream"@)
    } else if syn && streams.inbound.len() == max_inbound {
        Some("started a new stream without respecting the configured limit"@)
    } else {
        None
    }
}

impl RammuxConnection {
    /// The streams and the session of a live connection are in order.
    pub open spec fn valid(&self) -> bool {
        &&& self.config.valid()
        &&& self.state matches ConnState::Active(active) ==> {
            &&& active.transport@.valid()
            &&& active.global.growth == self.config.stream_window_growth
            &&& active.streams@.valid(
                self.role,
                self.config.max_outbound_streams,
                self.config.max_inbound_streams,
            )
        }
    }

    /// The session of a live connection.
    pub open spec fn transport(&self) -> TransportView {
        self.state->Active_0.transport@
    }

    /// The streams of a live connection.
    pub open spec fn streams(&self) -> StreamsView {
        self.state->Active_0.streams@
    }

    /// What the streams of a live connection share.
    pub open spec fn global(&self) -> GlobalPool {
        self.state->Active_0.global
    }

    /// Everything about a connection but its state is the same.
    pub open spec fn same_setup(&self, other: &Self) -> bool {
        self.role == other.role && self.config == other.config
    }

    /// Creates a new connection with clean state.
    pub fn new(role: RammuxRole, config: RammuxConfig, now: Timestamp) -> (r: Self)
        requires
            config.valid(),
        ensures
            r.valid(),
            r.role == role,
            r.config == config,
            r.state is Active,
            r.transport() == TransportView::fresh(role, config, now),
            r.streams() == (StreamsView {
                outbound: no_slots(),
                inbound: Set::empty(),
                free: Seq::empty(),
            }),
            r.global() == (GlobalPool {
                available: config.global_recv_window,
                dirty_rtt: None,
                growth: config.stream_window_growth,
                send_budget: None,
                transit_blocked: false,
            }),
    {
        RammuxConnection {
            state: ConnState::Active(
                Active {
                    transport: Transport::new(role, &config, now),
                    streams: ActiveStreams::new(),
                    global: GlobalPool {
                        available: config.global_recv_window,
                        dirty_rtt: None,
                        growth: config.stream_window_growth,
                        send_budget: None,
                        transit_blocked: false,
                    },
                },
            ),
            role,
            config,
        }
    }

    /// Returns the config of this connection.
    pub fn config(&self) -> (r: &RammuxConfig)
        ensures
            *r == self.config,
    {
        &self.config
    }

    /// Returns the role of this connection.
    pub fn role(&self) -> (r: RammuxRole)
        ensures
            r == self.role,
    {
        self.role
    }

    /// Finds out where an inbound frame goes. A stream that the frame starts is
    /// active from here on.
    pub fn route(&mut self, id: StreamId, flags: ControlFlags) -> (r: Result<Route, ErrorKind>)
        requires
            old(self).valid(),
        ensures
            final(self).valid(),
            final(self).same_setup(old(self)),
            match old(self).state {
                ConnState::Active(active) => {
                    let fault = route_fault(
                        active.streams@,
                        old(self).role,
                        old(self).config.max_inbound_streams,
                        id,
                        flags.syn,
                    );
                    &&& final(self).state is Active
                    &&& final(self).transport() == active.transport@
                    &&& final(self).global() == active.global
                    &&& match fault {
                        Some(m) => {
                            &&& r matches Err(e)
                            &&& stream_fault(e, id, m)
                            &&& final(self).streams() == active.streams@
                        },
                        None => if flags.syn {
                            &&& r matches Ok(Route::New)
                            &&& final(self).streams() == (StreamsView {
                                inbound: active.streams@.inbound.insert(id@),
                                ..active.streams@
                            })
                        } else {
                            &&& r matches Ok(Route::Existing)
                            &&& final(self).streams() == active.streams@
                        },
                    }
                },
                _ => {
                    &&& r matches Err(e)
                    &&& unusable(old(self).state, e)
                    &&& final(self).state == old(self).state
                },
            },
    {
        let role = self.role;
        let max_inbound: usize = crate::safe_cast_usize(self.config.max_inbound_streams);
        let value: u32 = id.value();
        let active = match self.state.active_mut() {
            Ok(active) => active,
            Err(error) => return Err(error),
        };
        let known = active.streams.contains(id, role);
        let ours = id.initiated_by() == role;
        let message: &'static str = if ours && flags.syn {
            "started a new stream with an ID from the wrong pool"
        } else if known && flags.syn {
            "started a new stream with an occupied ID"
        } else if !known && !flags.syn {
            "sent a frame for an unknown stream"
        } else if !flags.syn {
            return Ok(Route::Existing);
        } else if active.streams.inbound_len() == max_inbound {
            "started a new stream without respecting the configured limit"
        } else {
            active.streams.start_inbound(id);
            return Ok(Route::New);
        };
        Err(ErrorKind::Stream { id, error: StreamError(message) })
    }

    /// Hands an inbound frame to its stream. Returns whether the stream is over
    /// and no longer active.
    pub fn deliver(
        &mut self,
        frame: StreamFrame,
        stream: &mut SharedStreamState,
        woken: &mut Wakes,
    ) -> (r: Result<bool, ErrorKind>)
        requires
            old(self).valid(),
            old(stream).valid(),
            frame.payload_len() <= u32::MAX,
        ensures
            final(self).valid(),
            final(stream).valid(),
            final(self).same_setup(old(self)),
            final(stream)@.inbound.borrowed() == old(stream)@.inbound.borrowed(),
            match old(self).state {
                ConnState::Active(active) => {
                    &&& final(self).state is Active
                    &&& final(self).transport() == active.transport@
                    &&& final(self).global() == active.global
                    &&& r is Ok <==> old(stream)@.accepts(frame@)
                    &&& final(woken)@ == old(woken)@ + old(stream)@.woken_by(frame@)
                    &&& r matches Err(e) ==> {
                        &&& stream_fault(e, frame.id(), old(stream)@.fault(frame@))
                        &&& final(self).streams() == active.streams@
                        &&& final(stream)@ == old(stream)@.after_fault(frame@)
                    }
                    &&& r matches Ok(over) ==> {
                        &&& final(stream)@ == old(stream)@.after(frame@)
                        &&& over == (final(stream)@.fins().sent && final(stream)@.fins().received)
                        &&& final(self).streams() == if over {
                            active.streams@.without(frame.id(), old(self).role)
                        } else {
                            active.streams@
                        }
                    }
                },
                _ => {
                    &&& r matches Err(e)
                    &&& unusable(old(self).state, e)
                    &&& final(self).state == old(self).state
                    &&& final(stream)@ == old(stream)@
                    &&& final(woken)@ == old(woken)@
                },
            },
    {
        let role = self.role;
        let active = match self.state.active_mut() {
            Ok(active) => active,
            Err(error) => return Err(error),
        };
        let id = frame.stream_id();
        match stream.received(frame, woken) {
            Err(error) => Err(ErrorKind::Stream { id, error }),
            Ok(fin_state) => {
                if fin_state.is_dead() {
                    active.streams.remove(id, role);
                }
                Ok(fin_state.is_dead())
            },
        }
    }

    /// Shows the streams what they need to see of the session, before every
    /// pass over them.
    pub fn refresh_pool(&mut self) -> (r: Result<(), ErrorKind>)
        requires
            old(self).valid(),
        ensures
            final(self).valid(),
            final(self).same_setup(old(self)),
            match old(self).state {
                ConnState::Active(active) => {
                    &&& r is Ok
                    &&& final(self).state is Active
                    &&& final(self).transport() == active.transport@
                    &&& final(self).streams() == active.streams@
                    &&& final(self).global() == (GlobalPool {
                        send_budget: active.transport@.transit_send,
                        dirty_rtt: sample_value(active.transport@.dirty_rtt),
                        ..active.global
                    })
                },
                _ => {
                    &&& r matches Err(e)
                    &&& unusable(old(self).state, e)
                    &&& final(self).state == old(self).state
                },
            },
    {
        let active = match self.state.active_mut() {
            Ok(active) => active,
            Err(error) => return Err(error),
        };
        active.global.send_budget = active.transport.send_budget();
        active.global.dirty_rtt = match active.transport.dirty_rtt() {
            Some(rtt) => Some(rtt.value),
            None => None,
        };
        Ok(())
    }

    /// Accounts for a pass over the streams that ended with nothing to send.
    ///
    /// `writable` says whether the transport was ready to take a frame. If it
    /// was, and at least one stream had payload ready and only the spent
    /// transit window held it back, the sender is stalled on a credit grant.
    pub fn note_send_pass(&mut self, writable: bool, now: Timestamp) -> (r: Result<(), ErrorKind>)
        requires
            old(self).valid(),
        ensures
            final(self).valid(),
            final(self).same_setup(old(self)),
            match old(self).state {
                ConnState::Active(active) => {
                    &&& r is Ok
                    &&& final(self).state is Active
                    &&& final(self).transport() == active.transport@.passed(
                        writable && active.global.transit_blocked,
                        now,
                    )
                    &&& final(self).streams() == active.streams@
                    &&& final(self).global() == active.global
                },
                _ => {
                    &&& r matches Err(e)
                    &&& unusable(old(self).state, e)
                    &&& final(self).state == old(self).state
                },
            },
    {
        let active = match self.state.active_mut() {
            Ok(active) => active,
            Err(error) => return Err(error),
        };
        let blocked = writable && active.global.transit_blocked;
        active.transport.note_send_pass(blocked, now);
        Ok(())
    }

    /// Accounts for a frame that a stream wants on the wire. Returns the frame
    /// to encode, or [`None`] where nobody is left to read it.
    pub fn send(&mut self, frame: StreamFrame, now: Timestamp) -> (r: Result<
        Option<StreamFrame>,
        ErrorKind,
    >)
        requires
            old(self).valid(),
        ensures
            final(self).valid(),
            final(self).same_setup(old(self)),
            match old(self).state {
                ConnState::Active(active) => {
                    &&& final(self).state is Active
                    &&& final(self).streams() == active.streams@
                    // Payload that moves was not held back.
                    &&& final(self).global() == (GlobalPool {
                        transit_blocked: active.global.transit_blocked && frame.payload_len() == 0,
                        ..active.global
                    })
                    &&& r is Ok <==> active.transport@.terminated || active.transport@.affords(
                        frame@,
                    )
                    &&& r matches Err(e) ==> e is Transit && final(self).transport()
                        == active.transport@
                    &&& r matches Ok(out) ==> if active.transport@.terminated {
                        out is None && final(self).transport() == active.transport@
                    } else {
                        out == Some(frame) && final(self).transport()
                            == active.transport@.after_send(frame@, now)
                    }
                },
                _ => {
                    &&& r matches Err(e)
                    &&& unusable(old(self).state, e)
                    &&& final(self).state == old(self).state
                },
            },
    {
        let active = match self.state.active_mut() {
            Ok(active) => active,
            Err(error) => return Err(error),
        };
        if let StreamFrame::Data(data) = &frame {
            if !data.payload.is_empty() {
                active.global.transit_blocked = false;
            }
        }
        active.transport.start_send(frame, now)
    }

    /// Lets go of a stream whose last frame is out, if that frame made it dead.
    /// Returns whether it did.
    pub fn retire(&mut self, id: StreamId, fin_state: FinState) -> (r: Result<bool, ErrorKind>)
        requires
            old(self).valid(),
        ensures
            final(self).valid(),
            final(self).same_setup(old(self)),
            match old(self).state {
                ConnState::Active(active) => {
                    &&& r == Ok::<bool, ErrorKind>(fin_state.sent && fin_state.received)
                    &&& final(self).state is Active
                    &&& final(self).transport() == active.transport@
                    &&& final(self).global() == active.global
                    &&& final(self).streams() == if fin_state.sent && fin_state.received {
                        active.streams@.without(id, old(self).role)
                    } else {
                        active.streams@
                    }
                },
                _ => {
                    &&& r matches Err(e)
                    &&& unusable(old(self).state, e)
                    &&& final(self).state == old(self).state
                },
            },
    {
        let role = self.role;
        let active = match self.state.active_mut() {
            Ok(active) => active,
            Err(error) => return Err(error),
        };
        if fin_state.is_dead() {
            active.streams.remove(id, role);
        }
        Ok(fin_state.is_dead())
    }

    /// Whether all streams have to be polled again: a finished probe or an
    /// arrived credit grant unblocks senders that only the driver can wake.
    pub fn take_unblocked(&mut self) -> (r: Result<bool, ErrorKind>)
        requires
            old(self).valid(),
        ensures
            final(self).valid(),
            final(self).same_setup(old(self)),
            match old(self).state {
                ConnState::Active(active) => {
                    &&& r == Ok::<bool, ErrorKind>(active.transport@.unblocked)
                    &&& final(self).state is Active
                    &&& final(self).transport() == (TransportView {
                        unblocked: false,
                        ..active.transport@
                    })
                    &&& final(self).streams() == active.streams@
                    &&& final(self).global() == (GlobalPool {
                        transit_blocked: active.global.transit_blocked
                            && !active.transport@.unblocked,
                        ..active.global
                    })
                },
                _ => {
                    &&& r matches Err(e)
                    &&& unusable(old(self).state, e)
                    &&& final(self).state == old(self).state
                },
            },
    {
        let active = match self.state.active_mut() {
            Ok(active) => active,
            Err(error) => return Err(error),
        };
        let unblocked = active.transport.take_unblocked();
        if unblocked {
            active.global.transit_blocked = false;
        }
        Ok(unblocked)
    }

    /// Settles what a pass reports, given what its inbound half came to.
    ///
    /// A new stream outranks the transitions of the round trip machinery: it is
    /// reported now, and the events keep until the next pass.
    pub fn report(&mut self, inbound: Option<Progress>) -> (r: Result<Option<Progress>, ErrorKind>)
        requires
            old(self).valid(),
        ensures
            final(self).valid(),
            final(self).same_setup(old(self)),
            match old(self).state {
                ConnState::Active(active) => {
                    let events = active.transport@.probe.events;
                    let new_stream = inbound is Some && inbound->Some_0 is Inbound;
                    &&& final(self).state is Active
                    &&& final(self).streams() == active.streams@
                    &&& final(self).global() == active.global
                    &&& r == Ok::<Option<Progress>, ErrorKind>(
                        if new_stream || events.len() == 0 {
                            inbound
                        } else {
                            Some(Progress::Probe(events[0]))
                        },
                    )
                    &&& final(self).transport() == if new_stream || events.len() == 0 {
                        active.transport@
                    } else {
                        (TransportView {
                            probe: (ProbeView {
                                events: events.drop_first(),
                                ..active.transport@.probe
                            }),
                            ..active.transport@
                        })
                    }
                },
                _ => {
                    &&& r matches Err(e)
                    &&& unusable(old(self).state, e)
                    &&& final(self).state == old(self).state
                },
            },
    {
        let active = match self.state.active_mut() {
            Ok(active) => active,
            Err(error) => return Err(error),
        };
        if let Some(Progress::Inbound(_)) = inbound {
            return Ok(inbound);
        }
        match active.transport.next_event() {
            Some(event) => Ok(Some(Progress::Probe(event))),
            None => Ok(inbound),
        }
    }

    /// Takes in the error that a pass ended with: anything but misuse of the
    /// connection poisons it.
    pub fn fail(&mut self, error: &RammuxError)
        requires
            old(self).valid(),
        ensures
            final(self).valid(),
            final(self).same_setup(old(self)),
            final(self).state == if error.0 is AlreadyDowngraded || error.0 is Poisoned {
                old(self).state
            } else {
                ConnState::Poisoned
            },
    {
        if !error.is_user() {
            self.state = ConnState::Poisoned;
        }
    }

    /// Initiates a link-clearing probe, measuring the clean round trip.
    ///
    /// Both sides pause data output, drain the link with a `CLEAR_LINK`
    /// exchange, and time a `PING` over it.
    ///
    /// Returns whether the probe was started. It is refused (`false`) while
    /// another probe is running - including one the peer initiated, and the
    /// opening exchange - and after the peer has terminated the connection. A
    /// plain ping in flight does not refuse it: the probe takes the link and
    /// gives that ping up.
    pub fn start_probe(&mut self) -> (r: Result<bool, RammuxError>)
        requires
            old(self).valid(),
        ensures
            final(self).valid(),
            final(self).same_setup(old(self)),
            match old(self).state {
                ConnState::Active(active) => {
                    let v = active.transport@;
                    let started = !v.terminated && v.probe.state is Idle;
                    &&& r == Ok::<bool, RammuxError>(started)
                    &&& final(self).state is Active
                    &&& final(self).streams() == active.streams@
                    &&& final(self).global() == active.global
                    &&& final(self).transport() == if started {
                        (TransportView {
                            probe: v.probe.begun(true, AfterClear::AwaitClear { collided: false }),
                            ..v
                        })
                    } else {
                        v
                    }
                },
                _ => {
                    &&& r matches Err(e)
                    &&& unusable(old(self).state, e.0)
                    &&& final(self).state == old(self).state
                },
            },
    {
        match self.state.active_mut() {
            Ok(active) => Ok(active.transport.init_probe()),
            Err(error) => Err(RammuxError(error)),
        }
    }

    /// Sends a plain `PING` carrying `payload`, measuring the loaded round
    /// trip.
    ///
    /// Returns whether the ping was queued. It is refused (`false`) while a
    /// probe is running, since a `PING` there belongs to the dance, while
    /// another plain ping is still outstanding, and after the peer has
    /// terminated the connection.
    pub fn send_ping(&mut self, payload: PingPayload) -> (r: Result<bool, RammuxError>)
        requires
            old(self).valid(),
        ensures
            final(self).valid(),
            final(self).same_setup(old(self)),
            match old(self).state {
                ConnState::Active(active) => {
                    let v = active.transport@;
                    let queued = !v.terminated && v.probe.state is Idle && v.probe.ping.state is Idle;
                    &&& r == Ok::<bool, RammuxError>(queued)
                    &&& final(self).state is Active
                    &&& final(self).streams() == active.streams@
                    &&& final(self).global() == active.global
                    &&& final(self).transport() == if queued {
                        (TransportView {
                            probe: (ProbeView {
                                ping: (DirtyPingView {
                                    state: DirtyPingState::Queued { payload },
                                    ..v.probe.ping
                                }),
                                ..v.probe
                            }),
                            ..v
                        })
                    } else {
                        v
                    }
                },
                _ => {
                    &&& r matches Err(e)
                    &&& unusable(old(self).state, e.0)
                    &&& final(self).state == old(self).state
                },
            },
    {
        match self.state.active_mut() {
            Ok(active) => Ok(active.transport.init_ping(payload)),
            Err(error) => Err(RammuxError(error)),
        }
    }

    /// Gives up on the outstanding plain `PING`, freeing [`Self::send_ping`] to
    /// run again.
    ///
    /// Returns whether one was in flight. A `PONG` that arrives for it
    /// afterwards is ignored rather than failing the connection.
    pub fn abandon_ping(&mut self) -> (r: Result<bool, RammuxError>)
        requires
            old(self).valid(),
        ensures
            final(self).valid(),
            final(self).same_setup(old(self)),
            match old(self).state {
                ConnState::Active(active) => {
                    let v = active.transport@;
                    &&& r == Ok::<bool, RammuxError>(v.probe.ping.state is Awaiting)
                    &&& final(self).state is Active
                    &&& final(self).streams() == active.streams@
                    &&& final(self).global() == active.global
                    &&& final(self).transport() == (TransportView {
                        probe: v.probe.without_ping(),
                        ..v
                    })
                },
                _ => {
                    &&& r matches Err(e)
                    &&& unusable(old(self).state, e.0)
                    &&& final(self).state == old(self).state
                },
            },
    {
        match self.state.active_mut() {
            Ok(active) => Ok(active.transport.abandon_ping()),
            Err(error) => Err(RammuxError(error)),
        }
    }

    /// Attempts to start a new outbound stream.
    ///
    /// If the configured outbound streams limit is currently exhausted, returns
    /// [`None`].
    pub fn try_start_outbound(&mut self) -> (r: Result<Option<StreamId>, RammuxError>)
        requires
            old(self).valid(),
        ensures
            final(self).valid(),
            final(self).same_setup(old(self)),
            match old(self).state {
                ConnState::Active(active) => {
                    let v = active.streams@;
                    &&& final(self).state is Active
                    &&& final(self).transport() == active.transport@
                    &&& final(self).global() == active.global
                    &&& if v.outbound.len() >= old(self).config.max_outbound_streams
                        || v.outbound.len() >= IDS_PER_ROLE {
                        &&& r matches Ok(None)
                        &&& final(self).streams() == v
                    } else {
                        &&& r matches Ok(Some(id))
                        &&& id@ == slot_value(v.next(), old(self).role)
                        &&& id.valid()
                        &&& !v.contains(id, old(self).role)
                        &&& final(self).streams() == v.with_outbound(id)
                    }
                },
                _ => {
                    &&& r matches Err(e)
                    &&& unusable(old(self).state, e.0)
                    &&& final(self).state == old(self).state
                },
            },
    {
        let role = self.role;
        let max_outbound: usize = crate::safe_cast_usize(self.config.max_outbound_streams);
        let active = match self.state.active_mut() {
            Ok(active) => active,
            Err(error) => return Err(RammuxError(error)),
        };
        if active.streams.outbound_len() >= max_outbound {
            return Ok(None);
        }
        let ghost before = active.streams@;
        match StreamId::from_slab_idx(active.streams.vacant_slot(), role) {
            None => {
                proof {
                    next_slot_is_vacant(before, id_of(0));
                }
                Ok(None)
            },
            Some(id) => {
                proof {
                    next_slot_is_vacant(before, id);
                }
                active.streams.start_outbound(id);
                Ok(Some(id))
            },
        }
    }

    /// Starts the downgrade procedure of this connection. `term_received` says
    /// whether it was the peer who began.
    pub fn downgrade(&mut self, term_received: bool) -> (r: Result<Downgraded, RammuxError>)
        requires
            old(self).valid(),
        ensures
            final(self).valid(),
            final(self).same_setup(old(self)),
            match old(self).state {
                ConnState::Active(active) => {
                    &&& final(self).state is Downgraded
                    &&& r matches Ok(downgraded)
                    &&& downgraded.starts(active.transport, term_received)
                },
                _ => {
                    &&& r matches Err(e)
                    &&& unusable(old(self).state, e.0)
                    &&& final(self).state == old(self).state
                },
            },
    {
        match self.state.downgrade(term_received) {
            Ok(downgraded) => Ok(downgraded),
            Err(error) => Err(RammuxError(error)),
        }
    }

    /// Returns current statistics of this connection.
    pub fn stats(&self, now: Timestamp) -> (r: RammuxStats)
        requires
            self.valid(),
        ensures
            match self.state {
                ConnState::Active(active) => {
                    let v = active.transport@;
                    &&& r.inbound_streams == active.streams@.inbound.len()
                    &&& r.outbound_streams == active.streams@.outbound.len()
                    &&& r.rtt == sample_value(v.clean_rtt)
                    &&& r.dirty_rtt == sample_value(v.dirty_rtt)
                    &&& r.available_global_recv_window == active.global.available
                    &&& r.transit_send_credit == v.transit_send
                    &&& r.transit_recv_window == match v.transit_recv {
                        Some(recv) => Some(recv.current),
                        None => None,
                    }
                    &&& r.transit_starved == v.passed(false, now).stalled_total
                    &&& r.transit_starved_events == v.stalled_events
                },
                _ => r == no_stats(),
            },
    {
        match self.state.active() {
            Err(_) => RammuxStats::default(),
            Ok(active) => {
                let (transit_starved, transit_starved_events) = active.transport.transit_stalls(now);
                RammuxStats {
                    inbound_streams: active.streams.inbound_len() as u32,
                    outbound_streams: active.streams.outbound_len() as u32,
                    rtt: match active.transport.clean_rtt() {
                        Some(rtt) => Some(rtt.value),
                        None => None,
                    },
                    dirty_rtt: match active.transport.dirty_rtt() {
                        Some(rtt) => Some(rtt.value),
                        None => None,
                    },
                    available_global_recv_window: active.global.available,
                    transit_send_credit: active.transport.send_budget(),
                    transit_recv_window: active.transport.transit_window(),
                    transit_starved,
                    transit_starved_events,
                }
            },
        }
    }
}

} // verus!
