//! What each call on a connection comes to.

use vstd::prelude::*;

use super::downgrade::{Downgraded, Recovery, WriterStep};
use super::pass::{InboundPass, Outbox, Outgoing};
use super::pings::{OutboundPings, PingsState};
use super::state::{Active, ConnState};
use super::streams::{ActiveStreams, StreamsView};
use super::{Progress, RammuxConnection, RammuxStats, Route};
use crate::config::{RammuxConfig, RammuxRole};
use crate::error::{ErrorKind, RammuxError};
use crate::global_pool::GlobalPool;
use crate::header::{ControlFlags, PingPayload};
use crate::poll::Poll;
use crate::probe::ProbeEvent;
use crate::stream::fin::FinState;
use crate::stream::updates::StreamOutput;
use crate::stream::waker::Wakes;
use crate::stream::SharedStreamState;
use crate::stream_id::StreamId;
use crate::time::{TimeSpan, Timestamp};
use crate::transport::frame::StreamFrame;
use crate::transport::{Inbound, Transport};

verus! {

/// Whether a connection that is not live says why it is of no use.
pub open spec fn says_why(state: ConnState, error: ErrorKind) -> bool {
    &&& !(state is Active)
    &&& state is Poisoned ==> error is Poisoned
    &&& state is Downgraded ==> error is AlreadyDowngraded
}

/// Whether `id` is the number of a stream that `role` starts: those of the client
/// are even, those of the server odd.
pub open spec fn starts(role: RammuxRole, id: StreamId) -> bool {
    if role is Client {
        id@ % 2 == 0
    } else {
        id@ % 2 == 1
    }
}

/// Whether the stream with the given number is active: ours stand in the slot that
/// is half of it.
pub open spec fn is_active(streams: StreamsView, role: RammuxRole, id: StreamId) -> bool {
    if starts(role, id) {
        streams.outbound.contains_key((id@ / 2) as usize)
    } else {
        streams.inbound.contains(id@)
    }
}

/// A connection starts live, without streams, and with all of the pool to borrow.
pub proof fn connections_start_live(
    role: RammuxRole,
    config: RammuxConfig,
    now: Timestamp,
    r: RammuxConnection,
    transport: Transport,
    kept: &RammuxConfig,
    as_role: RammuxRole,
)
    requires
        config.valid(),
        call_ensures(RammuxConnection::new, (role, config, now), r),
        call_ensures(Transport::new, (role, &config, now), transport),
        call_ensures(RammuxConnection::config, (&r,), kept),
        call_ensures(RammuxConnection::role, (&r,), as_role),
    ensures
        *kept == config,
        as_role == role,
        r.state matches ConnState::Active(active) && {
            &&& active.transport@ == transport@
            &&& active.streams@.outbound.dom() == Set::<usize>::empty()
            &&& active.streams@.inbound == Set::<u32>::empty()
            &&& active.streams@.free.len() == 0
            &&& active.global.available == config.global_recv_window
            &&& active.global.growth == config.stream_window_growth
            &&& active.global.dirty_rtt is None
            &&& active.global.send_budget is None
            &&& !active.global.transit_blocked
        },
{
}

/// A frame with `SYN` starts a stream of the peer's that is not active, as long as
/// there are fewer than the limit; one without it is for a stream that is. What is
/// wrong with any other is said of its stream, and nothing changes.
pub proof fn frames_find_their_streams(
    connection: &mut RammuxConnection,
    id: StreamId,
    flags: ControlFlags,
    r: Result<Route, ErrorKind>,
)
    requires
        connection.valid(),
        call_ensures(RammuxConnection::route, (connection, id, flags), r),
    ensures
        final(connection).role == old(connection).role,
        match old(connection).state {
            ConnState::Active(active) => {
                let streams = active.streams@;
                let role = old(connection).role;
                let known = is_active(streams, role, id);
                let full = streams.inbound.len() >= old(connection).config.max_inbound_streams;
                &&& final(connection).state is Active
                &&& final(connection).transport() == active.transport@
                &&& final(connection).global() == active.global
                &&& match r {
                    Ok(Route::New) => {
                        &&& flags.syn && !starts(role, id) && !known && !full
                        &&& final(connection).streams().inbound == streams.inbound.insert(id@)
                        &&& final(connection).streams().outbound == streams.outbound
                        &&& final(connection).streams().free == streams.free
                    },
                    Ok(Route::Existing) => {
                        &&& !flags.syn && known
                        &&& final(connection).streams() == streams
                    },
                    Err(error) => {
                        &&& final(connection).streams() == streams
                        &&& error matches ErrorKind::Stream { id: at, error } && at == id
                            && error.0@ == if flags.syn && starts(role, id) {
                            "started a new stream with an ID from the wrong pool"@
                        } else if flags.syn && known {
                            "started a new stream with an occupied ID"@
                        } else if !flags.syn {
                            "sent a frame for an unknown stream"@
                        } else {
                            "started a new stream without respecting the configured limit"@
                        }
                        &&& flags.syn && !starts(role, id) && !known ==> full
                        &&& !flags.syn ==> !known
                    },
                }
            },
            _ => {
                &&& r matches Err(error) && says_why(old(connection).state, error)
                &&& final(connection).state == old(connection).state
            },
        },
{
}

/// A frame is delivered to its stream, and a stream that it ended is not active any
/// more. A fault of the stream's is said of it.
pub proof fn frames_are_delivered(
    connection: &mut RammuxConnection,
    frame: StreamFrame,
    stream: &mut SharedStreamState,
    woken: &mut Wakes,
    r: Result<bool, ErrorKind>,
    other: &mut SharedStreamState,
    woken_too: &mut Wakes,
    received: Result<FinState, crate::error::StreamError>,
)
    requires
        connection.valid(),
        connection.state is Active,
        stream.valid(),
        *other == *stream,
        woken_too@ == woken@,
        frame.payload_len() <= u32::MAX,
        call_ensures(RammuxConnection::deliver, (connection, frame, stream, woken), r),
        call_ensures(SharedStreamState::received, (other, frame, woken_too), received),
    ensures
        final(stream)@ == final(other)@,
        final(woken)@ == final(woken_too)@,
        final(connection).state is Active,
        final(connection).transport() == old(connection).transport(),
        final(connection).global() == old(connection).global(),
        r is Ok <==> received is Ok,
        received matches Ok(fins) ==> {
            &&& r == Ok::<bool, ErrorKind>(fins.sent && fins.received)
            &&& !(fins.sent && fins.received) ==> final(connection).streams() == old(
                connection).streams()
            &&& fins.sent && fins.received ==> !is_active(
                final(connection).streams(),
                old(connection).role,
                frame.id(),
            )
        },
        received matches Err(fault) ==> {
            &&& r matches Err(ErrorKind::Stream { id, error }) && id == frame.id() && error.0@
                == fault.0@
            &&& final(connection).streams() == old(connection).streams()
        },
{
}

/// Before a pass the streams are shown the session's budget and its loaded round
/// trip.
pub proof fn pools_mirror_the_session(connection: &mut RammuxConnection, r: Result<(), ErrorKind>)
    requires
        connection.valid(),
        call_ensures(RammuxConnection::refresh_pool, (connection,), r),
    ensures
        match old(connection).state {
            ConnState::Active(active) => {
                &&& r is Ok
                &&& final(connection).state matches ConnState::Active(after) && {
                    &&& after.global.send_budget == active.transport@.transit_send
                    &&& match active.transport@.dirty_rtt {
                        Some(sample) => after.global.dirty_rtt == Some(sample.value),
                        None => after.global.dirty_rtt is None,
                    }
                    &&& after.global.available == active.global.available
                    &&& after.global.growth == active.global.growth
                    &&& after.global.transit_blocked == active.global.transit_blocked
                    &&& after.transport@ == active.transport@
                    &&& after.streams@ == active.streams@
                }
            },
            _ => {
                &&& r matches Err(error) && says_why(old(connection).state, error)
                &&& final(connection).state == old(connection).state
            },
        },
{
}

/// A pass that had nothing to send is a stalled one exactly where the transport was
/// writable and a stream was held back by the transit window alone.
pub proof fn passes_are_accounted_for(
    connection: &mut RammuxConnection,
    writable: bool,
    now: Timestamp,
    r: Result<(), ErrorKind>,
    active: Active,
    transport: &mut Transport,
)
    requires
        connection.valid(),
        connection.state == ConnState::Active(active),
        *transport == active.transport,
        call_ensures(RammuxConnection::note_send_pass, (connection, writable, now), r),
        call_ensures(
            Transport::note_send_pass,
            (transport, writable && active.global.transit_blocked, now),
            (),
        ),
    ensures
        r is Ok,
        final(connection).state is Active,
        final(connection).transport() == final(transport)@,
        final(connection).streams() == active.streams@,
        final(connection).global() == active.global,
{
}

/// A frame is sent as the session has it. Payload that moves was not held back.
pub proof fn frames_are_sent_by_the_session(
    connection: &mut RammuxConnection,
    frame: StreamFrame,
    now: Timestamp,
    r: Result<Option<StreamFrame>, ErrorKind>,
    active: Active,
    transport: &mut Transport,
    sent: Result<Option<StreamFrame>, ErrorKind>,
)
    requires
        connection.valid(),
        connection.state == ConnState::Active(active),
        *transport == active.transport,
        call_ensures(RammuxConnection::send, (connection, frame, now), r),
        call_ensures(Transport::start_send, (transport, frame, now), sent),
    ensures
        r is Ok <==> sent is Ok,
        r matches Ok(out) ==> sent == Ok::<Option<StreamFrame>, ErrorKind>(out),
        r matches Err(error) ==> error is Transit,
        final(connection).state is Active,
        final(connection).transport() == final(transport)@,
        final(connection).streams() == active.streams@,
        frame.payload_len() > 0 ==> !final(connection).global().transit_blocked,
        frame.payload_len() == 0 ==> final(connection).global() == active.global,
        final(connection).global() == (GlobalPool {
            transit_blocked: final(connection).global().transit_blocked,
            ..active.global
        }),
{
}

/// A stream whose last frame is out is let go once all of its fins have passed.
pub proof fn dead_streams_are_let_go(
    connection: &mut RammuxConnection,
    id: StreamId,
    fins: FinState,
    r: Result<bool, ErrorKind>,
)
    requires
        connection.valid(),
        connection.state is Active,
        call_ensures(RammuxConnection::retire, (connection, id, fins), r),
    ensures
        r == Ok::<bool, ErrorKind>(fins.sent && fins.received),
        final(connection).state is Active,
        final(connection).transport() == old(connection).transport(),
        final(connection).global() == old(connection).global(),
        !(fins.sent && fins.received) ==> final(connection).streams() == old(connection).streams(),
        fins.sent && fins.received ==> {
            &&& !is_active(final(connection).streams(), old(connection).role, id)
            &&& forall|other: StreamId|
                other@ != id@ && other@ <= 0x00FF_FFFF && id@ <= 0x00FF_FFFF ==> (
                #[trigger] is_active(final(connection).streams(), old(connection).role, other)
                    <==> is_active(old(connection).streams(), old(connection).role, other))
        },
{
}

/// A signal that the session gives once unblocks the streams.
pub proof fn unblocked_streams_are_not_held_back(
    connection: &mut RammuxConnection,
    r: Result<bool, ErrorKind>,
    active: Active,
    transport: &mut Transport,
    unblocked: bool,
)
    requires
        connection.valid(),
        connection.state == ConnState::Active(active),
        *transport == active.transport,
        call_ensures(RammuxConnection::take_unblocked, (connection,), r),
        call_ensures(Transport::take_unblocked, (transport,), unblocked),
    ensures
        r == Ok::<bool, ErrorKind>(unblocked),
        final(connection).state is Active,
        final(connection).transport() == final(transport)@,
        final(connection).streams() == active.streams@,
        unblocked ==> !final(connection).global().transit_blocked,
        !unblocked ==> final(connection).global() == active.global,
        final(connection).global() == (GlobalPool {
            transit_blocked: final(connection).global().transit_blocked,
            ..active.global
        }),
{
}

/// A new stream is reported at once; else an event of the machinery is, in order;
/// else what the pass came to. No event is lost for a new stream.
pub proof fn new_streams_are_reported_first(
    connection: &mut RammuxConnection,
    inbound: Option<Progress>,
    r: Result<Option<Progress>, ErrorKind>,
    active: Active,
    transport: &mut Transport,
    event: Option<ProbeEvent>,
)
    requires
        connection.valid(),
        connection.state == ConnState::Active(active),
        *transport == active.transport,
        call_ensures(RammuxConnection::report, (connection, inbound), r),
        call_ensures(Transport::next_event, (transport,), event),
    ensures
        final(connection).state is Active,
        final(connection).streams() == active.streams@,
        final(connection).global() == active.global,
        inbound matches Some(Progress::Inbound(_)) ==> {
            &&& r == Ok::<Option<Progress>, ErrorKind>(inbound)
            &&& final(connection).transport() == active.transport@
        },
        !(inbound matches Some(Progress::Inbound(_))) ==> {
            &&& r == Ok::<Option<Progress>, ErrorKind>(
                match event {
                    Some(event) => Some(Progress::Probe(event)),
                    None => inbound,
                },
            )
            &&& final(connection).transport() == final(transport)@
        },
{
}

/// Every error but misuse ends the connection for good.
pub proof fn failures_poison_the_connection(connection: &mut RammuxConnection, error: &RammuxError)
    requires
        connection.valid(),
        call_ensures(RammuxConnection::fail, (connection, error), ()),
    ensures
        match error.0 {
            ErrorKind::AlreadyDowngraded => final(connection).state == old(connection).state,
            ErrorKind::Poisoned => final(connection).state == old(connection).state,
            _ => final(connection).state is Poisoned,
        },
{
}

/// Whatever is asked of a connection that is over fails with the reason, and
/// leaves it so.
pub proof fn dead_connections_say_why(
    connection: &mut RammuxConnection,
    now: Timestamp,
    probed: Result<bool, RammuxError>,
    second: &mut RammuxConnection,
    payload: PingPayload,
    pinged: Result<bool, RammuxError>,
    third: &mut RammuxConnection,
    gave_up: Result<bool, RammuxError>,
    fourth: &mut RammuxConnection,
    started: Result<Option<StreamId>, RammuxError>,
    fifth: &mut RammuxConnection,
    term_received: bool,
    downgraded: Result<Downgraded, RammuxError>,
)
    requires
        connection.valid(),
        !(connection.state is Active),
        *second == *connection && *third == *connection && *fourth == *connection && *fifth
            == *connection,
        call_ensures(RammuxConnection::start_probe, (connection,), probed),
        call_ensures(RammuxConnection::send_ping, (second, payload), pinged),
        call_ensures(RammuxConnection::abandon_ping, (third,), gave_up),
        call_ensures(RammuxConnection::try_start_outbound, (fourth,), started),
        call_ensures(RammuxConnection::downgrade, (fifth, term_received), downgraded),
    ensures
        ({
            let state = old(connection).state;
            &&& probed matches Err(error) && says_why(state, error.0)
            &&& pinged matches Err(error) && says_why(state, error.0)
            &&& gave_up matches Err(error) && says_why(state, error.0)
            &&& started matches Err(error) && says_why(state, error.0)
            &&& downgraded matches Err(error) && says_why(state, error.0)
            &&& final(connection).state == state && final(second).state == state && final(
                third).state == state && final(fourth).state == state && final(fifth).state == state
        }),
{
}

/// Measurements of a live connection are up to its session.
pub proof fn measurements_are_up_to_the_session(
    connection: &mut RammuxConnection,
    probed: Result<bool, RammuxError>,
    second: &mut RammuxConnection,
    payload: PingPayload,
    pinged: Result<bool, RammuxError>,
    third: &mut RammuxConnection,
    gave_up: Result<bool, RammuxError>,
    active: Active,
    a: &mut Transport,
    a_probed: bool,
    b: &mut Transport,
    b_pinged: bool,
    c: &mut Transport,
    c_gave_up: bool,
)
    requires
        connection.valid(),
        connection.state == ConnState::Active(active),
        *second == *connection && *third == *connection,
        *a == active.transport && *b == active.transport && *c == active.transport,
        call_ensures(RammuxConnection::start_probe, (connection,), probed),
        call_ensures(RammuxConnection::send_ping, (second, payload), pinged),
        call_ensures(RammuxConnection::abandon_ping, (third,), gave_up),
        call_ensures(Transport::init_probe, (a,), a_probed),
        call_ensures(Transport::init_ping, (b, payload), b_pinged),
        call_ensures(Transport::abandon_ping, (c,), c_gave_up),
    ensures
        probed == Ok::<bool, RammuxError>(a_probed),
        pinged == Ok::<bool, RammuxError>(b_pinged),
        gave_up == Ok::<bool, RammuxError>(c_gave_up),
        final(connection).transport() == final(a)@,
        final(second).transport() == final(b)@,
        final(third).transport() == final(c)@,
        final(connection).streams() == active.streams@,
        final(second).streams() == active.streams@,
        final(third).streams() == active.streams@,
{
}

/// A stream is started as long as there are fewer of ours than the limit and than
/// there are numbers. It gets a number of ours that no active stream has, and the
/// smallest ones go first: that of the slot that was freed last, or of a new one.
pub proof fn started_streams_get_fresh_numbers(
    connection: &mut RammuxConnection,
    r: Result<Option<StreamId>, RammuxError>,
    active: Active,
)
    requires
        connection.valid(),
        connection.state == ConnState::Active(active),
        call_ensures(RammuxConnection::try_start_outbound, (connection,), r),
    ensures
        ({
            let streams = active.streams@;
            let after = final(connection).streams();
            let role = old(connection).role;
            let limit = old(connection).config.max_outbound_streams;
            &&& final(connection).state is Active
            &&& final(connection).transport() == active.transport@
            &&& final(connection).global() == active.global
            &&& r is Ok
            &&& r matches Ok(None) ==> {
                &&& streams.outbound.len() >= limit || streams.outbound.len() >= 0x80_0000
                &&& after == streams
            }
            &&& r matches Ok(Some(id)) ==> {
                let slot = if streams.free.len() > 0 {
                    streams.free[0] as int
                } else {
                    streams.outbound.len() as int
                };
                &&& streams.outbound.len() < limit
                &&& starts(role, id)
                &&& id@ <= 0x00FF_FFFF
                &&& id@ / 2 == slot
                &&& !is_active(streams, role, id)
                &&& is_active(after, role, id)
                &&& after.outbound == streams.outbound.insert(slot as usize, id@)
                &&& after.inbound == streams.inbound
                &&& streams.free.len() > 0 ==> seq![streams.free[0]] + after.free == streams.free
                &&& streams.free.len() == 0 ==> after.free.len() == 0
            }
        }),
{
    let free = active.streams@.free;
    if free.len() > 0 {
        assert(seq![free[0]] + free.drop_first() =~= free);
    }
}

/// A downgrade hands the transport to the handshake and ends the connection.
pub proof fn downgrades_hand_the_transport_over(
    connection: &mut RammuxConnection,
    term_received: bool,
    r: Result<Downgraded, RammuxError>,
    active: Active,
)
    requires
        connection.valid(),
        connection.state == ConnState::Active(active),
        call_ensures(RammuxConnection::downgrade, (connection, term_received), r),
    ensures
        final(connection).state is Downgraded,
        r matches Ok(handshake) && {
            &&& handshake.transport == active.transport
            &&& handshake.term_received == term_received
            &&& !handshake.term_sent && !handshake.with_shutdown && !handshake.shut_down
        },
{
}

/// Statistics show what a live connection holds, and nothing of one that is over.
pub proof fn statistics_show_what_is_held(
    connection: &RammuxConnection,
    now: Timestamp,
    r: RammuxStats,
)
    requires
        connection.valid(),
        call_ensures(RammuxConnection::stats, (connection, now), r),
        connection.state matches ConnState::Active(active)
            ==> (active.transport@.stalled_since matches Some(at) ==> at.nanos <= now.nanos
            && active.transport@.stalled_total.nanos + now.nanos - at.nanos <= u128::MAX),
    ensures
        match connection.state {
            ConnState::Active(active) => {
                let session = active.transport@;
                &&& r.inbound_streams == active.streams@.inbound.len()
                &&& r.outbound_streams == active.streams@.outbound.len()
                &&& r.available_global_recv_window == active.global.available
                &&& match session.clean_rtt {
                    Some(sample) => r.rtt == Some(sample.value),
                    None => r.rtt is None,
                }
                &&& match session.dirty_rtt {
                    Some(sample) => r.dirty_rtt == Some(sample.value),
                    None => r.dirty_rtt is None,
                }
                &&& r.transit_send_credit == session.transit_send
                &&& match session.transit_recv {
                    Some(recv) => r.transit_recv_window == Some(recv.current),
                    None => r.transit_recv_window is None,
                }
                &&& r.transit_starved.nanos == session.stalled_total.nanos
                    + match session.stalled_since {
                    Some(at) => now.nanos - at.nanos,
                    None => 0,
                }
                &&& r.transit_starved_events == session.stalled_events
            },
            _ => {
                &&& r.inbound_streams == 0 && r.outbound_streams == 0
                &&& r.rtt is None && r.dirty_rtt is None
                &&& r.available_global_recv_window == 0
                &&& r.transit_send_credit is None && r.transit_recv_window is None
                &&& r.transit_starved.nanos == 0 && r.transit_starved_events == 0
            },
        },
{
}

/// The streams of a connection are counted, found and removed by number.
pub proof fn streams_are_kept_by_number(
    fresh: ActiveStreams,
    streams: &ActiveStreams,
    ours: usize,
    theirs: usize,
    slot: usize,
    id: StreamId,
    role: RammuxRole,
    known: bool,
    started: &mut ActiveStreams,
    removed: &mut ActiveStreams,
)
    requires
        call_ensures(ActiveStreams::new, (), fresh),
        call_ensures(ActiveStreams::outbound_len, (streams,), ours),
        call_ensures(ActiveStreams::inbound_len, (streams,), theirs),
        call_ensures(ActiveStreams::vacant_slot, (streams,), slot),
        call_ensures(ActiveStreams::contains, (streams, id, role), known),
        call_ensures(ActiveStreams::start_inbound, (started, id), ()),
        call_ensures(ActiveStreams::remove, (removed, id, role), ()),
    ensures
        fresh@.outbound.dom() == Set::<usize>::empty() && fresh@.inbound == Set::<u32>::empty(),
        fresh@.free.len() == 0,
        ours == streams@.outbound.len(),
        theirs == streams@.inbound.len(),
        streams@.free.len() > 0 ==> slot == streams@.free[0],
        streams@.free.len() == 0 ==> slot == streams@.outbound.len(),
        known <==> is_active(streams@, role, id),
        final(started)@.inbound == old(started)@.inbound.insert(id@),
        final(started)@.outbound == old(started)@.outbound,
        !is_active(final(removed)@, role, id),
        starts(role, id) ==> final(removed)@.inbound == old(removed)@.inbound,
        !starts(role, id) ==> final(removed)@.outbound == old(removed)@.outbound && final(
            removed)@.inbound == old(removed)@.inbound.remove(id@),
        starts(role, id) && is_active(old(removed)@, role, id) ==> final(removed)@.free.len() > 0
            && final(removed)@.free[0] == id@ / 2,
{
}

/// A pass takes in up to 16 frames, and stops at one that starts a stream, which is
/// what it reports.
pub proof fn passes_stop_at_new_streams(
    fresh: InboundPass,
    pass: &mut InboundPass,
    wants: bool,
    started: Option<StreamId>,
)
    requires
        call_ensures(InboundPass::new, (), fresh),
        call_ensures(InboundPass::wants_more, (&*old(pass),), wants),
        wants,
        call_ensures(InboundPass::on_frame, (pass, started), ()),
    ensures
        fresh.left == 16 && fresh.progress is None,
        old(pass).left > 0 && !(old(pass).progress matches Some(Progress::Inbound(_))),
        final(pass).left == old(pass).left - 1,
        started matches Some(id) ==> final(pass).progress == Some(Progress::Inbound(id)),
        started is None ==> final(pass).progress == Some(Progress::Empty),
{
}

/// A pass that is full, or has a stream to report, takes in no more; any other
/// does.
pub proof fn passes_want_more_until_they_are_full(pass: &InboundPass, wants: bool)
    requires
        call_ensures(InboundPass::wants_more, (pass,), wants),
    ensures
        wants <==> pass.left > 0 && !(pass.progress matches Some(Progress::Inbound(_))),
{
}

/// The two frames of an output go out back to back, and the fins count with the
/// last of them.
pub proof fn outputs_go_out_back_to_back(
    fresh: Outbox,
    outbox: &mut Outbox,
    output: StreamOutput,
    first: Outgoing,
    second: &mut Outbox,
    next: Option<Outgoing>,
    third: &mut Outbox,
    last: Option<Outgoing>,
)
    requires
        call_ensures(Outbox::new, (), fresh),
        *outbox == fresh,
        *second == *final(outbox),
        *third == *final(second),
        call_ensures(Outbox::accept, (outbox, output), first),
        call_ensures(Outbox::next, (second,), next),
        call_ensures(Outbox::next, (third,), last),
    ensures
        first.frame == output.first,
        output.second is None ==> first.fin_state == Some(output.fin_state) && next is None,
        output.second matches Some(frame) ==> first.fin_state is None && (next matches Some(out)
            && out.frame == frame && out.fin_state == Some(output.fin_state)),
        last is None,
{
}

/// Scheduled pings are due right away at first. One that is due is to be sent
/// within the timeout, which is counted from there.
pub proof fn scheduled_pings_become_due(
    interval: TimeSpan,
    timeout: TimeSpan,
    start: Timestamp,
    fresh: OutboundPings,
    pings: &mut OutboundPings,
    now: Timestamp,
    r: Poll<Result<(), ErrorKind>>,
)
    requires
        call_ensures(OutboundPings::new, (interval, timeout, start), fresh),
        call_ensures(OutboundPings::poll_progress, (pings, now), r),
        now.nanos + pings.timeout.nanos <= u128::MAX,
    ensures
        fresh.deadline == start && fresh.interval == interval && fresh.timeout == timeout
            && fresh.state is WaitingToSend,
        r is Pending <==> now.nanos < old(pings).deadline.nanos,
        r is Pending ==> *final(pings) == *old(pings),
        r matches Poll::Ready(result) ==> match old(pings).state {
            PingsState::WaitingToSend => {
                &&& final(pings).state == (PingsState::ReadyToSend { since: now })
                &&& final(pings).deadline.nanos == now.nanos + old(pings).timeout.nanos
                &&& final(pings).interval == old(pings).interval
                &&& final(pings).timeout == old(pings).timeout
                &&& result is Ok <==> old(pings).timeout.nanos > 0
            },
            PingsState::ReadyToSend { since } => {
                &&& result matches Err(ErrorKind::PingSendTimeout { elapsed }) && (since.nanos
                    <= now.nanos ==> elapsed.nanos == now.nanos - since.nanos)
                &&& *final(pings) == *old(pings)
            },
            PingsState::WaitingForResponse { ready_since, payload, .. } => {
                &&& result matches Err(ErrorKind::PingResponseTimeout { payload: sent, elapsed })
                    && sent == payload && (ready_since.nanos <= now.nanos ==> elapsed.nanos
                    == now.nanos - ready_since.nanos)
                &&& *final(pings) == *old(pings)
            },
        },
{
}

/// A scheduled ping is taken once and timed from there. Its response gives the
/// time that it took, and the next is due an interval after it was sent; any other
/// response is a fault.
pub proof fn scheduled_pings_are_timed(
    pings: &mut OutboundPings,
    payload: PingPayload,
    sent_at: Timestamp,
    taken: Option<PingPayload>,
    second: &mut OutboundPings,
    answer: PingPayload,
    now: Timestamp,
    r: Result<TimeSpan, ErrorKind>,
)
    requires
        *second == *final(pings),
        call_ensures(OutboundPings::take_ready, (pings, payload, sent_at), taken),
        call_ensures(OutboundPings::received_response, (second, answer, now), r),
        sent_at.nanos <= now.nanos,
        sent_at.nanos + pings.interval.nanos <= u128::MAX,
    ensures
        taken is Some <==> old(pings).state is ReadyToSend,
        taken matches Some(sent) ==> sent == payload,
        taken is None ==> *final(pings) == *old(pings),
        old(pings).state matches PingsState::ReadyToSend { since } ==> {
            &&& *final(pings) == (OutboundPings {
                state: PingsState::WaitingForResponse { ready_since: since, sent_at, payload },
                ..*old(pings)
            })
            &&& answer == payload ==> {
                &&& r matches Ok(rtt) && rtt.nanos == now.nanos - sent_at.nanos
                &&& final(second).state is WaitingToSend
                &&& final(second).deadline.nanos == sent_at.nanos + old(pings).interval.nanos
            }
            &&& answer != payload ==> {
                &&& r == Err::<TimeSpan, ErrorKind>(ErrorKind::UnexpectedPing(answer))
                &&& *final(second) == *old(second)
            }
        },
        old(pings).state is WaitingToSend ==> r == Err::<TimeSpan, ErrorKind>(
            ErrorKind::UnexpectedPing(answer),
        ),
{
}

/// The writing half of a downgrade sends our `TERM`, then shuts the transport down
/// if that was asked for, and is done.
pub proof fn handshakes_write_in_order(
    handshake: &mut Downgraded,
    step: WriterStep,
    next: WriterStep,
)
    requires
        call_ensures(Downgraded::writer_step, (&*old(handshake),), step),
        call_ensures(Downgraded::writer_done, (handshake,), ()),
        call_ensures(Downgraded::writer_step, (&*final(handshake),), next),
    ensures
        step is Close <==> !old(handshake).term_sent,
        step is Shutdown <==> old(handshake).term_sent && old(handshake).with_shutdown && !old(
            handshake).shut_down,
        step is Close ==> next is Done || next is Shutdown,
        step is Close && old(handshake).with_shutdown && !old(handshake).shut_down
            ==> next is Shutdown,
        step is Close && !old(handshake).with_shutdown ==> next is Done,
        step is Shutdown ==> next is Done,
        step is Done ==> next is Done,
        final(handshake).term_received == old(handshake).term_received,
        final(handshake).transport == old(handshake).transport,
{
}

/// The reading half waits for the peer's `TERM`, and a shutdown is only done where
/// it was asked for.
pub proof fn handshakes_wait_for_the_term(
    handshake: &mut Downgraded,
    inbound: &Inbound,
    before: bool,
    after: bool,
    other: Downgraded,
    shutting: Downgraded,
)
    requires
        call_ensures(Downgraded::reading, (&*old(handshake),), before),
        call_ensures(Downgraded::on_inbound, (handshake, inbound), ()),
        call_ensures(Downgraded::reading, (&*final(handshake),), after),
        call_ensures(Downgraded::with_shutdown, (other,), shutting),
    ensures
        after <==> before && !(*inbound is Terminated),
        final(handshake).term_sent == old(handshake).term_sent,
        final(handshake).transport == old(handshake).transport,
        shutting.with_shutdown,
        shutting.transport == other.transport && shutting.term_received == other.term_received
            && shutting.term_sent == other.term_sent && shutting.shut_down == other.shut_down,
{
}

/// The transport is given back once both halves are done: clean if nothing was
/// read past the end, dirty otherwise.
pub proof fn handshakes_give_the_transport_back(
    handshake: &Downgraded,
    unread: &[u8],
    r: Recovery,
    reading: bool,
    step: WriterStep,
)
    requires
        call_ensures(Downgraded::recovery, (handshake, unread), r),
        call_ensures(Downgraded::reading, (handshake,), reading),
        call_ensures(Downgraded::writer_step, (handshake,), step),
    ensures
        r is Pending <==> reading || !(step is Done),
        r is Clean <==> !reading && step is Done && unread@.len() == 0,
        r is Dirty <==> !reading && step is Done && unread@.len() > 0,
{
}

/// A stream of ours goes to the vacant slot.
pub proof fn started_streams_take_the_vacant_slot(
    streams: &mut ActiveStreams,
    id: StreamId,
    slot: usize,
)
    requires
        streams@.slots() <= 0x80_0000,
        call_ensures(ActiveStreams::vacant_slot, (&*old(streams),), slot),
        call_ensures(ActiveStreams::start_outbound, (streams, id), ()),
    ensures
        final(streams)@.outbound == old(streams)@.outbound.insert(slot, id@),
        final(streams)@.inbound == old(streams)@.inbound,
        old(streams)@.free.len() > 0 ==> seq![slot] + final(streams)@.free == old(streams)@.free,
        old(streams)@.free.len() == 0 ==> final(streams)@.free.len() == 0,
{
    let free = old(streams)@.free;
    if free.len() > 0 {
        assert(seq![free[0]] + free.drop_first() =~= free);
    }
}

} // verus!
