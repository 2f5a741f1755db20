//! What the ends of a stream make of its two directions.

use std::ops::ControlFlow;
use std::task::Waker;

use bytes::Bytes;
use vstd::prelude::*;

use super::direction_laws::stirred;
use super::duplex::{RammuxDuplex, RammuxSink, RammuxStream};
use super::fin::FinState;
use super::inbound::{InboundTraffic, InboundView, SizingInputs};
use super::outbound::{OutboundTraffic, OutboundView, WriteError};
use super::updates::{StreamOutput, StreamUpdates};
use super::waker::{WakerSlot, Wakes};
use super::SharedStreamState;
use crate::buffer::Data;
use crate::bytes_ext::content;
use crate::codec::decoder::FrameView;
use crate::config::RammuxConfig;
use crate::error::StreamError;
use crate::global_pool::GlobalPool;
use crate::poll::Poll;
use crate::stream_id::StreamId;
use crate::time::Timestamp;
use crate::transport::frame::StreamFrame;

verus! {

/// A stream starts with both directions open and both of its ends attached. Only
/// the side that opened it has a `SYN` to send.
pub proof fn streams_start_open(
    id: StreamId,
    is_outbound: bool,
    config: &RammuxConfig,
    now: Timestamp,
    r: (SharedStreamState, StreamUpdates, RammuxDuplex),
)
    requires
        config.valid(),
        call_ensures(super::new, (id, is_outbound, config, now), r),
    ensures
        r.0.inbound@ matches InboundView::Open { ready, reader, window } && {
            &&& ready.len() == 0 && reader is None
            &&& window.initial == config.local_recv_window
            &&& window.current == config.local_recv_window
            &&& window.consumed == 0 && window.freed == 0
            &&& window.last_update == now
        },
        r.0.outbound@ matches OutboundView::Open { ready, frame_limit, recv_window, writer } && {
            &&& ready.len() == 0 && writer is None
            &&& frame_limit == config.frame_limit
            &&& recv_window == config.remote_recv_window
        },
        r.0.updates_poller@ is None,
        r.1.id == id && r.1.syn == is_outbound,
        r.2.sink.id == id && r.2.sink.open,
        r.2.stream.id == id && r.2.stream.open,
{
}

/// The ends of a stream are those that it was split into, and know its number.
pub proof fn splitting_hands_out_the_ends(
    duplex: RammuxDuplex,
    id: StreamId,
    sink_id: StreamId,
    stream_id: StreamId,
    r: (RammuxSink, RammuxStream),
)
    requires
        call_ensures(RammuxDuplex::id, (&duplex,), id),
        call_ensures(RammuxDuplex::into_split, (duplex,), r),
        call_ensures(RammuxSink::id, (&r.0,), sink_id),
        call_ensures(RammuxStream::id, (&r.1,), stream_id),
    ensures
        r.0 == duplex.sink,
        r.1 == duplex.stream,
        id == duplex.sink.id,
        sink_id == id,
        stream_id == duplex.stream.id,
{
}

/// An attached writing end asks its direction whether it can write, and lets go of
/// it where it cannot any more. A detached one finds a broken pipe.
pub proof fn sinks_ask_their_direction(
    sink: &mut RammuxSink,
    state: &mut SharedStreamState,
    waker: &Waker,
    r: Poll<Result<(), WriteError>>,
    outbound: &mut OutboundTraffic,
    asked: Poll<Result<(), WriteError>>,
)
    requires
        state.valid(),
        *outbound == state.outbound,
        call_ensures(RammuxSink::poll_ready, (sink, state, waker), r),
        call_ensures(OutboundTraffic::poll_write_ready, (outbound, waker), asked),
    ensures
        final(state).inbound@ == old(state).inbound@,
        final(state).updates_poller@ == old(state).updates_poller@,
        old(sink).open ==> {
            &&& r == asked
            &&& final(state).outbound@ == final(outbound)@
            &&& final(sink).open <==> !(asked matches Poll::Ready(Err(_)))
        },
        !old(sink).open ==> {
            &&& r == Poll::Ready(Err::<(), WriteError>(WriteError::BrokenPipe))
            &&& final(state).outbound@ == old(state).outbound@
            &&& !final(sink).open
        },
{
}

/// An attached writing end hands its data to its direction, and lets go of it
/// where that is refused.
pub proof fn sinks_write_to_their_direction(
    sink: &mut RammuxSink,
    state: &mut SharedStreamState,
    item: Bytes,
    woken: &mut Wakes,
    r: Result<(), WriteError>,
    outbound: &mut OutboundTraffic,
    poller: &mut WakerSlot,
    woken_too: &mut Wakes,
    written: Result<(), WriteError>,
)
    requires
        state.valid(),
        *outbound == state.outbound,
        *poller == state.updates_poller,
        woken_too@ == woken@,
        call_ensures(RammuxSink::start_send, (sink, state, item, woken), r),
        call_ensures(OutboundTraffic::write, (outbound, item, poller, woken_too), written),
    ensures
        final(state).inbound@ == old(state).inbound@,
        old(sink).open ==> {
            &&& r is Ok <==> written is Ok
            &&& r matches Err(error) ==> written == Err::<(), WriteError>(error)
            &&& final(state).outbound@ == final(outbound)@
            &&& final(state).updates_poller@ == final(poller)@
            &&& final(woken)@ == final(woken_too)@
            &&& final(sink).open <==> written is Ok
        },
        !old(sink).open ==> {
            &&& r == Err::<(), WriteError>(WriteError::BrokenPipe)
            &&& final(state).outbound@ == old(state).outbound@
            &&& final(state).updates_poller@ == old(state).updates_poller@
            &&& final(woken)@ == old(woken)@
            &&& !final(sink).open
        },
{
    assert(old(woken)@ + Seq::<Waker>::empty() =~= old(woken)@);
}

/// A writing end is flushed once its direction is, or at once if it is detached.
pub proof fn sinks_flush_their_direction(
    sink: &RammuxSink,
    state: &mut SharedStreamState,
    waker: &Waker,
    r: Poll<()>,
    outbound: &mut OutboundTraffic,
    flushed: Poll<()>,
)
    requires
        state.valid(),
        *outbound == state.outbound,
        call_ensures(RammuxSink::poll_flush, (sink, state, waker), r),
        call_ensures(OutboundTraffic::poll_flushed, (outbound, waker), flushed),
    ensures
        final(state).inbound@ == old(state).inbound@,
        final(state).updates_poller@ == old(state).updates_poller@,
        sink.open ==> r == flushed && final(state).outbound@ == final(outbound)@,
        !sink.open ==> r == Poll::Ready(()) && final(state).outbound@ == old(state).outbound@,
{
}

/// Closing a writing end closes its direction and waits until that is flushed; the
/// end stays attached until then.
pub proof fn sinks_close_their_direction(
    sink: &mut RammuxSink,
    state: &mut SharedStreamState,
    waker: &Waker,
    woken: &mut Wakes,
    r: Poll<()>,
    outbound: &mut OutboundTraffic,
    poller: &mut WakerSlot,
    woken_too: &mut Wakes,
    after: &mut OutboundTraffic,
    flushed: Poll<()>,
)
    requires
        state.valid(),
        *outbound == state.outbound,
        *poller == state.updates_poller,
        woken_too@ == woken@,
        *after == *final(outbound),
        call_ensures(RammuxSink::poll_close, (sink, state, waker, woken), r),
        call_ensures(OutboundTraffic::close_writing, (outbound, poller, woken_too), ()),
        call_ensures(OutboundTraffic::poll_flushed, (after, waker), flushed),
    ensures
        final(state).inbound@ == old(state).inbound@,
        old(sink).open ==> {
            &&& r == flushed
            &&& final(state).outbound@ == final(after)@
            &&& final(state).updates_poller@ == final(poller)@
            &&& final(woken)@ == final(woken_too)@
            &&& final(sink).open <==> r is Pending
        },
        !old(sink).open ==> {
            &&& r == Poll::Ready(())
            &&& final(state).outbound@ == old(state).outbound@
            &&& final(state).updates_poller@ == old(state).updates_poller@
            &&& final(woken)@ == old(woken)@
            &&& !final(sink).open
        },
{
    assert(old(woken)@ + Seq::<Waker>::empty() =~= old(woken)@);
}

/// A writing end that goes away closes its direction, unless it had let go of it.
pub proof fn sinks_go_away_closed(
    sink: &mut RammuxSink,
    state: &mut SharedStreamState,
    woken: &mut Wakes,
    outbound: &mut OutboundTraffic,
    poller: &mut WakerSlot,
    woken_too: &mut Wakes,
)
    requires
        state.valid(),
        *outbound == state.outbound,
        *poller == state.updates_poller,
        woken_too@ == woken@,
        call_ensures(RammuxSink::close, (sink, state, woken), ()),
        call_ensures(OutboundTraffic::close_writing, (outbound, poller, woken_too), ()),
    ensures
        !final(sink).open,
        final(state).inbound@ == old(state).inbound@,
        old(sink).open ==> {
            &&& final(state).outbound@ == final(outbound)@
            &&& final(state).updates_poller@ == final(poller)@
            &&& final(woken)@ == final(woken_too)@
        },
        !old(sink).open ==> {
            &&& final(state).outbound@ == old(state).outbound@
            &&& final(state).updates_poller@ == old(state).updates_poller@
            &&& final(woken)@ == old(woken)@
        },
{
    assert(old(woken)@ + Seq::<Waker>::empty() =~= old(woken)@);
}

/// An attached reading end reads what its direction has, and lets go of it at the
/// end of the stream.
pub proof fn streams_read_their_direction(
    stream: &mut RammuxStream,
    state: &mut SharedStreamState,
    waker: &Waker,
    woken: &mut Wakes,
    r: Poll<Option<Data>>,
    inbound: &mut InboundTraffic,
    poller: &mut WakerSlot,
    woken_too: &mut Wakes,
    read: Poll<Option<Data>>,
)
    requires
        state.valid(),
        *inbound == state.inbound,
        *poller == state.updates_poller,
        woken_too@ == woken@,
        call_ensures(RammuxStream::poll_next, (stream, state, waker, woken), r),
        call_ensures(InboundTraffic::poll_read, (inbound, waker, poller, woken_too), read),
    ensures
        final(state).outbound@ == old(state).outbound@,
        old(stream).open ==> {
            &&& match (r, read) {
                (Poll::Ready(Some(a)), Poll::Ready(Some(b))) => a@ == b@,
                (Poll::Ready(None), Poll::Ready(None)) => true,
                (Poll::Pending, Poll::Pending) => true,
                _ => false,
            }
            &&& final(state).inbound@ == final(inbound)@
            &&& final(state).updates_poller@ == final(poller)@
            &&& final(woken)@ == final(woken_too)@
            &&& final(stream).open <==> !(read matches Poll::Ready(None))
        },
        !old(stream).open ==> {
            &&& r matches Poll::Ready(None)
            &&& final(state).inbound@ == old(state).inbound@
            &&& final(state).updates_poller@ == old(state).updates_poller@
            &&& final(woken)@ == old(woken)@
            &&& !final(stream).open
        },
{
    assert(old(woken)@ + Seq::<Waker>::empty() =~= old(woken)@);
}

/// A reading end that goes away closes its direction, unless it had let go of it.
pub proof fn streams_go_away_closed(
    stream: &mut RammuxStream,
    state: &mut SharedStreamState,
    woken: &mut Wakes,
    inbound: &mut InboundTraffic,
    poller: &mut WakerSlot,
    woken_too: &mut Wakes,
)
    requires
        state.valid(),
        *inbound == state.inbound,
        *poller == state.updates_poller,
        woken_too@ == woken@,
        call_ensures(RammuxStream::close, (stream, state, woken), ()),
        call_ensures(InboundTraffic::close_reading, (inbound, poller, woken_too), ()),
    ensures
        !final(stream).open,
        final(state).outbound@ == old(state).outbound@,
        old(stream).open ==> {
            &&& final(state).inbound@ == final(inbound)@
            &&& final(state).updates_poller@ == final(poller)@
            &&& final(woken)@ == final(woken_too)@
        },
        !old(stream).open ==> {
            &&& final(state).inbound@ == old(state).inbound@
            &&& final(state).updates_poller@ == old(state).updates_poller@
            &&& final(woken)@ == old(woken)@
        },
{
    assert(old(woken)@ + Seq::<Waker>::empty() =~= old(woken)@);
}

/// What is sent next is what the two directions have to say: the window update
/// first, the data right behind it, and `SYN` on the first frame of all. Whoever
/// polls is remembered where neither has anything, and only then is it noted that
/// the transit window alone held data back.
pub proof fn streams_say_what_their_directions_say(
    updates: &mut StreamUpdates,
    state: &mut SharedStreamState,
    pool: &mut GlobalPool,
    waker: &Waker,
    optimal: u32,
    now: Timestamp,
    woken: &mut Wakes,
    r: Poll<ControlFlow<StreamOutput, StreamOutput>>,
    inbound: &mut InboundTraffic,
    pool_too: &mut GlobalPool,
    update: Poll<(u32, bool)>,
    outbound: &mut OutboundTraffic,
    blocked: &mut bool,
    woken_too: &mut Wakes,
    payload: Poll<(Bytes, bool)>,
)
    requires
        state.valid(),
        pool.valid(),
        pool.available + state.inbound@.borrowed() <= usize::MAX,
        *inbound == state.inbound,
        *pool_too == *pool,
        *outbound == state.outbound,
        !*blocked,
        woken_too@ == woken@,
        call_ensures(
            StreamUpdates::poll_progress,
            (updates, state, pool, waker, optimal, now, woken),
            r,
        ),
        call_ensures(InboundTraffic::poll_update, (inbound, pool_too, optimal, now), update),
        call_ensures(
            OutboundTraffic::poll_update,
            (outbound, pool.send_budget, blocked, woken_too),
            payload,
        ),
    ensures
        ({
            let id = old(updates).id;
            let syn = old(updates).syn;
            let data = match payload {
                Poll::Ready((bytes, fin_write)) => if content(bytes).len() > 0 || fin_write {
                    Some((content(bytes), fin_write))
                } else {
                    None
                },
                Poll::Pending => None,
            };
            &&& final(updates).id == id
            &&& final(state).inbound@ == final(inbound)@
            &&& final(state).outbound@ == final(outbound)@
            &&& final(woken)@ == final(woken_too)@
            &&& final(pool).available == final(pool_too).available
            &&& r is Pending <==> update is Pending && data is None
            &&& r is Pending ==> {
                &&& final(updates).syn == syn
                &&& final(state).updates_poller@ == Some(*waker)
                &&& final(pool).transit_blocked == (old(pool).transit_blocked || *final(blocked))
            }
            &&& r matches Poll::Ready(flow) ==> {
                let output = match flow {
                    ControlFlow::Break(output) => output,
                    ControlFlow::Continue(output) => output,
                };
                let sent = final(inbound)@.fins().sent && final(outbound)@.fins().sent;
                &&& !final(updates).syn
                &&& final(state).updates_poller@ == old(state).updates_poller@
                &&& final(pool).transit_blocked == old(pool).transit_blocked
                &&& flow is Break <==> sent
                &&& output.fin_state.sent == sent
                &&& output.fin_state.received == (final(inbound)@.fins().received && final(
                    outbound)@.fins().received)
                &&& match (update, data) {
                    (Poll::Ready((credit, fin_read)), data) => {
                        &&& output.first@ matches FrameView::WindowUpdate {
                            stream_id,
                            flags,
                            update: told,
                        } && stream_id == id && told == credit && flags.syn == syn
                            && flags.fin_read == fin_read && !flags.fin_write
                        &&& match (output.second, data) {
                            (Some(second), Some((bytes, fin_write))) => {
                                second@ matches FrameView::Data { stream_id, flags, data: sent }
                                    && stream_id == id && sent == bytes && !flags.syn
                                    && !flags.fin_read && flags.fin_write == fin_write
                            },
                            (None, None) => true,
                            _ => false,
                        }
                    },
                    (Poll::Pending, Some((bytes, fin_write))) => {
                        &&& output.first@ matches FrameView::Data { stream_id, flags, data: sent }
                            && stream_id == id && sent == bytes && flags.syn == syn
                            && !flags.fin_read && flags.fin_write == fin_write
                        &&& output.second is None
                    },
                    (Poll::Pending, None) => false,
                }
            }
        }),
{
}

/// What the optimal size is calculated from is up to the inbound direction.
pub proof fn streams_are_sized_by_their_reader(
    updates: &StreamUpdates,
    state: &SharedStreamState,
    pool: &GlobalPool,
    now: Timestamp,
    r: Option<SizingInputs>,
    asked: Option<SizingInputs>,
)
    requires
        call_ensures(StreamUpdates::sizing_inputs, (updates, state, pool, now), r),
        call_ensures(InboundTraffic::sizing_inputs, (&state.inbound, pool, now), asked),
    ensures
        r == asked,
{
}

/// How much more a peer may send.
pub open spec fn granted(inbound: InboundView) -> int {
    match inbound {
        InboundView::Open { window, .. } => window.current - window.consumed,
        InboundView::HalfClosed { .. } => 0,
        InboundView::Closed { remaining, fin, .. } => if fin.received {
            0
        } else {
            remaining as int
        },
    }
}

/// Whether the peer has finished writing.
pub open spec fn finished_writing(inbound: InboundView) -> bool {
    match inbound {
        InboundView::Open { .. } => false,
        InboundView::HalfClosed { .. } => true,
        InboundView::Closed { fin, .. } => fin.received,
    }
}

/// Whether the peer has finished reading.
pub open spec fn finished_reading(outbound: OutboundView) -> bool {
    outbound matches OutboundView::Closed { fin, .. } && fin.received
}

/// What `DATA` carries is for the inbound direction: the data within what was
/// granted, then its fin. A `FIN_READ` that rides along is for the outbound one.
/// The first fault in that order is what is reported.
pub proof fn data_frames_reach_their_directions(
    state: &mut SharedStreamState,
    data: Data,
    fin_read: bool,
    fin_write: bool,
    woken: &mut Wakes,
    r: Result<FinState, StreamError>,
)
    requires
        state.valid(),
        data@.len() <= u32::MAX,
        call_ensures(
            SharedStreamState::received_data,
            (state, data, fin_read, fin_write, woken),
            r,
        ),
    ensures
        ({
            let before = old(state)@;
            let after = final(state)@;
            let too_much = data@.len() > granted(before.inbound);
            let again_write = fin_write && finished_writing(before.inbound);
            let again_read = fin_read && finished_reading(before.outbound);
            &&& r is Ok <==> !too_much && !again_write && !again_read
            &&& r matches Err(error) ==> error.0@ == if too_much {
                if finished_writing(before.inbound) {
                    "sent data after FIN_WRITE"@
                } else {
                    "exceeded available receive window"@
                }
            } else if again_write {
                "sent duplicate FIN_WRITE"@
            } else {
                "sent duplicate FIN_READ"@
            }
            &&& too_much ==> after == before
            &&& after.outbound.window() == before.outbound.window()
            &&& !fin_read ==> after.outbound == before.outbound
            &&& r matches Ok(fins) ==> {
                &&& before.inbound is Open && data@.len() > 0 ==> after.inbound.unread()
                    == before.inbound.unread().push(data@)
                &&& before.inbound is Open && data@.len() == 0 ==> after.inbound.unread()
                    == before.inbound.unread()
                &&& !fin_write ==> granted(after.inbound) == granted(before.inbound) - data@.len()
                &&& finished_writing(after.inbound) <==> fin_write || finished_writing(
                    before.inbound,
                )
                &&& finished_reading(after.outbound) <==> fin_read || finished_reading(
                    before.outbound,
                )
                &&& fin_read ==> after.outbound is Closed
                &&& fins.sent <==> after.inbound.fins().sent && after.outbound.fins().sent
                &&& fins.received <==> after.inbound.fins().received
                    && after.outbound.fins().received
            }
        }),
{
}

/// What `WINDOW_UPDATE` carries is for the outbound direction: the credit, which
/// adds to what may be sent, then its fin. A `FIN_WRITE` that rides along is for
/// the inbound one. The first fault in that order is what is reported.
pub proof fn update_frames_reach_their_directions(
    state: &mut SharedStreamState,
    update: u32,
    fin_read: bool,
    fin_write: bool,
    woken: &mut Wakes,
    r: Result<FinState, StreamError>,
)
    requires
        state.valid(),
        call_ensures(
            SharedStreamState::received_window_update,
            (state, update, fin_read, fin_write, woken),
            r,
        ),
    ensures
        ({
            let before = old(state)@;
            let after = final(state)@;
            let late = update > 0 && finished_reading(before.outbound);
            let too_much = before.outbound.window() + update > u32::MAX;
            let again_write = fin_write && finished_writing(before.inbound);
            let again_read = fin_read && finished_reading(before.outbound);
            &&& r is Ok <==> !late && !too_much && !again_write && !again_read
            &&& r matches Err(error) ==> error.0@ == if late {
                "sent window update after FIN_READ"@
            } else if too_much {
                "triggered receive window overflow"@
            } else if again_read {
                "sent duplicate FIN_READ"@
            } else {
                "sent duplicate FIN_WRITE"@
            }
            &&& late || too_much ==> after == before
            &&& !late && !too_much ==> after.outbound.window() == before.outbound.window() + update
            &&& !fin_write ==> after.inbound == before.inbound
            &&& r matches Ok(fins) ==> {
                &&& !fin_read ==> after.outbound.pending() == before.outbound.pending()
                &&& finished_writing(after.inbound) <==> fin_write || finished_writing(
                    before.inbound,
                )
                &&& finished_reading(after.outbound) <==> fin_read || finished_reading(
                    before.outbound,
                )
                &&& fin_read ==> after.outbound is Closed
                &&& before.inbound is Open && fin_write && before.inbound.unread().len() > 0
                    ==> after.inbound is HalfClosed && after.inbound.unread()
                    == before.inbound.unread()
                &&& fins.sent <==> after.inbound.fins().sent && after.outbound.fins().sent
                &&& fins.received <==> after.inbound.fins().received
                    && after.outbound.fins().received
            }
        }),
{
}

/// What `DATA` does to a stream, and whom it wakes, is what its parts do to the
/// directions one after the other: the data, then `FIN_WRITE`, then `FIN_READ`, up
/// to the first that is refused.
pub proof fn data_frames_are_taken_part_by_part(
    state: &mut SharedStreamState,
    data: Data,
    fin_read: bool,
    fin_write: bool,
    woken: &mut Wakes,
    r: Result<FinState, StreamError>,
    inbound: &mut InboundTraffic,
    woken_one: &mut Wakes,
    taken: Result<(), StreamError>,
    finished: &mut InboundTraffic,
    poller: &mut WakerSlot,
    woken_two: &mut Wakes,
    write_ended: Result<(), StreamError>,
    outbound: &mut OutboundTraffic,
    poller_after: &mut WakerSlot,
    woken_three: &mut Wakes,
    read_ended: Result<(), StreamError>,
)
    requires
        state.valid(),
        data@.len() <= u32::MAX,
        call_ensures(
            SharedStreamState::received_data,
            (state, data, fin_read, fin_write, woken),
            r,
        ),
        *inbound == state.inbound,
        woken_one@ == woken@,
        call_ensures(InboundTraffic::received_data, (inbound, data, woken_one), taken),
        *finished == *final(inbound),
        *poller == state.updates_poller,
        woken_two@ == final(woken_one)@,
        taken is Ok ==> call_ensures(
            InboundTraffic::received_fin_write,
            (finished, poller, woken_two),
            write_ended,
        ),
        *outbound == state.outbound,
        poller_after@ == if fin_write {
            final(poller)@
        } else {
            state.updates_poller@
        },
        woken_three@ == if fin_write {
            final(woken_two)@
        } else {
            final(woken_one)@
        },
        call_ensures(
            OutboundTraffic::received_fin_read,
            (outbound, poller_after, woken_three),
            read_ended,
        ),
    ensures
        ({
            let after = final(state)@;
            if taken is Err {
                &&& r matches Err(error) && (taken matches Err(same) && error.0@ == same.0@)
                &&& after == old(state)@
                &&& final(woken)@ == old(woken)@
            } else if fin_write && write_ended is Err {
                &&& r matches Err(error) && (write_ended matches Err(same) && error.0@ == same.0@)
                &&& after.inbound == final(inbound)@
                &&& after.outbound == old(state)@.outbound
                &&& final(woken)@ == final(woken_one)@
            } else {
                &&& after.inbound == if fin_write {
                    final(finished)@
                } else {
                    final(inbound)@
                }
                &&& fin_read ==> {
                    &&& r is Ok <==> read_ended is Ok
                    &&& r matches Err(error) ==> (read_ended matches Err(same) && error.0@
                        == same.0@)
                    &&& after.outbound == final(outbound)@
                    &&& after.poller == final(poller_after)@
                    &&& final(woken)@ == final(woken_three)@
                }
                &&& !fin_read ==> {
                    &&& r is Ok
                    &&& after.outbound == old(state)@.outbound
                    &&& after.poller == old(poller_after)@
                    &&& final(woken)@ == old(woken_three)@
                }
            }
        }),
{
    let none = Seq::<Waker>::empty();
    let v = old(state)@;
    let a = v.inbound.woken_by_data(data@);
    let b = v.with_data(data@).woken_by_fin_write(fin_write);
    let c = v.with_data(data@).finished(false, fin_write).woken_by_fin_read(fin_read);
    assert(old(woken)@ + none =~= old(woken)@);
    assert(old(woken)@ + (a + b + c) =~= old(woken)@ + a + b + c);
    assert(old(woken)@ + a + none =~= old(woken)@ + a);
    assert(old(woken)@ + a + none + none =~= old(woken)@ + a);
    assert(old(woken)@ + a + none + c =~= old(woken)@ + a + c);
    assert(old(woken)@ + a + b + none =~= old(woken)@ + a + b);
}

/// What `WINDOW_UPDATE` does to a stream, and whom it wakes, is what its parts do to
/// the directions one after the other: the credit, then `FIN_READ`, then
/// `FIN_WRITE`, up to the first that is refused.
pub proof fn update_frames_are_taken_part_by_part(
    state: &mut SharedStreamState,
    update: u32,
    fin_read: bool,
    fin_write: bool,
    woken: &mut Wakes,
    r: Result<FinState, StreamError>,
    outbound: &mut OutboundTraffic,
    poller: &mut WakerSlot,
    woken_one: &mut Wakes,
    credited: Result<(), StreamError>,
    finished: &mut OutboundTraffic,
    poller_two: &mut WakerSlot,
    woken_two: &mut Wakes,
    read_ended: Result<(), StreamError>,
    inbound: &mut InboundTraffic,
    poller_three: &mut WakerSlot,
    woken_three: &mut Wakes,
    write_ended: Result<(), StreamError>,
)
    requires
        state.valid(),
        call_ensures(
            SharedStreamState::received_window_update,
            (state, update, fin_read, fin_write, woken),
            r,
        ),
        *outbound == state.outbound,
        *poller == state.updates_poller,
        woken_one@ == woken@,
        call_ensures(
            OutboundTraffic::received_window_update,
            (outbound, update, poller, woken_one),
            credited,
        ),
        *finished == *final(outbound),
        *poller_two == *final(poller),
        woken_two@ == final(woken_one)@,
        credited is Ok ==> call_ensures(
            OutboundTraffic::received_fin_read,
            (finished, poller_two, woken_two),
            read_ended,
        ),
        *inbound == state.inbound,
        poller_three@ == if fin_read {
            final(poller_two)@
        } else {
            final(poller)@
        },
        woken_three@ == if fin_read {
            final(woken_two)@
        } else {
            final(woken_one)@
        },
        call_ensures(
            InboundTraffic::received_fin_write,
            (inbound, poller_three, woken_three),
            write_ended,
        ),
    ensures
        ({
            let after = final(state)@;
            if credited is Err {
                &&& r matches Err(error) && (credited matches Err(same) && error.0@ == same.0@)
                &&& after == old(state)@
                &&& final(woken)@ == old(woken)@
            } else if fin_read && read_ended is Err {
                &&& r matches Err(error) && (read_ended matches Err(same) && error.0@ == same.0@)
                &&& after.outbound == final(outbound)@
                &&& after.inbound == old(state)@.inbound
                &&& final(woken)@ == final(woken_one)@
            } else {
                &&& after.outbound == if fin_read {
                    final(finished)@
                } else {
                    final(outbound)@
                }
                &&& fin_write ==> {
                    &&& r is Ok <==> write_ended is Ok
                    &&& r matches Err(error) ==> (write_ended matches Err(same) && error.0@
                        == same.0@)
                    &&& after.inbound == final(inbound)@
                    &&& after.poller == final(poller_three)@
                    &&& final(woken)@ == final(woken_three)@
                }
                &&& !fin_write ==> {
                    &&& r is Ok
                    &&& after.inbound == old(state)@.inbound
                    &&& after.poller == old(poller_three)@
                    &&& final(woken)@ == old(woken_three)@
                }
            }
        }),
{
    let none = Seq::<Waker>::empty();
    let v = old(state)@;
    let a = v.woken_by_update(update);
    let b = v.with_update(update).woken_by_fin_read(fin_read);
    let c = v.with_update(update).finished(fin_read, false).woken_by_fin_write(fin_write);
    assert(old(woken)@ + none =~= old(woken)@);
    assert(old(woken)@ + (a + b + c) =~= old(woken)@ + a + b + c);
    assert(old(woken)@ + a + none =~= old(woken)@ + a);
    assert(old(woken)@ + a + none + none =~= old(woken)@ + a);
    assert(old(woken)@ + a + none + c =~= old(woken)@ + a + c);
    assert(old(woken)@ + a + b + none =~= old(woken)@ + a + b);
}

/// A frame is what it carries: data with its fins, or credit with its fins.
pub proof fn frames_are_what_they_carry(
    state: &mut SharedStreamState,
    frame: StreamFrame,
    woken: &mut Wakes,
    r: Result<FinState, StreamError>,
    other: &mut SharedStreamState,
    data: Data,
    woken_too: &mut Wakes,
    taken: Result<FinState, StreamError>,
    third: &mut SharedStreamState,
    woken_three: &mut Wakes,
    credited: Result<FinState, StreamError>,
)
    requires
        state.valid(),
        *other == *state,
        *third == *state,
        woken_too@ == woken@,
        woken_three@ == woken@,
        frame.payload_len() <= u32::MAX,
        call_ensures(SharedStreamState::received, (state, frame, woken), r),
        frame matches StreamFrame::Data(payload) ==> data@ == payload.payload@ && call_ensures(
            SharedStreamState::received_data,
            (other, data, payload.flags.fin_read, payload.flags.fin_write, woken_too),
            taken,
        ),
        frame matches StreamFrame::WindowUpdate(update) ==> call_ensures(
            SharedStreamState::received_window_update,
            (
                third,
                update.update,
                update.flags.fin_read,
                update.flags.fin_write,
                woken_three,
            ),
            credited,
        ),
    ensures
        frame is Data ==> {
            &&& r is Ok <==> taken is Ok
            &&& r matches Ok(fins) ==> taken == Ok::<FinState, StreamError>(fins)
            &&& r matches Err(error) ==> (taken matches Err(same) && error.0@ == same.0@)
            &&& final(state)@ == final(other)@
            &&& final(woken)@ == final(woken_too)@
        },
        frame is WindowUpdate ==> {
            &&& r is Ok <==> credited is Ok
            &&& r matches Ok(fins) ==> credited == Ok::<FinState, StreamError>(fins)
            &&& r matches Err(error) ==> (credited matches Err(same) && error.0@ == same.0@)
            &&& final(state)@ == final(third)@
            &&& final(woken)@ == final(woken_three)@
        },
{
}

/// Aborting a stream is the peer finishing both directions. A reader and a writer
/// that wait are woken.
pub proof fn aborts_finish_both_directions(state: &mut SharedStreamState, woken: &mut Wakes)
    requires
        state.valid(),
        call_ensures(SharedStreamState::try_abort, (state, woken), ()),
    ensures
        finished_writing(final(state)@.inbound),
        finished_reading(final(state)@.outbound),
        final(state)@.outbound is Closed,
        final(state)@.inbound.unread() == old(state)@.inbound.unread(),
        old(state)@.inbound.reader() matches Some(reader) ==> final(woken)@.contains(reader),
        old(state)@.outbound.writer() matches Some(writer) ==> final(woken)@.contains(writer),
{
    let before = old(woken)@;
    let by_write = old(state)@.woken_by_fin_write(true);
    let by_read = old(state)@.finished(false, true).woken_by_fin_read(true);
    assert(final(woken)@ == before + by_write + by_read);
    if let Some(reader) = old(state)@.inbound.reader() {
        assert(by_write.last() == reader);
        assert(final(woken)@[before.len() + by_write.len() - 1] == reader);
    }
    if let Some(writer) = old(state)@.outbound.writer() {
        assert(by_read[0] == writer);
        assert(final(woken)@[(before + by_write).len() as int] == writer);
    }
}

/// The fins of a stream are those that both of its directions have.
pub proof fn streams_have_the_fins_of_both(state: &SharedStreamState, r: FinState)
    requires
        call_ensures(SharedStreamState::fin_state, (state,), r),
    ensures
        r.sent <==> (state.inbound@ matches InboundView::Closed { fin, .. } && fin.sent) && (
        state.outbound@ matches OutboundView::Closed { fin, .. } && fin.sent),
        r.received <==> (state.inbound@ matches InboundView::Closed { fin, .. } && fin.received)
            && (state.outbound@ matches OutboundView::Closed { fin, .. } && fin.received),
{
}

/// A slot remembers the last waker that it was given, hands it out once, and wakes
/// it once.
pub proof fn slots_wake_whom_they_hold(
    slot: &mut WakerSlot,
    waker: &Waker,
    second: &mut WakerSlot,
    woken: &mut Wakes,
    third: &mut WakerSlot,
    taken: WakerSlot,
    held: &WakerSlot,
    is_held: bool,
)
    requires
        call_ensures(WakerSlot::register, (slot, waker), ()),
        call_ensures(WakerSlot::wake, (second, woken), ()),
        call_ensures(WakerSlot::take, (third,), taken),
        call_ensures(WakerSlot::is_registered, (held,), is_held),
    ensures
        final(slot)@ == Some(*waker),
        stirred(true, old(second)@, final(second)@, old(woken)@, final(woken)@),
        taken@ == old(third)@,
        final(third)@ is None,
        is_held <==> held@ is Some,
{
    assert(old(woken)@ + Seq::<Waker>::empty() =~= old(woken)@);
    if let Some(w) = old(second)@ {
        assert(old(woken)@ + seq![w] =~= old(woken)@.push(w));
    }
}

/// Nobody waits in a fresh slot and nobody is to be woken by a fresh list, and those
/// who are to be woken are handed over as they stand in it.
pub proof fn nobody_waits_at_first(slot: WakerSlot, woken: Wakes, list: Wakes, wakers: Vec<Waker>)
    requires
        call_ensures(WakerSlot::new, (), slot),
        call_ensures(Wakes::new, (), woken),
        call_ensures(Wakes::into_wakers, (list,), wakers),
    ensures
        slot@ is None,
        woken@.len() == 0,
        wakers@ == list@,
{
}

} // verus!
