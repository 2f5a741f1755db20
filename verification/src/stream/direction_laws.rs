//! What each call on a direction of a stream comes to.

use std::task::Waker;

use bytes::Bytes;
use vstd::prelude::*;

use super::fin::FinState;
use super::inbound::{growth_is_no_loss, InboundTraffic, InboundView, SizingInputs};
use super::outbound::{OutboundTraffic, OutboundView, WriteError};
use super::sizing_laws::as_close_as_possible;
use super::waker::{WakerSlot, Wakes};
use crate::buffer::Data;
use crate::bytes_ext::content;
use crate::error::StreamError;
use crate::global_pool::GlobalPool;
use crate::poll::Poll;
use crate::time::Timestamp;

verus! {

/// Whether whoever was in a slot has been put on a list of those to wake, and the
/// slot is empty, if there is a reason to; and all is as it was if there is none.
pub open spec fn stirred(
    reason: bool,
    slot: Option<Waker>,
    slot_after: Option<Waker>,
    woken: Seq<Waker>,
    woken_after: Seq<Waker>,
) -> bool {
    if !reason {
        slot_after == slot && woken_after == woken
    } else {
        slot_after is None && match slot {
            Some(waker) => woken_after == woken.push(waker),
            None => woken_after == woken,
        }
    }
}

/// A direction starts with the whole window granted and nothing read.
pub proof fn readers_start_with_a_whole_window(recv_window: u32, now: Timestamp, r: InboundTraffic)
    requires
        recv_window > 0,
        call_ensures(InboundTraffic::new, (recv_window, now), r),
    ensures
        r@ matches InboundView::Open { ready, reader, window } && {
            &&& ready.len() == 0
            &&& reader is None
            &&& window.initial == recv_window
            &&& window.current == recv_window
            &&& window.consumed == 0
            &&& window.freed == 0
            &&& window.last_update == now
        },
{
}

/// A read takes the oldest chunk, and waits only where more may come. What is read
/// of an open direction is freed, and once that is half of the window whoever
/// polls for updates is woken. Behind the peer's fin it frees as much of the
/// borrow, and the last chunk closes the direction, for a fin to be sent.
pub proof fn reads_free_what_they_take(
    inbound: &mut InboundTraffic,
    waker: &Waker,
    poller: &mut WakerSlot,
    woken: &mut Wakes,
    r: Poll<Option<Data>>,
)
    requires
        inbound@.valid(),
        call_ensures(InboundTraffic::poll_read, (inbound, waker, poller, woken), r),
    ensures
        match old(inbound)@ {
            InboundView::Open { ready, reader, window } => {
                final(inbound)@ matches InboundView::Open {
                    ready: left,
                    reader: waiting,
                    window: after,
                } && {
                    &&& after.initial == window.initial && after.current == window.current
                        && after.consumed == window.consumed && after.last_update
                        == window.last_update
                    &&& ready.len() == 0 ==> {
                        &&& r is Pending
                        &&& left.len() == 0
                        &&& waiting == Some(*waker)
                        &&& after.freed == window.freed
                    }
                    &&& ready.len() > 0 ==> {
                        &&& r matches Poll::Ready(Some(data)) && data@ == ready[0]
                        &&& seq![ready[0]] + left == ready
                        &&& waiting == reader
                        &&& after.freed == window.freed + ready[0].len()
                    }
                    &&& stirred(
                        ready.len() > 0 && after.freed >= after.current / 2,
                        old(poller)@,
                        final(poller)@,
                        old(woken)@,
                        final(woken)@,
                    )
                }
            },
            InboundView::HalfClosed { ready, borrow, freed_borrow } => {
                &&& r matches Poll::Ready(Some(data)) && data@ == ready[0]
                &&& stirred(
                    ready.len() == 1,
                    old(poller)@,
                    final(poller)@,
                    old(woken)@,
                    final(woken)@,
                )
                &&& ready.len() == 1 ==> (final(inbound)@ matches InboundView::Closed {
                    stale_borrow,
                    remaining,
                    fin,
                } && stale_borrow == borrow + freed_borrow && remaining == 0 && !fin.sent
                    && fin.received)
                &&& ready.len() > 1 ==> (final(inbound)@ matches InboundView::HalfClosed {
                    ready: left,
                    borrow: held,
                    freed_borrow: freed,
                } && {
                    &&& seq![ready[0]] + left == ready
                    &&& held + freed == borrow + freed_borrow
                    &&& freed - freed_borrow <= ready[0].len()
                    &&& freed - freed_borrow == ready[0].len() || held == 0
                })
            },
            InboundView::Closed { .. } => {
                &&& r matches Poll::Ready(None)
                &&& final(inbound)@ == old(inbound)@
                &&& stirred(false, old(poller)@, final(poller)@, old(woken)@, final(woken)@)
            },
        },
{
    assert(old(woken)@ + Seq::<Waker>::empty() =~= old(woken)@);
    if let Some(w) = old(poller)@ {
        assert(old(woken)@ + seq![w] =~= old(woken)@.push(w));
    }
    match inbound@ {
        InboundView::Open { ready, .. } => {
            if ready.len() > 0 {
                assert(seq![ready[0]] + ready.drop_first() =~= ready);
            }
        },
        InboundView::HalfClosed { ready, .. } => {
            assert(seq![ready[0]] + ready.drop_first() =~= ready);
        },
        _ => {},
    }
}

/// Data is refused where it comes behind the peer's fin, or is more than the peer
/// was granted. Otherwise it uses up as much of the grant; an open direction keeps
/// it for its reader, who is woken, and one that nobody reads drops it.
pub proof fn data_uses_up_the_grant(
    inbound: &mut InboundTraffic,
    data: Data,
    woken: &mut Wakes,
    r: Result<(), StreamError>,
)
    requires
        inbound@.valid(),
        0 < data@.len() <= u32::MAX,
        call_ensures(InboundTraffic::received_data, (inbound, data, woken), r),
    ensures
        match old(inbound)@ {
            InboundView::Open { ready, reader, window } => if data@.len() > window.current
                - window.consumed {
                &&& r matches Err(error) && error.0@ == "exceeded available receive window"@
                &&& final(inbound)@ == old(inbound)@
                &&& final(woken)@ == old(woken)@
            } else {
                &&& r is Ok
                &&& final(inbound)@ matches InboundView::Open {
                    ready: held,
                    reader: waiting,
                    window: after,
                } && {
                    &&& held == ready.push(data@)
                    &&& stirred(true, reader, waiting, old(woken)@, final(woken)@)
                    &&& after.consumed == window.consumed + data@.len()
                    &&& after.freed == window.freed && after.current == window.current
                        && after.initial == window.initial && after.last_update
                        == window.last_update
                }
            },
            InboundView::HalfClosed { .. } => {
                &&& r matches Err(error) && error.0@ == "sent data after FIN_WRITE"@
                &&& final(inbound)@ == old(inbound)@
                &&& final(woken)@ == old(woken)@
            },
            InboundView::Closed { stale_borrow, remaining, fin } => {
                &&& final(woken)@ == old(woken)@
                &&& fin.received ==> (r matches Err(error) && error.0@
                    == "sent data after FIN_WRITE"@ && final(inbound)@ == old(inbound)@)
                &&& !fin.received && data@.len() > remaining ==> (r matches Err(error) && error.0@
                    == "exceeded available receive window"@ && final(inbound)@ == old(inbound)@)
                &&& !fin.received && data@.len() <= remaining ==> r is Ok && (final(inbound)@
                    matches InboundView::Closed {
                    stale_borrow: stale,
                    remaining: left,
                    fin: fins,
                } && stale == stale_borrow && left == remaining - data@.len() && fins == fin)
            },
        },
{
    assert(old(woken)@ + Seq::<Waker>::empty() =~= old(woken)@);
    if let Some(w) = inbound@.reader() {
        assert(old(woken)@ + seq![w] =~= old(woken)@.push(w));
    }
}

/// Empty data changes nothing and is never refused.
pub proof fn empty_data_is_nothing(
    inbound: &mut InboundTraffic,
    data: Data,
    woken: &mut Wakes,
    r: Result<(), StreamError>,
)
    requires
        inbound@.valid(),
        data@.len() == 0,
        call_ensures(InboundTraffic::received_data, (inbound, data, woken), r),
    ensures
        r is Ok,
        final(inbound)@ == old(inbound)@,
        final(woken)@ == old(woken)@,
{
    assert(old(woken)@ + Seq::<Waker>::empty() =~= old(woken)@);
}

/// The peer's fin is accepted once. It closes a direction that is drained, which
/// wakes whoever has to send our fin and the reader; data that is still to be read
/// keeps the direction half-closed. What was borrowed stays borrowed for now.
pub proof fn fins_close_drained_directions(
    inbound: &mut InboundTraffic,
    poller: &mut WakerSlot,
    woken: &mut Wakes,
    r: Result<(), StreamError>,
)
    requires
        inbound@.valid(),
        call_ensures(InboundTraffic::received_fin_write, (inbound, poller, woken), r),
    ensures
        match old(inbound)@ {
            InboundView::Open { ready, reader, window } => {
                &&& r is Ok
                &&& ready.len() == 0 ==> {
                    &&& final(inbound)@ matches InboundView::Closed {
                        stale_borrow,
                        remaining,
                        fin,
                    } && stale_borrow == window.current - window.initial && remaining == 0
                        && !fin.sent && fin.received
                    &&& final(poller)@ is None
                    &&& exists|between: Seq<Waker>|
                        stirred(true, old(poller)@, None, old(woken)@, between) && stirred(
                            true,
                            reader,
                            None,
                            between,
                            final(woken)@,
                        )
                }
                &&& ready.len() > 0 ==> {
                    &&& final(inbound)@ == (InboundView::HalfClosed {
                        ready,
                        borrow: (window.current - window.initial) as u32,
                        freed_borrow: 0,
                    })
                    &&& stirred(false, old(poller)@, final(poller)@, old(woken)@, final(woken)@)
                }
            },
            InboundView::HalfClosed { .. } => {
                &&& r matches Err(error) && error.0@ == "sent duplicate FIN_WRITE"@
                &&& final(inbound)@ == old(inbound)@
                &&& stirred(false, old(poller)@, final(poller)@, old(woken)@, final(woken)@)
            },
            InboundView::Closed { stale_borrow, remaining, fin } => {
                &&& stirred(false, old(poller)@, final(poller)@, old(woken)@, final(woken)@)
                &&& fin.received ==> (r matches Err(error) && error.0@
                    == "sent duplicate FIN_WRITE"@ && final(inbound)@ == old(inbound)@)
                &&& !fin.received ==> r is Ok && final(inbound)@ == (InboundView::Closed {
                    stale_borrow,
                    remaining,
                    fin: FinState { sent: fin.sent, received: true },
                })
            },
        },
{
    let before = old(woken)@;
    assert(before + Seq::<Waker>::empty() =~= before);
    if let InboundView::Open { ready, reader, .. } = inbound@ {
        if ready.len() == 0 {
            let between = match old(poller)@ {
                Some(w) => before.push(w),
                None => before,
            };
            let end = match reader {
                Some(w) => between.push(w),
                None => between,
            };
            assert(final(woken)@ =~= end);
            assert(stirred(true, old(poller)@, None, before, between));
            assert(stirred(true, reader, None, between, final(woken)@));
        }
    }
}

/// A reader that leaves closes the direction, for a fin to be sent: what was
/// borrowed is to be returned, and the peer may still send what it was granted.
pub proof fn leaving_keeps_the_grant(
    inbound: &mut InboundTraffic,
    poller: &mut WakerSlot,
    woken: &mut Wakes,
)
    requires
        inbound@.valid(),
        call_ensures(InboundTraffic::close_reading, (inbound, poller, woken), ()),
    ensures
        stirred(
            !(old(inbound)@ is Closed),
            old(poller)@,
            final(poller)@,
            old(woken)@,
            final(woken)@,
        ),
        match old(inbound)@ {
            InboundView::Open { window, .. } => {
                final(inbound)@ matches InboundView::Closed { stale_borrow, remaining, fin } && {
                    &&& stale_borrow == window.current - window.initial
                    &&& remaining == window.current - window.consumed
                    &&& !fin.sent && !fin.received
                }
            },
            InboundView::HalfClosed { borrow, freed_borrow, .. } => {
                final(inbound)@ matches InboundView::Closed { stale_borrow, remaining, fin } && {
                    &&& stale_borrow == borrow + freed_borrow
                    &&& remaining == 0
                    &&& !fin.sent && fin.received
                }
            },
            InboundView::Closed { .. } => final(inbound)@ == old(inbound)@,
        },
{
    assert(old(woken)@ + Seq::<Waker>::empty() =~= old(woken)@);
    if let Some(w) = old(poller)@ {
        assert(old(woken)@ + seq![w] =~= old(woken)@.push(w));
    }
}

/// A poll of an open direction updates the window once half of it was read, gives
/// the peer what that frees, and resizes the window as close to the optimum as one
/// step gets. A direction that has ended returns what it borrowed to the pool as
/// far as it was read, and sends its fin once.
pub proof fn polls_tell_the_peer(
    inbound: &mut InboundTraffic,
    pool: &mut GlobalPool,
    optimal: u32,
    now: Timestamp,
    r: Poll<(u32, bool)>,
)
    requires
        inbound@.valid(),
        pool.valid(),
        pool.available + inbound@.borrowed() <= usize::MAX,
        call_ensures(InboundTraffic::poll_update, (inbound, pool, optimal, now), r),
    ensures
        final(pool).growth == old(pool).growth,
        final(pool).dirty_rtt == old(pool).dirty_rtt,
        final(pool).send_budget == old(pool).send_budget,
        final(pool).transit_blocked == old(pool).transit_blocked,
        match old(inbound)@ {
            InboundView::Open { ready, reader, window } => if window.freed < window.current / 2 {
                r is Pending && final(inbound)@ == old(inbound)@ && *final(pool) == *old(pool)
            } else {
                final(inbound)@ matches InboundView::Open {
                    ready: left,
                    reader: waiting,
                    window: after,
                } && {
                    let credit = window.freed + after.current - window.current;
                    &&& left == ready && waiting == reader
                    &&& credit == 0 ==> r is Pending
                    &&& credit != 0 ==> (r matches Poll::Ready((update, fin_read)) && update
                        == credit && !fin_read)
                    &&& after.freed == 0
                    &&& after.consumed == window.consumed - window.freed
                    &&& after.last_update == now
                    &&& after.initial == window.initial
                    &&& final(pool).available == old(pool).available + window.current
                        - after.current
                    &&& old(pool).dirty_rtt is None ==> after.current == window.current
                    &&& old(pool).dirty_rtt is Some ==> as_close_as_possible(
                        window.initial as int,
                        window.current as int,
                        old(pool).growth as int,
                        old(pool).available as int,
                        optimal as int,
                        after.current as int,
                    )
                }
            },
            InboundView::HalfClosed { ready, borrow, freed_borrow } => {
                &&& r is Pending
                &&& final(inbound)@ == (InboundView::HalfClosed { ready, borrow, freed_borrow: 0 })
                &&& final(pool).available == old(pool).available + freed_borrow
            },
            InboundView::Closed { stale_borrow, remaining, fin } => {
                &&& fin.sent ==> r is Pending
                &&& !fin.sent ==> (r matches Poll::Ready((update, fin_read)) && update == 0
                    && fin_read)
                &&& final(inbound)@ == (InboundView::Closed {
                    stale_borrow: 0,
                    remaining,
                    fin: FinState { sent: true, received: fin.received },
                })
                &&& final(pool).available == old(pool).available + stale_borrow
            },
        },
{
    if let InboundView::Open { window, .. } = inbound@ {
        growth_is_no_loss(window.current, pool.growth);
    }
}

/// The optimum of an open direction is calculated from what was read since the
/// last update, the time since then, and the round trip, once half of the window
/// was read.
pub proof fn windows_are_sized_by_what_was_read(
    inbound: &InboundTraffic,
    pool: &GlobalPool,
    now: Timestamp,
    r: Option<SizingInputs>,
)
    requires
        call_ensures(InboundTraffic::sizing_inputs, (inbound, pool, now), r),
    ensures
        r is Some <==> pool.dirty_rtt is Some && (inbound@ matches InboundView::Open {
            window,
            ..
        } && window.freed >= window.current / 2),
        r matches Some(inputs) ==> (inbound@ matches InboundView::Open { window, .. } && {
            &&& inputs.freed == window.freed
            &&& pool.dirty_rtt == Some(inputs.rtt)
            &&& window.last_update.nanos <= now.nanos ==> inputs.elapsed.nanos == now.nanos
                - window.last_update.nanos
            &&& now.nanos < window.last_update.nanos ==> inputs.elapsed.nanos == 0
        }),
{
}

/// What a direction has borrowed, and which fins have passed, can be asked. The
/// fins of a direction do not count before all of its data was read.
pub proof fn readers_tell_what_they_hold(inbound: &InboundTraffic, borrowed: u64, fins: FinState)
    requires
        inbound@.valid(),
        call_ensures(InboundTraffic::borrowed, (inbound,), borrowed),
        call_ensures(InboundTraffic::fin_state, (inbound,), fins),
    ensures
        match inbound@ {
            InboundView::Open { window, .. } => borrowed == window.current - window.initial
                && !fins.sent && !fins.received,
            InboundView::HalfClosed { borrow, freed_borrow, .. } => borrowed == borrow
                + freed_borrow && !fins.sent && !fins.received,
            InboundView::Closed { stale_borrow, fin, .. } => borrowed == stale_borrow && fins
                == fin,
        },
{
}

/// A direction starts with nothing to send and what the peer grants.
pub proof fn writers_start_with_a_grant(frame_limit: u32, recv_window: u32, r: OutboundTraffic)
    requires
        frame_limit > 0,
        call_ensures(OutboundTraffic::new, (frame_limit, recv_window), r),
    ensures
        r@ matches OutboundView::Open { ready, frame_limit: limit, recv_window: granted, writer }
            && ready.len() == 0 && limit == frame_limit && granted == recv_window && writer is None,
{
}

/// Whether a frame of `n` bytes is as long as it can be: as there is data, as the
/// peer grants, as one frame carries, and as the transit budget has left.
pub open spec fn as_long_as_possible(
    n: int,
    pending: int,
    granted: int,
    limit: int,
    budget: Option<u32>,
) -> bool {
    &&& 0 <= n <= pending && n <= granted && n <= limit
    &&& budget matches Some(left) ==> n <= left
    &&& n == pending || n == granted || n == limit || (budget matches Some(left) && n == left)
}

/// A poll frames the front of what was written, as much of it as possible, out of
/// what the peer grants. The last of it wakes the writer, and carries the fin if
/// the writer is gone. Where there is nothing to frame, that is told apart from
/// data that only the transit budget holds back.
pub proof fn polls_frame_the_front(
    outbound: &mut OutboundTraffic,
    budget: Option<u32>,
    blocked: &mut bool,
    woken: &mut Wakes,
    r: Poll<(Bytes, bool)>,
)
    requires
        outbound@.valid(),
        !(outbound@ is Closed),
        call_ensures(OutboundTraffic::poll_update, (outbound, budget, blocked, woken), r),
    ensures
        ({
            let before = old(outbound)@;
            let after = final(outbound)@;
            let (pending, limit, granted, writer) = match before {
                OutboundView::Open { ready, frame_limit, recv_window, writer } => (
                    ready,
                    frame_limit,
                    recv_window,
                    writer,
                ),
                OutboundView::HalfClosed { ready, frame_limit, recv_window, writer } => (
                    ready,
                    frame_limit,
                    recv_window,
                    writer,
                ),
                _ => arbitrary(),
            };
            let nothing = pending.len() == 0 || granted == 0 || budget == Some(0u32);
            &&& r is Pending <==> nothing
            &&& nothing ==> after == before && final(woken)@ == old(woken)@
            &&& *final(blocked) <==> *old(blocked) || pending.len() > 0 && granted > 0 && budget
                == Some(0u32)
            &&& r matches Poll::Ready((data, fin_write)) ==> {
                let n = content(data).len() as int;
                let last = n == pending.len();
                let left = pending.skip(n);
                &&& content(data) == pending.take(n)
                &&& n > 0
                &&& as_long_as_possible(
                    n,
                    pending.len() as int,
                    granted as int,
                    limit as int,
                    budget,
                )
                &&& fin_write <==> last && before is HalfClosed
                &&& last ==> stirred(true, writer, None, old(woken)@, final(woken)@)
                &&& !last ==> final(woken)@ == old(woken)@
                &&& before is Open ==> after == (OutboundView::Open {
                    ready: left,
                    frame_limit: limit,
                    recv_window: (granted - n) as u32,
                    writer: if last {
                        None
                    } else {
                        writer
                    },
                })
                &&& before is HalfClosed && !last ==> after == (OutboundView::HalfClosed {
                    ready: left,
                    frame_limit: limit,
                    recv_window: (granted - n) as u32,
                    writer,
                })
                &&& before is HalfClosed && last ==> after == (OutboundView::Closed {
                    recv_window: (granted - n) as u32,
                    fin: FinState { sent: true, received: false },
                })
            }
        }),
{
    let before = old(woken)@;
    assert(before + Seq::<Waker>::empty() =~= before);
    if let Some(w) = outbound@.writer() {
        assert(before + seq![w] =~= before.push(w));
    }
    if let Poll::Ready((data, _)) = r {
        let pending = outbound@.pending();
        let n = content(data).len() as int;
        assert(content(data) =~= pending.take(n));
        assert(pending.subrange(n, pending.len() as int) =~= pending.skip(n));
    }
}

/// A closed direction sends its fin once, without data.
pub proof fn closed_writers_send_their_fin(
    outbound: &mut OutboundTraffic,
    budget: Option<u32>,
    blocked: &mut bool,
    woken: &mut Wakes,
    r: Poll<(Bytes, bool)>,
    recv_window: u32,
    fin: FinState,
)
    requires
        outbound@ == (OutboundView::Closed { recv_window, fin }),
        call_ensures(OutboundTraffic::poll_update, (outbound, budget, blocked, woken), r),
    ensures
        r matches Poll::Ready((data, fin_write)) && content(data).len() == 0 && fin_write
            == !fin.sent,
        final(outbound)@ == (OutboundView::Closed {
            recv_window,
            fin: FinState { sent: true, received: fin.received },
        }),
        *final(blocked) == *old(blocked),
        final(woken)@ == old(woken)@,
{
    assert(old(woken)@ + Seq::<Waker>::empty() =~= old(woken)@);
}

/// A writer that leaves closes a direction with nothing to send, for a fin to be
/// sent. Data that waits still goes out, and whoever waits for that keeps waiting.
pub proof fn leaving_writers_flush(
    outbound: &mut OutboundTraffic,
    poller: &mut WakerSlot,
    woken: &mut Wakes,
)
    requires
        outbound@.valid(),
        call_ensures(OutboundTraffic::close_writing, (outbound, poller, woken), ()),
    ensures
        match old(outbound)@ {
            OutboundView::Open { ready, frame_limit, recv_window, writer } => {
                &&& stirred(
                    ready.len() == 0,
                    old(poller)@,
                    final(poller)@,
                    old(woken)@,
                    final(woken)@,
                )
                &&& ready.len() == 0 ==> final(outbound)@ == (OutboundView::Closed {
                    recv_window,
                    fin: FinState { sent: false, received: false },
                })
                &&& ready.len() > 0 ==> final(outbound)@ == (OutboundView::HalfClosed {
                    ready,
                    frame_limit,
                    recv_window,
                    writer,
                })
            },
            _ => {
                &&& final(outbound)@ == old(outbound)@
                &&& stirred(false, old(poller)@, final(poller)@, old(woken)@, final(woken)@)
            },
        },
{
    assert(old(woken)@ + Seq::<Waker>::empty() =~= old(woken)@);
    if let Some(w) = old(poller)@ {
        assert(old(woken)@ + seq![w] =~= old(woken)@.push(w));
    }
}

/// There is room to write where earlier data is all framed, and data is flushed
/// there too. Whoever asks in vain is remembered, and the data stays as it is.
/// Nothing is written to a direction that has ended.
pub proof fn writers_wait_for_earlier_data(
    ready_asked: &mut OutboundTraffic,
    flush_asked: &mut OutboundTraffic,
    waker: &Waker,
    room: Poll<Result<(), WriteError>>,
    flushed: Poll<()>,
)
    requires
        ready_asked@.valid(),
        flush_asked@ == ready_asked@,
        call_ensures(OutboundTraffic::poll_write_ready, (ready_asked, waker), room),
        call_ensures(OutboundTraffic::poll_flushed, (flush_asked, waker), flushed),
    ensures
        match old(ready_asked)@ {
            OutboundView::Open { ready, frame_limit, recv_window, .. } => if ready.len() == 0 {
                &&& room == Poll::Ready(Ok::<(), WriteError>(()))
                &&& flushed == Poll::Ready(())
                &&& final(ready_asked)@ == old(ready_asked)@
                &&& final(flush_asked)@ == old(flush_asked)@
            } else {
                let waiting = OutboundView::Open {
                    ready,
                    frame_limit,
                    recv_window,
                    writer: Some(*waker),
                };
                &&& room is Pending && final(ready_asked)@ == waiting
                &&& flushed is Pending && final(flush_asked)@ == waiting
            },
            OutboundView::HalfClosed { ready, frame_limit, recv_window, .. } => {
                &&& room == Poll::Ready(Err::<(), WriteError>(WriteError::BrokenPipe))
                &&& final(ready_asked)@ == old(ready_asked)@
                &&& flushed is Pending
                &&& final(flush_asked)@ == (OutboundView::HalfClosed {
                    ready,
                    frame_limit,
                    recv_window,
                    writer: Some(*waker),
                })
            },
            OutboundView::Closed { .. } => {
                &&& room == Poll::Ready(Err::<(), WriteError>(WriteError::BrokenPipe))
                &&& flushed == Poll::Ready(())
                &&& final(ready_asked)@ == old(ready_asked)@
                &&& final(flush_asked)@ == old(flush_asked)@
            },
        },
{
}

/// A write is taken where earlier data is all framed, and wakes whoever polls if
/// there is something to send and a grant to send it under.
pub proof fn writes_are_taken_one_at_a_time(
    outbound: &mut OutboundTraffic,
    data: Bytes,
    poller: &mut WakerSlot,
    woken: &mut Wakes,
    r: Result<(), WriteError>,
)
    requires
        outbound@.valid(),
        call_ensures(OutboundTraffic::write, (outbound, data, poller, woken), r),
    ensures
        match old(outbound)@ {
            OutboundView::Open { ready, frame_limit, recv_window, writer } if ready.len() == 0 => {
                &&& r is Ok
                &&& final(outbound)@ == (OutboundView::Open {
                    ready: content(data),
                    frame_limit,
                    recv_window,
                    writer,
                })
                &&& stirred(
                    content(data).len() > 0 && recv_window > 0,
                    old(poller)@,
                    final(poller)@,
                    old(woken)@,
                    final(woken)@,
                )
            },
            _ => {
                &&& r == Err::<(), WriteError>(
                    if old(outbound)@ is Open {
                        WriteError::NotReady
                    } else {
                        WriteError::BrokenPipe
                    },
                )
                &&& final(outbound)@ == old(outbound)@
                &&& stirred(false, old(poller)@, final(poller)@, old(woken)@, final(woken)@)
            },
        },
{
    assert(old(woken)@ + Seq::<Waker>::empty() =~= old(woken)@);
    if let Some(w) = old(poller)@ {
        assert(old(woken)@ + seq![w] =~= old(woken)@.push(w));
    }
}

/// The reader's fin is accepted once. Nobody will read what waits, so it is
/// dropped; the writer and whoever has to send our fin are woken.
pub proof fn fins_drop_what_waits(
    outbound: &mut OutboundTraffic,
    poller: &mut WakerSlot,
    woken: &mut Wakes,
    r: Result<(), StreamError>,
)
    requires
        outbound@.valid(),
        call_ensures(OutboundTraffic::received_fin_read, (outbound, poller, woken), r),
    ensures
        match old(outbound)@ {
            OutboundView::Closed { recv_window, fin } => {
                &&& stirred(false, old(poller)@, final(poller)@, old(woken)@, final(woken)@)
                &&& fin.received ==> (r matches Err(error) && error.0@
                    == "sent duplicate FIN_READ"@ && final(outbound)@ == old(outbound)@)
                &&& !fin.received ==> r is Ok && final(outbound)@ == (OutboundView::Closed {
                    recv_window,
                    fin: FinState { sent: fin.sent, received: true },
                })
            },
            _ => {
                &&& r is Ok
                &&& final(outbound)@ matches OutboundView::Closed { recv_window, fin }
                    && recv_window == old(outbound)@.window() && !fin.sent && fin.received
                &&& final(poller)@ is None
                &&& exists|between: Seq<Waker>|
                    stirred(true, old(outbound)@.writer(), None, old(woken)@, between) && stirred(
                        true,
                        old(poller)@,
                        None,
                        between,
                        final(woken)@,
                    )
            },
        },
{
    let before = old(woken)@;
    assert(before + Seq::<Waker>::empty() =~= before);
    if !(outbound@ is Closed) {
        let writer = outbound@.writer();
        let between = match writer {
            Some(w) => before.push(w),
            None => before,
        };
        let end = match old(poller)@ {
            Some(w) => between.push(w),
            None => between,
        };
        assert(final(woken)@ =~= end);
        assert(stirred(true, writer, None, before, between));
        assert(stirred(true, old(poller)@, None, between, final(woken)@));
    }
}

/// Credit is added to what the peer grants. It is refused where it overflows that,
/// or comes behind the reader's fin; none at all changes nothing. Whoever polls is
/// woken where data waited for the first of it.
pub proof fn credit_is_added(
    outbound: &mut OutboundTraffic,
    update: u32,
    poller: &mut WakerSlot,
    woken: &mut Wakes,
    r: Result<(), StreamError>,
)
    requires
        outbound@.valid(),
        call_ensures(
            OutboundTraffic::received_window_update,
            (outbound, update, poller, woken),
            r,
        ),
    ensures
        update == 0 ==> r is Ok && final(outbound)@ == old(outbound)@,
        ({
            let fin_read = old(outbound)@ matches OutboundView::Closed { fin, .. } && fin.received;
            let fits = old(outbound)@.window() + update <= u32::MAX;
            &&& update > 0 ==> (r is Ok <==> !fin_read && fits)
            &&& update > 0 && fin_read ==> (r matches Err(error) && error.0@
                == "sent window update after FIN_READ"@)
            &&& update > 0 && !fin_read && !fits ==> (r matches Err(error) && error.0@
                == "triggered receive window overflow"@)
            &&& r is Err ==> final(outbound)@ == old(outbound)@
            &&& stirred(
                r is Ok && update > 0 && old(outbound)@.window() == 0
                    && old(outbound)@.pending().len() > 0,
                old(poller)@,
                final(poller)@,
                old(woken)@,
                final(woken)@,
            )
            &&& r is Ok ==> match (old(outbound)@, final(outbound)@) {
                (
                    OutboundView::Open { ready, frame_limit, recv_window, writer },
                    OutboundView::Open {
                        ready: data,
                        frame_limit: limit,
                        recv_window: granted,
                        writer: waiting,
                    },
                ) => {
                    &&& granted == recv_window + update
                    &&& data == ready && limit == frame_limit && waiting == writer
                },
                (
                    OutboundView::HalfClosed { ready, frame_limit, recv_window, writer },
                    OutboundView::HalfClosed {
                        ready: data,
                        frame_limit: limit,
                        recv_window: granted,
                        writer: waiting,
                    },
                ) => {
                    &&& granted == recv_window + update
                    &&& data == ready && limit == frame_limit && waiting == writer
                },
                (
                    OutboundView::Closed { recv_window, fin },
                    OutboundView::Closed { recv_window: granted, fin: fins },
                ) => granted == recv_window + update && fins == fin,
                _ => false,
            }
        }),
{
    assert(old(woken)@ + Seq::<Waker>::empty() =~= old(woken)@);
    if let Some(w) = old(poller)@ {
        assert(old(woken)@ + seq![w] =~= old(woken)@.push(w));
    }
}

/// The fins of a direction count once it has ended. A stream is dead once both
/// fins have passed, and a pair of directions has what both of them have.
pub proof fn fins_are_counted(
    outbound: &OutboundTraffic,
    fins: FinState,
    other: FinState,
    dead: bool,
    pair: FinState,
)
    requires
        call_ensures(OutboundTraffic::fin_state, (outbound,), fins),
        call_ensures(FinState::is_dead, (fins,), dead),
        call_ensures(FinState::and, (fins, other), pair),
    ensures
        match outbound@ {
            OutboundView::Closed { fin, .. } => fins == fin,
            _ => !fins.sent && !fins.received,
        },
        dead <==> fins.sent && fins.received,
        pair.sent <==> fins.sent && other.sent,
        pair.received <==> fins.received && other.received,
{
}

} // verus!
