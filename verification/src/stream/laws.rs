//! What holds of a stream across calls, and of the two sides of a stream.

use vstd::prelude::*;

use crate::global_pool::GlobalPool;
use crate::codec::decoder::FrameView;
use crate::stream::inbound::{growth_is_no_loss, total_of_push, InboundView, RecvWindow};
use crate::stream::outbound::OutboundView;
use crate::stream::updates::{first_frame, second_frame};
use crate::stream_id::StreamId;
use crate::time::Timestamp;

verus! {

/// One resize never takes a window below its initial size, never shrinks it by
/// more than a quarter, never multiplies it by more than the growth factor, and
/// never borrows more than the pool has.
pub proof fn resizes_are_bounded(window: RecvWindow, pool: GlobalPool, optimal: u32)
    requires
        window.valid(),
        pool.valid(),
    ensures
        ({
            let next = window.next_size(pool, optimal);
            &&& window.initial <= next <= u32::MAX
            &&& window.current - window.current as int / 4 <= next
            &&& next <= pool.growth * window.current
            &&& next - window.current <= pool.available
        }),
{
    growth_is_no_loss(window.current, pool.growth);
}

/// Where no round trip is known, a window keeps its size and an update returns
/// exactly what was read.
pub proof fn unmeasured_windows_keep_their_size(
    window: RecvWindow,
    pool: GlobalPool,
    optimal: u32,
)
    requires
        pool.dirty_rtt is None,
    ensures
        window.next_size(pool, optimal) == window.current,
        window.update_value(pool, optimal) == window.freed,
{
}

/// The sender's window is the receiver's credit, whatever passes between them:
/// data that the sender frames is within the credit that the receiver checks,
/// and credit that the receiver returns is what the sender adds.
pub proof fn windows_stay_in_step(
    sender: OutboundView,
    receiver: InboundView,
    send_budget: Option<u32>,
    pool: GlobalPool,
    optimal: u32,
    now: Timestamp,
)
    requires
        sender.valid(),
        receiver.valid(),
        pool.valid(),
        !(sender is Closed),
        receiver is Open,
        sender.window() == receiver.credit(),
        pool.available + receiver.borrowed() <= usize::MAX,
    ensures
        sender.update(send_budget) matches Some((data, _)) ==> {
            &&& data.len() <= receiver.credit()
            &&& sender.polled(send_budget).window() == receiver.data_received(data).credit()
        },
        receiver.update(pool, optimal) matches Some((update, _)) ==> {
            &&& sender.window() + update <= u32::MAX
            &&& sender.with_window(sender.window() + update).window() == receiver.polled(
                pool,
                optimal,
                now,
            ).credit()
        },
        receiver.update(pool, optimal) is None ==> receiver.polled(pool, optimal, now).credit()
            == receiver.credit(),
{
    if let InboundView::Open { ready, window, .. } = receiver {
        resizes_are_bounded(window, pool, optimal);
        if let Some((data, _)) = sender.update(send_budget) {
            total_of_push(ready, data);
        }
    }
}

/// A frame's data is the front of what was written, within the peer's window,
/// the frame limit and the transit budget, and the rest stays in order.
pub proof fn framing_keeps_order_and_limits(sender: OutboundView, send_budget: Option<u32>)
    requires
        sender.valid(),
        !(sender is Closed),
    ensures
        sender.update(send_budget) matches Some((data, fin)) ==> {
            &&& data.len() > 0
            &&& data + sender.polled(send_budget).pending() == sender.pending()
            &&& data.len() <= sender.window()
            &&& data.len() <= sender.frame_room()
            &&& send_budget matches Some(budget) ==> data.len() <= budget
            &&& sender.polled(send_budget).window() == sender.window() - data.len()
        },
{
    if let Some((data, fin)) = sender.update(send_budget) {
        let n = sender.chunk_len(send_budget);
        assert(data + sender.polled(send_budget).pending() =~= sender.pending());
    }
}

/// Data is held back only where there is none, or the peer's window or the
/// transit budget is spent.
pub proof fn data_is_held_back_for_a_reason(sender: OutboundView, send_budget: Option<u32>)
    requires
        sender.valid(),
        !(sender is Closed),
    ensures
        sender.update(send_budget) is None <==> sender.pending().len() == 0 || sender.window() == 0
            || send_budget == Some(0u32),
{
}

/// A reader takes chunks in the order in which they arrived.
pub proof fn data_is_read_in_order(receiver: InboundView, data: Seq<u8>)
    requires
        receiver is Open,
        data.len() > 0,
    ensures
        receiver.data_received(data).unread() == receiver.unread().push(data),
        receiver.unread().len() > 0 ==> receiver.chunk_read().unread()
            == receiver.unread().drop_first(),
{
}

/// Each direction sends its fin once: after the frame that carries it there is
/// nothing left to say, whatever the pool, the window size or the transit budget
/// is by then.
pub proof fn fins_are_sent_once(
    receiver: InboundView,
    sender: OutboundView,
    pool: GlobalPool,
    optimal: u32,
    send_budget: Option<u32>,
    now: Timestamp,
    later_pool: GlobalPool,
    later_optimal: u32,
    later_budget: Option<u32>,
)
    ensures
        receiver.update(pool, optimal) matches Some((_, fin_read)) && fin_read ==> receiver.polled(
            pool,
            optimal,
            now,
        ).update(later_pool, later_optimal) is None,
        sender.update(send_budget) matches Some((_, fin_write)) && fin_write ==> {
            let after = sender.polled(send_budget);
            &&& after.fins().sent
            &&& after.update(later_budget) is None
            &&& after.polled(later_budget) == after
        },
{
}

/// A stream that has sent both fins has returned everything that it borrowed.
pub proof fn dead_streams_owe_nothing(receiver: InboundView)
    requires
        receiver.valid(),
        receiver.fins().sent,
    ensures
        receiver.borrowed() == 0,
{
}

/// Only the first frame of a stream carries `SYN`, and `FIN_READ` and
/// `FIN_WRITE` go with the window update and the data that they belong to.
pub proof fn flags_go_with_their_frames(
    id: StreamId,
    syn: bool,
    update: Option<(u32, bool)>,
    payload: Option<(Seq<u8>, bool)>,
)
    requires
        update is Some || payload is Some,
    ensures
        ({
            let first = first_frame(id, syn, update, payload);
            &&& first matches FrameView::WindowUpdate { flags, .. } ==> flags.syn == syn
                && !flags.fin_write
            &&& first matches FrameView::Data { flags, .. } ==> flags.syn == syn && !flags.fin_read
            &&& first is WindowUpdate || first is Data
            &&& second_frame(id, update, payload) matches Some(second) ==> {
                &&& first is WindowUpdate
                &&& second matches FrameView::Data { flags, .. } && !flags.syn && !flags.fin_read
            }
        }),
{
}

/// Pending data survives the writer's end: closing frames the same bytes, with
/// the fin on the last of them.
pub proof fn closing_flushes_pending_data(sender: OutboundView, send_budget: Option<u32>)
    requires
        sender.valid(),
        sender is Open,
        sender.pending().len() > 0,
    ensures
        sender.writing_closed() is HalfClosed,
        sender.writing_closed().pending() == sender.pending(),
        sender.writing_closed().update(send_budget) matches Some((data, fin)) ==> {
            &&& sender.update(send_budget) == Some((data, false))
            &&& fin <==> data == sender.pending()
        },
{
    let n = sender.chunk_len(send_budget);
    if n > 0 {
        let data = sender.pending().subrange(0, n);
        if n == sender.pending().len() {
            assert(data =~= sender.pending());
        }
    }
}

} // verus!
