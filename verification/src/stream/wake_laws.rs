//! Nobody who waits on a stream waits in vain, and nobody is woken for nothing.

use std::task::Waker;

use vstd::prelude::*;

use crate::buffer::total_len;
use crate::global_pool::GlobalPool;
use crate::stream::handle::StreamView;
use crate::stream::inbound::InboundView;
use crate::stream::laws::resizes_are_bounded;
use crate::stream::outbound::OutboundView;
use crate::stream::waker::registered;
use crate::time::Timestamp;

verus! {

impl InboundView {
    /// Whether a reader has to wait.
    pub open spec fn read_waits(self) -> bool {
        !(self is Closed) && self.unread().len() == 0
    }

    /// Whether there is nothing to tell the peer.
    pub open spec fn quiet(self, pool: GlobalPool, optimal: u32) -> bool {
        self.update(pool, optimal) is None
    }
}

impl OutboundView {
    /// Whether a writer that flushes has to wait.
    pub open spec fn flush_waits(self) -> bool {
        self.pending().len() > 0
    }

    /// Whether there is nothing to send, the transit window left aside.
    pub open spec fn quiet(self) -> bool {
        self.update(None) is None
    }
}

/// Who a step is to wake, where `waiting` tells whether there is still something
/// to wait for behind it.
pub open spec fn due(registered_as: Option<Waker>, waiting: bool) -> Seq<Waker> {
    if waiting {
        Seq::empty()
    } else {
        registered(registered_as)
    }
}

/// A reader is registered only while it has to wait. Data and the peer's
/// `FIN_WRITE` wake it exactly where it has not to wait any more; otherwise it
/// stays registered. Polling the direction for updates leaves it alone.
pub proof fn readers_are_woken_in_time(
    s: InboundView,
    data: Seq<u8>,
    poller: Option<Waker>,
    pool: GlobalPool,
    optimal: u32,
    now: Timestamp,
)
    requires
        s.valid(),
        data.len() <= s.credit(),
        !s.fin_received(),
    ensures
        s.reader() is Some ==> s.read_waits(),
        ({
            let after = s.data_received(data);
            &&& s.woken_by_data(data) == due(s.reader(), after.read_waits())
            &&& after.reader() == if after.read_waits() {
                s.reader()
            } else {
                None
            }
        }),
        ({
            let after = s.writing_finished();
            let stirs = if s.fin_stirs() {
                registered(poller)
            } else {
                Seq::empty()
            };
            &&& s.woken_by_fin(poller) == stirs + due(s.reader(), after.read_waits())
            &&& after.reader() == if after.read_waits() {
                s.reader()
            } else {
                None
            }
        }),
        s.polled(pool, optimal, now).reader() == s.reader(),
{
}

/// A writer is registered only while it has to wait. Framing the last of its data
/// and the peer's `FIN_READ` wake it, exactly where it has not to wait any more;
/// otherwise it stays registered. Credit leaves it alone, and closing its end
/// does where data is left.
pub proof fn writers_are_woken_in_time(
    s: OutboundView,
    send_budget: Option<u32>,
    poller: Option<Waker>,
    window: u32,
)
    requires
        s.valid(),
    ensures
        s.writer() is Some ==> s.flush_waits(),
        ({
            let after = s.polled(send_budget);
            &&& s.woken_by_poll(send_budget) == due(s.writer(), after.flush_waits())
            &&& after.writer() == if after.flush_waits() {
                s.writer()
            } else {
                None
            }
        }),
        ({
            let after = s.reading_finished();
            let stirs = if s is Closed {
                Seq::empty()
            } else {
                registered(poller)
            };
            &&& !after.flush_waits()
            &&& s.woken_by_fin(poller) == registered(s.writer()) + stirs
        }),
        s.with_window(window as int).writer() == s.writer(),
        s.writing_closed().writer() == s.writer(),
{
}

/// Whoever polls a stream for updates that has none is woken by the application
/// exactly where it gives the stream something to send: by writing, by reading,
/// and by closing either end.
pub proof fn pollers_learn_of_what_the_application_does(
    s: StreamView,
    data: Seq<u8>,
    pool: GlobalPool,
    optimal: u32,
)
    requires
        s.inbound.valid(),
        s.outbound.valid(),
        pool.valid(),
        s.inbound.quiet(pool, optimal),
        s.outbound.quiet(),
    ensures
        s.outbound is Open && s.outbound.pending().len() == 0 ==> (s.outbound.write_stirs(data)
            <==> !s.outbound.with_data(data).quiet()),
        s.outbound.close_stirs() <==> !s.outbound.writing_closed().quiet(),
        s.inbound.unread().len() > 0 ==> (s.inbound.read_stirs()
            <==> !s.inbound.chunk_read().quiet(pool, optimal)),
        s.inbound.unread().len() == 0 ==> !s.inbound.read_stirs(),
        !(s.inbound is Closed) <==> !s.inbound.reading_closed().quiet(pool, optimal),
{
    if s.inbound.unread().len() > 0 {
        reads_make_updates_due(s.inbound, pool, optimal);
    }
}

/// The same of what the peer sends: credit and its fins wake whoever polls the
/// stream exactly where they give it something to send, and data never does.
pub proof fn pollers_learn_of_what_the_peer_does(
    s: StreamView,
    data: Seq<u8>,
    update: u32,
    pool: GlobalPool,
    optimal: u32,
)
    requires
        s.inbound.valid(),
        s.outbound.valid(),
        pool.valid(),
        s.inbound.quiet(pool, optimal),
        s.outbound.quiet(),
        data.len() <= s.inbound.credit(),
        s.accepts_update(update),
    ensures
        s.with_data(data).inbound.quiet(pool, optimal),
        s.woken_by_update(update) == due(s.poller, s.with_update(update).outbound.quiet()),
        ({
            let after = s.finished(true, false);
            &&& s.woken_by_fin_read(true) == registered(s.outbound.writer()) + due(
                s.poller,
                after.outbound.quiet(),
            )
            &&& after.poller == if after.outbound.quiet() {
                s.poller
            } else {
                None
            }
        }),
        !s.inbound.fin_received() ==> {
            let after = s.finished(false, true);
            &&& s.woken_by_fin_write(true) == due(s.poller, after.inbound.quiet(pool, optimal))
                + due(s.inbound.reader(), after.inbound.read_waits())
            &&& after.poller == if after.inbound.quiet(pool, optimal) {
                s.poller
            } else {
                None
            }
        },
{
}

/// An update that reading makes due is never empty.
proof fn reads_make_updates_due(s: InboundView, pool: GlobalPool, optimal: u32)
    requires
        s.valid(),
        pool.valid(),
        s.unread().len() > 0,
    ensures
        s.read_stirs() <==> !s.chunk_read().quiet(pool, optimal),
{
    if let InboundView::Open { ready, window, .. } = s {
        assert(total_len(ready) == ready[0].len() + total_len(ready.drop_first()));
        let after = s.chunk_read()->window;
        assert(after.freed > 0);
        resizes_are_bounded(after, pool, optimal);
    }
}

} // verus!
