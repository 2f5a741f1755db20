//! The inbound direction of a stream: what the peer sends and the local reader
//! reads.

use std::task::Waker;

use vstd::prelude::*;

use crate::buffer::{total_len, Data, DataList};
use crate::error::StreamError;
use crate::global_pool::GlobalPool;
use crate::poll::Poll;
use crate::stream::fin::{no_fins, FinState};
use crate::stream::waker::{registered, WakerSlot, Wakes};
use crate::time::{span, TimeSpan, Timestamp};

verus! {

/// Tracks the state of a receive window for an open inbound traffic direction.
#[derive(Clone, Copy, Debug, PartialEq, Eq, Structural)]
pub struct RecvWindow {
    /// Initial size of the receive window, immutable.
    ///
    /// This is taken from the [`RammuxConfig`](crate::config::RammuxConfig) and
    /// same for all virtual streams.
    pub initial: u32,
    /// Current size of the receive window, including the part already consumed
    /// by the remote writer.
    ///
    /// Always >= [`Self::initial`].
    pub current: u32,
    /// Part of the current receive window consumed by the remote writer.
    ///
    /// Always <= [`Self::current`].
    pub consumed: u32,
    /// Part of the current receive window consumed by the remote writer and
    /// freed by the local reader.
    ///
    /// Always <= [`Self::consumed`].
    pub freed: u32,
    /// Time of the last produced window update.
    pub last_update: Timestamp,
}

/// The measurements that an optimal window size is calculated from.
#[derive(Clone, Copy, Debug, PartialEq, Eq, Structural)]
pub struct SizingInputs {
    /// Bytes read since the last update.
    pub freed: u32,
    /// Time since the last update.
    pub elapsed: TimeSpan,
    /// The loaded round trip.
    pub rtt: TimeSpan,
}

/// The larger of two numbers.
pub open spec fn larger(a: int, b: int) -> int {
    if a >= b {
        a
    } else {
        b
    }
}

/// The smaller of two numbers.
pub open spec fn smaller(a: int, b: int) -> int {
    if a <= b {
        a
    } else {
        b
    }
}

/// `optimal` held to the bounds on one resize: never below the initial size,
/// never smaller by more than a quarter, never more than `growth` times as large.
pub open spec fn bounded_size(initial: u32, current: u32, optimal: u32, growth: u32) -> int {
    smaller(
        larger(larger(optimal as int, initial as int), current - current as int / 4),
        smaller(growth * current, u32::MAX as int),
    )
}

/// A window that may multiply may at least keep its size.
pub proof fn growth_is_no_loss(current: u32, growth: u32)
    requires
        growth > 0,
    ensures
        growth * current >= current,
{
    assert(growth * current >= current) by (nonlinear_arith)
        requires
            growth > 0,
    ;
}

/// The size after one resize towards `wanted`, where growth is limited to what
/// the shared pool has `available`.
pub open spec fn resized(current: u32, wanted: int, available: usize) -> int {
    if wanted > current {
        current + smaller(wanted - current, available as int)
    } else {
        wanted
    }
}

impl RecvWindow {
    /// The documented bounds between the fields.
    pub open spec fn valid(self) -> bool {
        &&& 0 < self.initial <= self.current
        &&& self.freed <= self.consumed <= self.current
    }

    /// Whether enough was read to be worth an update.
    pub open spec fn update_due(self) -> bool {
        self.freed >= self.current / 2
    }

    /// The size of the window after an update.
    pub open spec fn next_size(self, pool: GlobalPool, optimal: u32) -> int {
        let wanted = if pool.dirty_rtt is Some {
            bounded_size(self.initial, self.current, optimal, pool.growth)
        } else {
            self.current as int
        };
        resized(self.current, wanted, pool.available)
    }

    /// The window after an update at `now`.
    pub open spec fn updated(self, pool: GlobalPool, optimal: u32, now: Timestamp) -> Self {
        RecvWindow {
            initial: self.initial,
            current: self.next_size(pool, optimal) as u32,
            consumed: (self.consumed - self.freed) as u32,
            freed: 0,
            last_update: now,
        }
    }

    /// The credit that an update returns to the peer: what was read, and the
    /// change in size.
    pub open spec fn update_value(self, pool: GlobalPool, optimal: u32) -> int {
        self.freed + self.next_size(pool, optimal) - self.current
    }

    /// Produces a window update, if one is due, resizing the window towards
    /// `optimal` where a round trip has been measured. Zero means no update.
    ///
    /// Growth is borrowed from the shared pool, and what the window shrinks by
    /// is returned to it.
    pub fn try_update(&mut self, pool: &mut GlobalPool, optimal: u32, now: Timestamp) -> (r: u32)
        requires
            old(self).valid(),
            old(pool).valid(),
            old(pool).available + (old(self).current - old(self).initial) <= usize::MAX,
        ensures
            final(self).valid(),
            !old(self).update_due() ==> r == 0 && *final(self) == *old(self) && *final(pool)
                == *old(pool),
            old(self).update_due() ==> {
                &&& r == old(self).update_value(*old(pool), optimal)
                &&& *final(self) == old(self).updated(*old(pool), optimal, now)
                &&& *final(pool) == (GlobalPool {
                    available: (old(pool).available - (final(self).current - old(self).current)) as usize,
                    ..*old(pool)
                })
            },
            final(pool).available + (final(self).current - final(self).initial) == old(pool).available + (old(self).current - old(self).initial),
            final(self).current - final(self).consumed == old(self).current - old(self).consumed + r,
    {
        if !self.can_update() {
            return 0;
        }
        let optimal: u32 = match pool.dirty_rtt {
            Some(_) => optimal,
            None => self.current,
        };
        // Window cannot shrink below the initial size, nor by more than 25% in
        // one round, nor multiply by more than the given factor in one round.
        let floor: u32 = self.current - self.current / 4;
        let at_least: u32 = if optimal < self.initial {
            self.initial
        } else {
            optimal
        };
        let at_least: u32 = if at_least < floor {
            floor
        } else {
            at_least
        };
        proof {
            growth_is_no_loss(self.current, pool.growth);
        }
        let ceiling: u32 = match pool.growth.checked_mul(self.current) {
            Some(ceiling) => ceiling,
            None => u32::MAX,
        };
        let clamped: u32 = if at_least > ceiling {
            ceiling
        } else {
            at_least
        };

        let update: u32 = if clamped > self.current {
            let wanted: u32 = clamped - self.current;
            let borrow: u32 = if pool.available < crate::safe_cast_usize(wanted) {
                pool.available as u32
            } else {
                wanted
            };
            pool.available = pool.available - crate::safe_cast_usize(borrow);
            self.current = self.current + borrow;
            self.freed + borrow
        } else {
            let excess: u32 = self.current - clamped;
            pool.available = pool.available + crate::safe_cast_usize(excess);
            self.current = clamped;
            self.freed - excess
        };

        self.last_update = now;
        self.consumed = self.consumed - self.freed;
        self.freed = 0;
        update
    }

    /// Whether enough was read to be worth an update.
    pub fn can_update(&self) -> (r: bool)
        ensures
            r == self.update_due(),
    {
        self.freed >= self.current / 2
    }

    /// What the peer may still send.
    pub fn remaining(&self) -> (r: u32)
        requires
            self.valid(),
        ensures
            r == self.current - self.consumed,
    {
        self.current - self.consumed
    }

    /// What was borrowed from the shared pool.
    pub fn borrowed(&self) -> (r: u32)
        requires
            self.valid(),
        ensures
            r == self.current - self.initial,
    {
        self.current - self.initial
    }
}

/// Where an inbound direction stands.
pub enum InboundState {
    /// Traffic direction is fully open.
    Open {
        /// Data not read yet.
        ready_data: DataList,
        /// Whoever waits for data.
        reader: WakerSlot,
        /// What the peer may send.
        recv_window: RecvWindow,
    },
    /// `FIN_WRITE` was received, but the local reader is still draining the
    /// data.
    ///
    /// We only send `FIN_READ` and allow for the stream to be closed when the
    /// reader has consumed all pending data.
    HalfClosed {
        /// Data not read yet, never empty.
        ready_data: DataList,
        /// Borrowed from the shared pool, and not freed by reading.
        borrow: u32,
        /// Borrowed from the shared pool, and ready to be returned.
        freed_borrow: u32,
    },
    /// One of the sides closed and there's no pending data.
    Closed {
        /// Borrowed from the shared pool, and ready to be returned.
        stale_borrow: u32,
        /// What the peer may still send.
        remaining_recv_window: u32,
        /// The fins of this direction.
        fin_state: FinState,
    },
}

/// An [`InboundTraffic`] as a mathematical value.
#[verifier::ext_equal]
pub ghost enum InboundView {
    Open { ready: Seq<Seq<u8>>, reader: Option<Waker>, window: RecvWindow },
    HalfClosed { ready: Seq<Seq<u8>>, borrow: u32, freed_borrow: u32 },
    Closed { stale_borrow: u32, remaining: u32, fin: FinState },
}

/// The inbound direction of a stream.
pub struct InboundTraffic(pub InboundState);

impl View for InboundTraffic {
    type V = InboundView;

    open spec fn view(&self) -> InboundView {
        match self.0 {
            InboundState::Open { ready_data, reader, recv_window } => InboundView::Open {
                ready: ready_data@,
                reader: reader@,
                window: recv_window,
            },
            InboundState::HalfClosed { ready_data, borrow, freed_borrow } => {
                InboundView::HalfClosed { ready: ready_data@, borrow, freed_borrow }
            },
            InboundState::Closed { stale_borrow, remaining_recv_window, fin_state } => {
                InboundView::Closed {
                    stale_borrow,
                    remaining: remaining_recv_window,
                    fin: fin_state,
                }
            },
        }
    }
}

/// Taking the first chunk off a list takes its bytes off the total.
proof fn total_of_pop(chunks: Seq<Seq<u8>>)
    requires
        chunks.len() > 0,
    ensures
        total_len(chunks) == chunks[0].len() + total_len(chunks.drop_first()),
{
}

/// Adding a chunk to a list adds its bytes to the total.
pub proof fn total_of_push(chunks: Seq<Seq<u8>>, chunk: Seq<u8>)
    ensures
        total_len(chunks.push(chunk)) == total_len(chunks) + chunk.len(),
    decreases chunks.len(),
{
    reveal_with_fuel(total_len, 2);
    if chunks.len() == 0 {
        assert(chunks.push(chunk).drop_first() =~= Seq::<Seq<u8>>::empty());
    } else {
        total_of_push(chunks.drop_first(), chunk);
        assert(chunks.push(chunk).drop_first() =~= chunks.drop_first().push(chunk));
    }
}

impl InboundView {
    /// The window accounts for exactly the unread bytes, a half-closed
    /// direction has some, borrows fit their counters, nothing is borrowed past
    /// our own fin, and nobody waits for data where there is some.
    pub open spec fn valid(self) -> bool {
        match self {
            InboundView::Open { ready, reader, window } => {
                &&& window.valid()
                &&& total_len(ready) == window.consumed - window.freed
                &&& ready.len() > 0 ==> reader is None
                &&& forall|i: int| 0 <= i < ready.len() ==> (#[trigger] ready[i]).len() > 0
            },
            InboundView::HalfClosed { ready, borrow, freed_borrow } => {
                ready.len() > 0 && total_len(ready) <= u32::MAX && borrow + freed_borrow
                    <= u32::MAX
            },
            InboundView::Closed { stale_borrow, fin, .. } => fin.sent ==> stale_borrow == 0,
        }
    }

    /// What this direction holds of the shared receive window pool.
    pub open spec fn borrowed(self) -> int {
        match self {
            InboundView::Open { window, .. } => window.current - window.initial,
            InboundView::HalfClosed { borrow, freed_borrow, .. } => borrow + freed_borrow,
            InboundView::Closed { stale_borrow, .. } => stale_borrow as int,
        }
    }

    /// How many more bytes the peer is allowed to send.
    pub open spec fn credit(self) -> int {
        match self {
            InboundView::Open { window, .. } => window.current - window.consumed,
            InboundView::HalfClosed { .. } => 0,
            InboundView::Closed { remaining, fin, .. } => if fin.received {
                0
            } else {
                remaining as int
            },
        }
    }

    /// Whether the peer's `FIN_WRITE` has arrived.
    pub open spec fn fin_received(self) -> bool {
        match self {
            InboundView::Open { .. } => false,
            InboundView::HalfClosed { .. } => true,
            InboundView::Closed { fin, .. } => fin.received,
        }
    }

    /// The fins that count towards the stream's end.
    pub open spec fn fins(self) -> FinState {
        match self {
            InboundView::Closed { fin, .. } => fin,
            _ => no_fins(),
        }
    }

    /// What an optimal window size has to be calculated from, if an update is
    /// due and a round trip is known.
    pub open spec fn sizing(self, pool: GlobalPool, now: Timestamp) -> Option<SizingInputs> {
        match (self, pool.dirty_rtt) {
            (InboundView::Open { window, .. }, Some(rtt)) => if window.update_due() {
                Some(
                    SizingInputs {
                        freed: window.freed,
                        elapsed: span(window.last_update, now),
                        rtt,
                    },
                )
            } else {
                None
            },
            _ => None,
        }
    }

    /// Whether reading the oldest chunk gives the peer something to be told: an
    /// update that is now due, or `FIN_READ` behind the last chunk.
    pub open spec fn read_stirs(self) -> bool {
        match self {
            InboundView::Open { ready, .. } => ready.len() > 0 && self.chunk_read()->window
                .update_due(),
            InboundView::HalfClosed { ready, .. } => ready.len() == 1,
            InboundView::Closed { .. } => false,
        }
    }

    /// Whoever waits for data.
    pub open spec fn reader(self) -> Option<Waker> {
        match self {
            InboundView::Open { reader, .. } => reader,
            _ => None,
        }
    }

    /// Who is woken by data: the reader.
    pub open spec fn woken_by_data(self, data: Seq<u8>) -> Seq<Waker> {
        if data.len() > 0 {
            registered(self.reader())
        } else {
            Seq::empty()
        }
    }

    /// Who is woken by the peer's `FIN_WRITE`, where it closes the direction:
    /// `poller`, since there is a fin to send, and the reader, which has nothing
    /// to wait for any more.
    pub open spec fn woken_by_fin(self, poller: Option<Waker>) -> Seq<Waker> {
        if self.fin_stirs() {
            registered(poller) + registered(self.reader())
        } else {
            Seq::empty()
        }
    }

    /// Whether the peer's `FIN_WRITE` closes the direction at once.
    pub open spec fn fin_stirs(self) -> bool {
        self matches InboundView::Open { ready, .. } && ready.len() == 0
    }

    /// What the direction has to tell the peer: credit and `FIN_READ`.
    pub open spec fn update(self, pool: GlobalPool, optimal: u32) -> Option<(u32, bool)> {
        match self {
            InboundView::Open { window, .. } => if window.update_due() && window.update_value(
                pool,
                optimal,
            ) != 0 {
                Some((window.update_value(pool, optimal) as u32, false))
            } else {
                None
            },
            InboundView::HalfClosed { .. } => None,
            InboundView::Closed { fin, .. } => if fin.sent {
                None
            } else {
                Some((0u32, true))
            },
        }
    }

    /// The direction once it has been polled for that at `now`.
    pub open spec fn polled(self, pool: GlobalPool, optimal: u32, now: Timestamp) -> Self {
        match self {
            InboundView::Open { ready, reader, window } => if window.update_due() {
                InboundView::Open { ready, reader, window: window.updated(pool, optimal, now) }
            } else {
                self
            },
            InboundView::HalfClosed { ready, borrow, .. } => InboundView::HalfClosed {
                ready,
                borrow,
                freed_borrow: 0,
            },
            InboundView::Closed { remaining, fin, .. } => InboundView::Closed {
                stale_borrow: 0,
                remaining,
                fin: FinState { sent: true, ..fin },
            },
        }
    }

    /// The shared pool once the direction has been polled.
    pub open spec fn pool_after(self, pool: GlobalPool, optimal: u32, now: Timestamp) -> GlobalPool {
        GlobalPool {
            available: (pool.available + self.borrowed() - self.polled(
                pool,
                optimal,
                now,
            ).borrowed()) as usize,
            ..pool
        }
    }

    /// The direction once its reader is gone.
    pub open spec fn reading_closed(self) -> Self {
        match self {
            InboundView::Closed { .. } => self,
            _ => InboundView::Closed {
                stale_borrow: self.borrowed() as u32,
                remaining: self.credit() as u32,
                fin: FinState { sent: false, received: self.fin_received() },
            },
        }
    }

    /// The direction once the peer's `FIN_WRITE` has arrived: pending data
    /// keeps it half-open.
    pub open spec fn writing_finished(self) -> Self {
        match self {
            InboundView::Open { ready, .. } => if ready.len() == 0 {
                InboundView::Closed {
                    stale_borrow: self.borrowed() as u32,
                    remaining: 0,
                    fin: FinState { sent: false, received: true },
                }
            } else {
                InboundView::HalfClosed {
                    ready,
                    borrow: self.borrowed() as u32,
                    freed_borrow: 0,
                }
            },
            InboundView::HalfClosed { .. } => self,
            InboundView::Closed { stale_borrow, remaining, fin } => InboundView::Closed {
                stale_borrow,
                remaining,
                fin: FinState { received: true, ..fin },
            },
        }
    }

    /// The direction once `data` has arrived.
    pub open spec fn data_received(self, data: Seq<u8>) -> Self {
        if data.len() == 0 {
            self
        } else {
            match self {
                InboundView::Open { ready, window, .. } => InboundView::Open {
                    ready: ready.push(data),
                    reader: None,
                    window: RecvWindow {
                        consumed: (window.consumed + data.len()) as u32,
                        ..window
                    },
                },
                InboundView::HalfClosed { .. } => self,
                InboundView::Closed { stale_borrow, remaining, fin } => InboundView::Closed {
                    stale_borrow,
                    remaining: (remaining - data.len()) as u32,
                    fin,
                },
            }
        }
    }

    /// The chunks that the reader has not taken yet.
    pub open spec fn unread(self) -> Seq<Seq<u8>> {
        match self {
            InboundView::Open { ready, .. } => ready,
            InboundView::HalfClosed { ready, .. } => ready,
            InboundView::Closed { .. } => Seq::empty(),
        }
    }

    /// The direction once a reader has asked for data: it takes the oldest
    /// chunk, or waits where there is none.
    pub open spec fn read_by(self, waker: Waker) -> Self {
        match self {
            InboundView::Open { ready, window, .. } => if ready.len() == 0 {
                InboundView::Open { ready, reader: Some(waker), window }
            } else {
                self.chunk_read()
            },
            _ => self.chunk_read(),
        }
    }

    /// The direction once the reader has taken the oldest chunk of data.
    pub open spec fn chunk_read(self) -> Self {
        match self {
            InboundView::Open { ready, reader, window } => InboundView::Open {
                ready: ready.drop_first(),
                reader,
                window: RecvWindow {
                    freed: (window.freed + ready[0].len()) as u32,
                    ..window
                },
            },
            InboundView::HalfClosed { ready, borrow, freed_borrow } => if ready.len() == 1 {
                InboundView::Closed {
                    stale_borrow: (borrow + freed_borrow) as u32,
                    remaining: 0,
                    fin: FinState { sent: false, received: true },
                }
            } else {
                let moved = smaller(ready[0].len() as int, borrow as int);
                InboundView::HalfClosed {
                    ready: ready.drop_first(),
                    borrow: (borrow - moved) as u32,
                    freed_borrow: (freed_borrow + moved) as u32,
                }
            },
            InboundView::Closed { .. } => self,
        }
    }
}

impl InboundTraffic {
    /// An open direction with the given receive window.
    pub fn new(recv_window: u32, now: Timestamp) -> (r: Self)
        requires
            recv_window > 0,
        ensures
            r@ == (InboundView::Open {
                ready: Seq::empty(),
                reader: None,
                window: (RecvWindow {
                    initial: recv_window,
                    current: recv_window,
                    consumed: 0,
                    freed: 0,
                    last_update: now,
                }),
            }),
            r@.valid(),
    {
        InboundTraffic(
            InboundState::Open {
                ready_data: DataList::default(),
                reader: WakerSlot::new(),
                recv_window: RecvWindow {
                    initial: recv_window,
                    current: recv_window,
                    consumed: 0,
                    freed: 0,
                    last_update: now,
                },
            },
        )
    }

    /// What an optimal window size has to be calculated from, if an update is
    /// due and a round trip is known.
    pub fn sizing_inputs(&self, pool: &GlobalPool, now: Timestamp) -> (r: Option<SizingInputs>)
        ensures
            r == self@.sizing(*pool, now),
    {
        match (&self.0, pool.dirty_rtt) {
            (InboundState::Open { recv_window, .. }, Some(rtt)) => if recv_window.can_update() {
                Some(
                    SizingInputs {
                        freed: recv_window.freed,
                        elapsed: now.since(recv_window.last_update),
                        rtt,
                    },
                )
            } else {
                None
            },
            _ => None,
        }
    }

    /// Polls the next inbound traffic update.
    ///
    /// Returns ready receive window update and `FIN_READ`. Where an update is
    /// due and a round trip is known, the window is resized towards `optimal`.
    ///
    /// Notes:
    /// 1. If `FIN_READ` has already been sent, this method will return
    ///    [`Poll::Pending`].
    /// 2. This method is not responsible for registering the [`Waker`].
    pub fn poll_update(&mut self, pool: &mut GlobalPool, optimal: u32, now: Timestamp) -> (r: Poll<
        (u32, bool),
    >)
        requires
            old(self)@.valid(),
            old(pool).valid(),
            old(pool).available + old(self)@.borrowed() <= usize::MAX,
        ensures
            final(self)@.valid(),
            final(self)@ == old(self)@.polled(*old(pool), optimal, now),
            r == match old(self)@.update(*old(pool), optimal) {
                Some(update) => Poll::Ready(update),
                None => Poll::Pending,
            },
            // Nothing is lost to the pool and nothing is made up.
            *final(pool) == old(self)@.pool_after(*old(pool), optimal, now),
            final(pool).available + final(self)@.borrowed() == old(pool).available + old(self)@.borrowed(),
            // The peer's credit is what it was told.
            final(self)@.credit() == old(self)@.credit() + match r {
                Poll::Ready((update, _)) => update as int,
                Poll::Pending => 0,
            },
    {
        match &mut self.0 {
            InboundState::Open { recv_window, .. } => {
                let update: u32 = recv_window.try_update(pool, optimal, now);
                if update == 0 {
                    Poll::Pending
                } else {
                    Poll::Ready((update, false))
                }
            },
            InboundState::HalfClosed { freed_borrow, .. } => {
                pool.available = pool.available + crate::safe_cast_usize(*freed_borrow);
                *freed_borrow = 0;
                Poll::Pending
            },
            InboundState::Closed { stale_borrow, fin_state, .. } => {
                pool.available = pool.available + crate::safe_cast_usize(*stale_borrow);
                *stale_borrow = 0;
                if fin_state.sent {
                    Poll::Pending
                } else {
                    fin_state.sent = true;
                    Poll::Ready((0, true))
                }
            },
        }
    }

    /// Closes the direction from the reader's side.
    pub fn close_reading(&mut self, updates_poller: &mut WakerSlot, woken: &mut Wakes)
        requires
            old(self)@.valid(),
        ensures
            final(self)@.valid(),
            final(self)@ == old(self)@.reading_closed(),
            final(self)@.borrowed() == old(self)@.borrowed(),
            final(self)@.credit() == old(self)@.credit(),
            final(updates_poller)@ == if old(self)@ is Closed {
                old(updates_poller)@
            } else {
                None
            },
            final(woken)@ == old(woken)@ + if old(self)@ is Closed {
                Seq::empty()
            } else {
                registered(old(updates_poller)@)
            },
    {
        match &self.0 {
            InboundState::Open { recv_window, .. } => {
                self.0 = InboundState::Closed {
                    stale_borrow: recv_window.borrowed(),
                    remaining_recv_window: recv_window.remaining(),
                    fin_state: FinState { sent: false, received: false },
                };
                updates_poller.wake(woken);
            },
            InboundState::HalfClosed { borrow, freed_borrow, .. } => {
                self.0 = InboundState::Closed {
                    stale_borrow: *borrow + *freed_borrow,
                    remaining_recv_window: 0,
                    fin_state: FinState { sent: false, received: true },
                };
                updates_poller.wake(woken);
            },
            InboundState::Closed { .. } => {},
        }
    }

    /// Takes the oldest unread chunk of data, or [`None`] where no more will
    /// come. Registers `waker` where there is nothing yet.
    pub fn poll_read(
        &mut self,
        waker: &Waker,
        updates_poller: &mut WakerSlot,
        woken: &mut Wakes,
    ) -> (r: Poll<Option<Data>>)
        requires
            old(self)@.valid(),
        ensures
            final(self)@.valid(),
            final(self)@.borrowed() == old(self)@.borrowed(),
            final(self)@.credit() == old(self)@.credit(),
            old(self)@ is Closed ==> r matches Poll::Ready(None),
            !(old(self)@ is Closed) && old(self)@.unread().len() == 0 ==> r is Pending,
            old(self)@.unread().len() > 0 ==> (r matches Poll::Ready(Some(data)) && data@ == old(self)@.unread()[0]),
            final(self)@ == old(self)@.read_by(*waker),
            final(updates_poller)@ == if old(self)@.read_stirs() {
                None
            } else {
                old(updates_poller)@
            },
            final(woken)@ == old(woken)@ + if old(self)@.read_stirs() {
                registered(old(updates_poller)@)
            } else {
                Seq::empty()
            },
    {
        match &mut self.0 {
            InboundState::Open { ready_data, reader, recv_window } => {
                proof {
                    if ready_data@.len() > 0 {
                        total_of_pop(ready_data@);
                    }
                }
                match ready_data.pop_front() {
                    None => {
                        reader.register(waker);
                        Poll::Pending
                    },
                    Some(data) => {
                        recv_window.freed = recv_window.freed + data.len() as u32;
                        if recv_window.can_update() {
                            updates_poller.wake(woken);
                        }
                        Poll::Ready(Some(data))
                    },
                }
            },
            InboundState::HalfClosed { ready_data, borrow, freed_borrow } => {
                proof {
                    total_of_pop(ready_data@);
                }
                match ready_data.pop_front() {
                    None => Poll::Ready(None),
                    Some(data) => {
                        if ready_data.is_empty() {
                            let stale_borrow: u32 = *borrow + *freed_borrow;
                            self.0 = InboundState::Closed {
                                stale_borrow,
                                remaining_recv_window: 0,
                                fin_state: FinState { sent: false, received: true },
                            };
                            updates_poller.wake(woken);
                        } else {
                            let freed: u32 = if (data.len() as u32) < *borrow {
                                data.len() as u32
                            } else {
                                *borrow
                            };
                            *freed_borrow = *freed_borrow + freed;
                            *borrow = *borrow - freed;
                        }
                        Poll::Ready(Some(data))
                    },
                }
            },
            InboundState::Closed { .. } => Poll::Ready(None),
        }
    }

    /// Handles the peer's `FIN_WRITE`, which may come once only.
    pub fn received_fin_write(&mut self, updates_poller: &mut WakerSlot, woken: &mut Wakes) -> (r:
        Result<(), StreamError>)
        requires
            old(self)@.valid(),
        ensures
            final(self)@.valid(),
            final(self)@.borrowed() == old(self)@.borrowed(),
            r is Ok <==> !old(self)@.fin_received(),
            r is Ok ==> final(self)@ == old(self)@.writing_finished(),
            r matches Err(e) ==> e.0@ == "sent duplicate FIN_WRITE"@ && final(self)@ == old(self)@,
            final(updates_poller)@ == if old(self)@.fin_stirs() {
                None
            } else {
                old(updates_poller)@
            },
            final(woken)@ == old(woken)@ + old(self)@.woken_by_fin(old(updates_poller)@),
    {
        match &mut self.0 {
            InboundState::Open { ready_data, reader, recv_window } => {
                if ready_data.is_empty() {
                    updates_poller.wake(woken);
                    reader.wake(woken);
                    let stale_borrow: u32 = recv_window.borrowed();
                    self.0 = InboundState::Closed {
                        stale_borrow,
                        remaining_recv_window: 0,
                        fin_state: FinState { sent: false, received: true },
                    };
                } else {
                    let mut rest = DataList::default();
                    std::mem::swap(&mut rest, ready_data);
                    let borrow: u32 = recv_window.borrowed();
                    self.0 = InboundState::HalfClosed { ready_data: rest, borrow, freed_borrow: 0 };
                }
                Ok(())
            },
            InboundState::HalfClosed { .. } => Err(StreamError("sent duplicate FIN_WRITE")),
            InboundState::Closed { fin_state, .. } => if fin_state.received {
                Err(StreamError("sent duplicate FIN_WRITE"))
            } else {
                fin_state.received = true;
                Ok(())
            },
        }
    }

    /// Handles data sent by the peer, which may not exceed its credit. Data that
    /// nobody will read is dropped.
    pub fn received_data(&mut self, data: Data, woken: &mut Wakes) -> (r: Result<(), StreamError>)
        requires
            old(self)@.valid(),
            data@.len() <= u32::MAX,
        ensures
            final(self)@.valid(),
            final(self)@.borrowed() == old(self)@.borrowed(),
            r is Ok <==> data@.len() <= old(self)@.credit(),
            r is Ok ==> final(self)@ == old(self)@.data_received(data@),
            r is Ok ==> final(self)@.credit() == old(self)@.credit() - data@.len(),
            final(woken)@ == old(woken)@ + if r is Ok {
                old(self)@.woken_by_data(data@)
            } else {
                Seq::empty()
            },
            r matches Err(e) ==> final(self)@ == old(self)@ && e.0@ == if old(self)@.fin_received() {
                "sent data after FIN_WRITE"@
            } else {
                "exceeded available receive window"@
            },
    {
        if data.is_empty() {
            return Ok(());
        }
        let data_len: u32 = data.len() as u32;
        match &mut self.0 {
            InboundState::Open { ready_data, reader, recv_window } => {
                if recv_window.remaining() < data_len {
                    return Err(StreamError("exceeded available receive window"));
                }
                proof {
                    total_of_push(ready_data@, data@);
                }
                recv_window.consumed = recv_window.consumed + data_len;
                ready_data.push_back(data);
                reader.wake(woken);
                Ok(())
            },
            InboundState::HalfClosed { .. } => Err(StreamError("sent data after FIN_WRITE")),
            InboundState::Closed { fin_state, remaining_recv_window, .. } => if fin_state.received {
                Err(StreamError("sent data after FIN_WRITE"))
            } else if *remaining_recv_window < data_len {
                Err(StreamError("exceeded available receive window"))
            } else {
                *remaining_recv_window = *remaining_recv_window - data_len;
                Ok(())
            },
        }
    }

    /// Bytes of window borrowed from the shared pool.
    pub fn borrowed(&self) -> (r: u64)
        requires
            self@.valid(),
        ensures
            r == self@.borrowed(),
    {
        match &self.0 {
            InboundState::Open { recv_window, .. } => recv_window.borrowed() as u64,
            InboundState::HalfClosed { borrow, freed_borrow, .. } => *borrow as u64
                + *freed_borrow as u64,
            InboundState::Closed { stale_borrow, .. } => *stale_borrow as u64,
        }
    }

    /// The fins that count towards the stream's end.
    pub fn fin_state(&self) -> (r: FinState)
        ensures
            r == self@.fins(),
    {
        match &self.0 {
            InboundState::Open { .. } | InboundState::HalfClosed { .. } => FinState::default(),
            InboundState::Closed { fin_state, .. } => *fin_state,
        }
    }
}

} // verus!
