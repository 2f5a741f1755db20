//! The outbound direction of a stream: what the local writer writes and the
//! peer reads.

use std::task::Waker;

use bytes::Bytes;
use vstd::prelude::*;

use crate::bytes_ext::content;
use crate::error::StreamError;
use crate::poll::Poll;
use crate::stream::fin::{no_fins, FinState};
use crate::stream::inbound::smaller;
use crate::stream::waker::{registered, WakerSlot, Wakes};

verus! {

/// Why a write was refused.
#[derive(Clone, Copy, Debug, PartialEq, Eq, Structural)]
pub enum WriteError {
    /// The direction is closed.
    BrokenPipe,
    /// Earlier data has not been framed yet.
    NotReady,
}

/// Where an outbound direction stands.
pub enum OutboundState {
    /// Traffic direction is fully open.
    Open {
        /// Data not framed yet.
        ready_data: Bytes,
        /// Most data in one frame.
        frame_limit: u32,
        /// What the peer allows us to send.
        recv_window: u32,
        /// Whoever waits for the data to be framed.
        writer: WakerSlot,
    },
    /// Local writer closed, but there's still data to be flushed.
    HalfClosed {
        /// Data not framed yet, never empty.
        ready_data: Bytes,
        /// Most data in one frame.
        frame_limit: u32,
        /// What the peer allows us to send.
        recv_window: u32,
        /// Whoever waits for the data to be framed.
        writer: WakerSlot,
    },
    /// One of the sides closed and there's no pending data.
    Closed {
        /// What the peer allows us to send.
        recv_window: u32,
        /// The fins of this direction.
        fin_state: FinState,
    },
}

/// An [`OutboundTraffic`] as a mathematical value.
#[verifier::ext_equal]
pub ghost enum OutboundView {
    Open { ready: Seq<u8>, frame_limit: u32, recv_window: u32, writer: Option<Waker> },
    HalfClosed { ready: Seq<u8>, frame_limit: u32, recv_window: u32, writer: Option<Waker> },
    Closed { recv_window: u32, fin: FinState },
}

/// The outbound direction of a stream.
pub struct OutboundTraffic(pub OutboundState);

impl View for OutboundTraffic {
    type V = OutboundView;

    open spec fn view(&self) -> OutboundView {
        match self.0 {
            OutboundState::Open { ready_data, frame_limit, recv_window, writer } => {
                OutboundView::Open {
                    ready: content(ready_data),
                    frame_limit,
                    recv_window,
                    writer: writer@,
                }
            },
            OutboundState::HalfClosed { ready_data, frame_limit, recv_window, writer } => {
                OutboundView::HalfClosed {
                    ready: content(ready_data),
                    frame_limit,
                    recv_window,
                    writer: writer@,
                }
            },
            OutboundState::Closed { recv_window, fin_state } => OutboundView::Closed {
                recv_window,
                fin: fin_state,
            },
        }
    }
}

impl OutboundView {
    /// Frames can carry data, a half-closed direction has some left, and nobody
    /// waits for data to be framed where there is none.
    pub open spec fn valid(self) -> bool {
        match self {
            OutboundView::Open { ready, frame_limit, writer, .. } => {
                frame_limit > 0 && (ready.len() == 0 ==> writer is None)
            },
            OutboundView::HalfClosed { ready, frame_limit, .. } => {
                frame_limit > 0 && ready.len() > 0
            },
            OutboundView::Closed { .. } => true,
        }
    }

    /// Data written and not framed yet.
    pub open spec fn pending(self) -> Seq<u8> {
        match self {
            OutboundView::Open { ready, .. } => ready,
            OutboundView::HalfClosed { ready, .. } => ready,
            OutboundView::Closed { .. } => Seq::empty(),
        }
    }

    /// What the peer allows us to send.
    pub open spec fn window(self) -> u32 {
        match self {
            OutboundView::Open { recv_window, .. } => recv_window,
            OutboundView::HalfClosed { recv_window, .. } => recv_window,
            OutboundView::Closed { recv_window, .. } => recv_window,
        }
    }

    /// Whoever waits for data to be framed.
    pub open spec fn writer(self) -> Option<Waker> {
        match self {
            OutboundView::Open { writer, .. } => writer,
            OutboundView::HalfClosed { writer, .. } => writer,
            OutboundView::Closed { .. } => None,
        }
    }

    /// The fins that count towards the stream's end.
    pub open spec fn fins(self) -> FinState {
        match self {
            OutboundView::Closed { fin, .. } => fin,
            _ => no_fins(),
        }
    }

    /// Most data one frame may carry, leaving the transit window aside.
    pub open spec fn frame_room(self) -> int {
        match self {
            OutboundView::Open { frame_limit, recv_window, .. } => smaller(
                recv_window as int,
                frame_limit as int,
            ),
            OutboundView::HalfClosed { frame_limit, recv_window, .. } => smaller(
                recv_window as int,
                frame_limit as int,
            ),
            OutboundView::Closed { .. } => 0,
        }
    }

    /// How much data the next frame takes under the given transit budget.
    pub open spec fn chunk_len(self, send_budget: Option<u32>) -> int {
        let room = smaller(self.pending().len() as int, self.frame_room());
        match send_budget {
            Some(budget) => smaller(room, budget as int),
            None => room,
        }
    }

    /// Whether nothing but a spent transit window holds data back.
    pub open spec fn transit_blocked(self, send_budget: Option<u32>) -> bool {
        self.pending().len() > 0 && self.window() > 0 && send_budget == Some(0u32)
    }

    /// The direction once `n` bytes of its data are framed.
    pub open spec fn framed(self, n: int) -> Self {
        let left = self.pending().subrange(n, self.pending().len() as int);
        match self {
            OutboundView::Open { frame_limit, recv_window, writer, .. } => OutboundView::Open {
                ready: left,
                frame_limit,
                recv_window: (recv_window - n) as u32,
                writer: if left.len() == 0 {
                    None
                } else {
                    writer
                },
            },
            OutboundView::HalfClosed { frame_limit, recv_window, writer, .. } => if left.len() == 0 {
                OutboundView::Closed {
                    recv_window: (recv_window - n) as u32,
                    fin: FinState { sent: true, received: false },
                }
            } else {
                OutboundView::HalfClosed {
                    ready: left,
                    frame_limit,
                    recv_window: (recv_window - n) as u32,
                    writer,
                }
            },
            OutboundView::Closed { recv_window, fin } => OutboundView::Closed {
                recv_window,
                fin: FinState { sent: true, ..fin },
            },
        }
    }

    /// What the direction has to send under the given transit budget: data and
    /// `FIN_WRITE`.
    pub open spec fn update(self, send_budget: Option<u32>) -> Option<(Seq<u8>, bool)> {
        let n = self.chunk_len(send_budget);
        match self {
            OutboundView::Closed { fin, .. } => if fin.sent {
                None
            } else {
                Some((Seq::empty(), true))
            },
            _ => if n == 0 {
                None
            } else {
                Some(
                    (
                        self.pending().subrange(0, n),
                        self is HalfClosed && n == self.pending().len(),
                    ),
                )
            },
        }
    }

    /// The direction once it has been polled for that.
    pub open spec fn polled(self, send_budget: Option<u32>) -> Self {
        if self.update(send_budget) is None {
            self
        } else {
            self.framed(self.chunk_len(send_budget))
        }
    }

    /// Who is woken by that: the writer, once nothing is pending any more.
    pub open spec fn woken_by_poll(self, send_budget: Option<u32>) -> Seq<Waker> {
        if self.update(send_budget) is Some && self.chunk_len(send_budget)
            == self.pending().len() {
            registered(self.writer())
        } else {
            Seq::empty()
        }
    }

    /// Who is woken by the peer's `FIN_READ`: the writer, which has nothing to
    /// wait for any more, and `poller`, since there is a fin to send.
    pub open spec fn woken_by_fin(self, poller: Option<Waker>) -> Seq<Waker> {
        if self is Closed {
            Seq::empty()
        } else {
            registered(self.writer()) + registered(poller)
        }
    }

    /// Whether credit lets out data that waited for it.
    pub open spec fn credit_stirs(self, update: u32) -> bool {
        update > 0 && self.window() == 0 && self.pending().len() > 0
    }

    /// Whether data that is written can go out.
    pub open spec fn write_stirs(self, data: Seq<u8>) -> bool {
        data.len() > 0 && self.window() > 0
    }

    /// The direction once its writer is gone: pending data keeps it half-open.
    pub open spec fn writing_closed(self) -> Self {
        match self {
            OutboundView::Open { ready, frame_limit, recv_window, writer } => if ready.len() == 0 {
                OutboundView::Closed { recv_window, fin: no_fins() }
            } else {
                OutboundView::HalfClosed { ready, frame_limit, recv_window, writer }
            },
            _ => self,
        }
    }

    /// The direction once the peer's `FIN_READ` has arrived: nobody will read
    /// what is pending, so it is dropped.
    pub open spec fn reading_finished(self) -> Self {
        OutboundView::Closed {
            recv_window: self.window(),
            fin: FinState { received: true, ..self.fins() },
        }
    }

    /// The direction with `window` as what the peer allows.
    pub open spec fn with_window(self, window: int) -> Self {
        match self {
            OutboundView::Open { ready, frame_limit, writer, .. } => OutboundView::Open {
                ready,
                frame_limit,
                recv_window: window as u32,
                writer,
            },
            OutboundView::HalfClosed { ready, frame_limit, writer, .. } => OutboundView::HalfClosed {
                ready,
                frame_limit,
                recv_window: window as u32,
                writer,
            },
            OutboundView::Closed { fin, .. } => OutboundView::Closed {
                recv_window: window as u32,
                fin,
            },
        }
    }

    /// The direction with `data` written to it.
    pub open spec fn with_data(self, data: Seq<u8>) -> Self {
        match self {
            OutboundView::Open { frame_limit, recv_window, writer, .. } => OutboundView::Open {
                ready: data,
                frame_limit,
                recv_window,
                writer,
            },
            _ => self,
        }
    }

    /// Whether closing the writer's side closes the direction at once.
    pub open spec fn close_stirs(self) -> bool {
        self matches OutboundView::Open { ready, .. } && ready.len() == 0
    }

    /// The direction with `writer` waiting.
    pub open spec fn with_writer(self, waker: Waker) -> Self {
        match self {
            OutboundView::Open { ready, frame_limit, recv_window, .. } => OutboundView::Open {
                ready,
                frame_limit,
                recv_window,
                writer: Some(waker),
            },
            OutboundView::HalfClosed { ready, frame_limit, recv_window, .. } => {
                OutboundView::HalfClosed { ready, frame_limit, recv_window, writer: Some(waker) }
            },
            OutboundView::Closed { .. } => self,
        }
    }
}

/// How much data goes into one frame.
fn chunk_len(pending: usize, recv_window: u32, frame_limit: u32, send_budget: Option<u32>) -> (r: u32)
    ensures
        r == {
            let room = smaller(pending as int, smaller(recv_window as int, frame_limit as int));
            match send_budget {
                Some(budget) => smaller(room, budget as int),
                None => room,
            }
        },
{
    let limit: u32 = if recv_window < frame_limit {
        recv_window
    } else {
        frame_limit
    };
    let limit: u32 = match send_budget {
        Some(budget) => if budget < limit {
            budget
        } else {
            limit
        },
        None => limit,
    };
    if pending < crate::safe_cast_usize(limit) {
        pending as u32
    } else {
        limit
    }
}

impl OutboundTraffic {
    /// An open direction with the given frame limit and remote receive window.
    pub fn new(frame_limit: u32, recv_window: u32) -> (r: Self)
        requires
            frame_limit > 0,
        ensures
            r@ == (OutboundView::Open {
                ready: Seq::empty(),
                frame_limit,
                recv_window,
                writer: None,
            }),
            r@.valid(),
    {
        OutboundTraffic(
            OutboundState::Open {
                ready_data: Bytes::new(),
                frame_limit,
                recv_window,
                writer: WakerSlot::new(),
            },
        )
    }

    /// Polls the next outbound traffic update.
    ///
    /// Returns ready outbound frame data and `FIN_WRITE`. The data never
    /// exceeds the peer's receive window, the frame limit or `send_budget`.
    /// `transit_blocked` is set where the spent budget alone held data back.
    ///
    /// Notes:
    /// 1. If `FIN_WRITE` has already been sent, this method will return an empty
    ///    chunk and no fin.
    /// 2. This method is not responsible for registering [`Waker`] for updates.
    pub fn poll_update(
        &mut self,
        send_budget: Option<u32>,
        transit_blocked: &mut bool,
        woken: &mut Wakes,
    ) -> (r: Poll<(Bytes, bool)>)
        requires
            old(self)@.valid(),
        ensures
            final(self)@.valid(),
            *final(transit_blocked) == (*old(transit_blocked) || old(self)@.transit_blocked(
                send_budget,
            )),
            final(self)@ == old(self)@.polled(send_budget),
            final(woken)@ == old(woken)@ + old(self)@.woken_by_poll(send_budget),
            match old(self)@.update(send_budget) {
                Some((bytes, fin)) => r matches Poll::Ready((data, fin_write)) && content(data)
                    == bytes && fin_write == fin,
                None => if old(self)@.fins().sent {
                    r matches Poll::Ready((data, fin_write)) && content(data).len() == 0
                        && !fin_write
                } else {
                    r is Pending
                },
            },
    {
        match &mut self.0 {
            OutboundState::Open { ready_data, frame_limit, recv_window, writer } => {
                let n: u32 = chunk_len(ready_data.len(), *recv_window, *frame_limit, send_budget);
                if n == 0 {
                    if !ready_data.is_empty() && *recv_window > 0 {
                        *transit_blocked = true;
                    }
                    return Poll::Pending;
                }
                *recv_window = *recv_window - n;
                let chunk = ready_data.split_to(crate::safe_cast_usize(n));
                if ready_data.is_empty() {
                    writer.wake(woken);
                }
                Poll::Ready((chunk, false))
            },
            OutboundState::HalfClosed { ready_data, frame_limit, recv_window, writer } => {
                let n: u32 = chunk_len(ready_data.len(), *recv_window, *frame_limit, send_budget);
                if n == 0 {
                    if *recv_window > 0 {
                        *transit_blocked = true;
                    }
                    return Poll::Pending;
                }
                *recv_window = *recv_window - n;
                let chunk = ready_data.split_to(crate::safe_cast_usize(n));
                if ready_data.is_empty() {
                    writer.wake(woken);
                    let left: u32 = *recv_window;
                    self.0 = OutboundState::Closed {
                        recv_window: left,
                        fin_state: FinState { sent: true, received: false },
                    };
                    Poll::Ready((chunk, true))
                } else {
                    Poll::Ready((chunk, false))
                }
            },
            OutboundState::Closed { fin_state, .. } => if fin_state.sent {
                Poll::Ready((Bytes::new(), false))
            } else {
                fin_state.sent = true;
                Poll::Ready((Bytes::new(), true))
            },
        }
    }

    /// Closes the direction from the writer's side. Pending data still goes
    /// out.
    pub fn close_writing(&mut self, updates_poller: &mut WakerSlot, woken: &mut Wakes)
        requires
            old(self)@.valid(),
        ensures
            final(self)@.valid(),
            final(self)@ == old(self)@.writing_closed(),
            final(updates_poller)@ == if old(self)@.close_stirs() {
                None
            } else {
                old(updates_poller)@
            },
            final(woken)@ == old(woken)@ + if old(self)@.close_stirs() {
                registered(old(updates_poller)@)
            } else {
                Seq::empty()
            },
    {
        match &mut self.0 {
            OutboundState::Open { ready_data, frame_limit, recv_window, writer } => {
                let frame_limit: u32 = *frame_limit;
                let recv_window: u32 = *recv_window;
                if ready_data.is_empty() {
                    updates_poller.wake(woken);
                    self.0 = OutboundState::Closed {
                        recv_window,
                        fin_state: FinState { sent: false, received: false },
                    };
                } else {
                    let mut rest = Bytes::new();
                    std::mem::swap(&mut rest, ready_data);
                    let writer = writer.take();
                    self.0 = OutboundState::HalfClosed {
                        ready_data: rest,
                        frame_limit,
                        recv_window,
                        writer,
                    };
                }
            },
            _ => {},
        }
    }

    /// Polls until data can be written. Registers `waker` where earlier data
    /// has to be framed first.
    pub fn poll_write_ready(&mut self, waker: &Waker) -> (r: Poll<Result<(), WriteError>>)
        requires
            old(self)@.valid(),
        ensures
            final(self)@.valid(),
            match old(self)@ {
                OutboundView::Open { ready, .. } => if ready.len() == 0 {
                    r == Poll::Ready(Ok::<(), WriteError>(())) && final(self)@ == old(self)@
                } else {
                    r is Pending && final(self)@ == old(self)@.with_writer(*waker)
                },
                _ => r == Poll::Ready(Err::<(), WriteError>(WriteError::BrokenPipe)) && final(self)@
                    == old(self)@,
            },
    {
        match &mut self.0 {
            OutboundState::Open { ready_data, writer, .. } => if ready_data.is_empty() {
                Poll::Ready(Ok(()))
            } else {
                writer.register(waker);
                Poll::Pending
            },
            _ => Poll::Ready(Err(WriteError::BrokenPipe)),
        }
    }

    /// Polls until all data is framed. Registers `waker` where it is not.
    pub fn poll_flushed(&mut self, waker: &Waker) -> (r: Poll<()>)
        requires
            old(self)@.valid(),
        ensures
            final(self)@.valid(),
            r == if old(self)@.pending().len() == 0 {
                Poll::Ready(())
            } else {
                Poll::Pending
            },
            final(self)@ == if r is Ready {
                old(self)@
            } else {
                old(self)@.with_writer(*waker)
            },
    {
        match &mut self.0 {
            OutboundState::Open { ready_data, writer, .. } => if ready_data.is_empty() {
                Poll::Ready(())
            } else {
                writer.register(waker);
                Poll::Pending
            },
            OutboundState::HalfClosed { writer, .. } => {
                writer.register(waker);
                Poll::Pending
            },
            OutboundState::Closed { .. } => Poll::Ready(()),
        }
    }

    /// Accepts data to be framed.
    pub fn write(
        &mut self,
        data: Bytes,
        updates_poller: &mut WakerSlot,
        woken: &mut Wakes,
    ) -> (r: Result<(), WriteError>)
        requires
            old(self)@.valid(),
        ensures
            final(self)@.valid(),
            r is Ok <==> old(self)@ is Open && old(self)@.pending().len() == 0,
            r matches Err(e) ==> e == if old(self)@ is Open {
                WriteError::NotReady
            } else {
                WriteError::BrokenPipe
            },
            final(self)@ == if r is Ok {
                old(self)@.with_data(content(data))
            } else {
                old(self)@
            },
            // There is something to send now.
            final(updates_poller)@ == if r is Ok && old(self)@.write_stirs(content(data)) {
                None
            } else {
                old(updates_poller)@
            },
            final(woken)@ == old(woken)@ + if r is Ok && old(self)@.write_stirs(content(data)) {
                registered(old(updates_poller)@)
            } else {
                Seq::empty()
            },
    {
        match &mut self.0 {
            OutboundState::Open { ready_data, recv_window, .. } => {
                if !ready_data.is_empty() {
                    return Err(WriteError::NotReady);
                }
                *ready_data = data;
                if !ready_data.is_empty() && *recv_window > 0 {
                    updates_poller.wake(woken);
                }
                Ok(())
            },
            _ => Err(WriteError::BrokenPipe),
        }
    }

    /// Handles the peer's `FIN_READ`, which may come once only.
    pub fn received_fin_read(&mut self, updates_poller: &mut WakerSlot, woken: &mut Wakes) -> (r:
        Result<(), StreamError>)
        requires
            old(self)@.valid(),
        ensures
            final(self)@.valid(),
            r is Ok <==> !old(self)@.fins().received,
            r is Ok ==> final(self)@ == old(self)@.reading_finished(),
            r matches Err(e) ==> e.0@ == "sent duplicate FIN_READ"@ && final(self)@ == old(self)@,
            final(updates_poller)@ == if old(self)@ is Closed {
                old(updates_poller)@
            } else {
                None
            },
            final(woken)@ == old(woken)@ + old(self)@.woken_by_fin(old(updates_poller)@),
    {
        match &mut self.0 {
            OutboundState::Open { writer, recv_window, .. } => {
                writer.wake(woken);
                updates_poller.wake(woken);
                let recv_window: u32 = *recv_window;
                self.0 = OutboundState::Closed {
                    recv_window,
                    fin_state: FinState { sent: false, received: true },
                };
                Ok(())
            },
            OutboundState::HalfClosed { writer, recv_window, .. } => {
                writer.wake(woken);
                updates_poller.wake(woken);
                let recv_window: u32 = *recv_window;
                self.0 = OutboundState::Closed {
                    recv_window,
                    fin_state: FinState { sent: false, received: true },
                };
                Ok(())
            },
            OutboundState::Closed { fin_state, .. } => if fin_state.received {
                Err(StreamError("sent duplicate FIN_READ"))
            } else {
                fin_state.received = true;
                Ok(())
            },
        }
    }

    /// Handles credit returned by the peer, which may not overflow the window
    /// nor follow the peer's `FIN_READ`.
    pub fn received_window_update(
        &mut self,
        update: u32,
        updates_poller: &mut WakerSlot,
        woken: &mut Wakes,
    ) -> (r: Result<(), StreamError>)
        requires
            old(self)@.valid(),
        ensures
            final(self)@.valid(),
            r is Ok <==> update == 0 || !old(self)@.fins().received && old(self)@.window() + update
                <= u32::MAX,
            r is Ok ==> final(self)@ == old(self)@.with_window(old(self)@.window() + update),
            r matches Err(e) ==> final(self)@ == old(self)@ && e.0@ == if old(self)@.fins().received {
                "sent window update after FIN_READ"@
            } else {
                "triggered receive window overflow"@
            },
            // Data that waited for credit can go out now.
            final(updates_poller)@ == if r is Ok && old(self)@.credit_stirs(update) {
                None
            } else {
                old(updates_poller)@
            },
            final(woken)@ == old(woken)@ + if r is Ok && old(self)@.credit_stirs(update) {
                registered(old(updates_poller)@)
            } else {
                Seq::empty()
            },
    {
        if update == 0 {
            return Ok(());
        }
        match &mut self.0 {
            OutboundState::Open { ready_data, recv_window, .. } => {
                match recv_window.checked_add(update) {
                    Some(window) => {
                        *recv_window = window;
                        if window == update && !ready_data.is_empty() {
                            updates_poller.wake(woken);
                        }
                        Ok(())
                    },
                    None => Err(StreamError("triggered receive window overflow")),
                }
            },
            OutboundState::HalfClosed { ready_data, recv_window, .. } => {
                match recv_window.checked_add(update) {
                    Some(window) => {
                        *recv_window = window;
                        if window == update && !ready_data.is_empty() {
                            updates_poller.wake(woken);
                        }
                        Ok(())
                    },
                    None => Err(StreamError("triggered receive window overflow")),
                }
            },
            OutboundState::Closed { recv_window, fin_state } => {
                if fin_state.received {
                    return Err(StreamError("sent window update after FIN_READ"));
                }
                match recv_window.checked_add(update) {
                    Some(window) => {
                        *recv_window = window;
                        Ok(())
                    },
                    None => Err(StreamError("triggered receive window overflow")),
                }
            },
        }
    }

    /// The fins that count towards the stream's end.
    pub fn fin_state(&self) -> (r: FinState)
        ensures
            r == self@.fins(),
    {
        match &self.0 {
            OutboundState::Open { .. } | OutboundState::HalfClosed { .. } => FinState::default(),
            OutboundState::Closed { fin_state, .. } => *fin_state,
        }
    }
}

} // verus!
