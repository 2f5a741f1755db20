//! A stream's side of the connection's schedule: what it wants to put on the
//! wire next.

use std::ops::ControlFlow;
use std::task::Waker;

use vstd::prelude::*;

use crate::codec::decoder::FrameView;
use crate::global_pool::GlobalPool;
use crate::header::ControlFlags;
use crate::poll::Poll;
use crate::stream::fin::FinState;
use crate::stream::inbound::SizingInputs;
use crate::stream::waker::Wakes;
use crate::stream::SharedStreamState;
use crate::stream_id::StreamId;
use crate::time::Timestamp;
use crate::transport::frame::{Data, Payload, StreamFrame, StreamWindowUpdate};

verus! {

/// One stream's entry in the connection's schedule: polled for whatever that
/// stream wants to put on the wire next.
#[derive(Debug, PartialEq, Eq, Structural)]
pub struct StreamUpdates {
    /// Stream being polled.
    pub id: StreamId,
    /// Whether the next frame still has to carry `SYN`.
    pub syn: bool,
}

/// What a stream wants on the wire next.
///
/// Usually one frame. A stream with both a window update and payload pending
/// produces the pair, because the two have to be written back to back: a stream
/// that yields goes to the *back* of the schedule, so a second frame left for
/// the next turn waits out a full rotation of every other ready stream.
pub struct StreamOutput {
    /// The frame to send now.
    pub first: StreamFrame,
    /// The frame to send immediately after it, if there is one.
    pub second: Option<StreamFrame>,
    /// State of the stream once both are out.
    pub fin_state: FinState,
}

/// The frame that leads, given what the two directions have to say.
///
/// The window update leads. It costs no transit credit and it is what lets the
/// peer keep sending, so it must not queue behind payload.
pub open spec fn first_frame(
    id: StreamId,
    syn: bool,
    update: Option<(u32, bool)>,
    payload: Option<(Seq<u8>, bool)>,
) -> FrameView {
    match (update, payload) {
        (Some((update, fin_read)), _) => FrameView::WindowUpdate {
            stream_id: id,
            flags: ControlFlags { syn, fin_read, fin_write: false },
            update,
        },
        (None, Some((data, fin_write))) => FrameView::Data {
            stream_id: id,
            flags: ControlFlags { syn, fin_read: false, fin_write },
            data,
        },
        (None, None) => FrameView::Terminate,
    }
}

/// The frame that follows, if any.
pub open spec fn second_frame(
    id: StreamId,
    update: Option<(u32, bool)>,
    payload: Option<(Seq<u8>, bool)>,
) -> Option<FrameView> {
    match (update, payload) {
        (Some(_), Some((data, fin_write))) => Some(
            FrameView::Data {
                stream_id: id,
                flags: ControlFlags { syn: false, fin_read: false, fin_write },
                data,
            },
        ),
        _ => None,
    }
}

/// An optional frame as a mathematical value.
pub open spec fn optional_view(frame: Option<StreamFrame>) -> Option<FrameView> {
    match frame {
        Some(frame) => Some(frame@),
        None => None,
    }
}

impl StreamUpdates {
    /// What an optimal receive window size has to be calculated from before
    /// [`StreamUpdates::poll_progress`], if a resize is due.
    pub fn sizing_inputs(
        &self,
        state: &SharedStreamState,
        global: &GlobalPool,
        now: Timestamp,
    ) -> (r: Option<SizingInputs>)
        ensures
            r == state.inbound@.sizing(*global, now),
    {
        state.inbound.sizing_inputs(global, now)
    }

    /// Polls for the frames that the stream wants on the wire next.
    ///
    /// Breaks with the last frames of a stream that has sent both fins.
    /// Registers `waker` where there is nothing to send.
    pub fn poll_progress(
        &mut self,
        state: &mut SharedStreamState,
        global: &mut GlobalPool,
        waker: &Waker,
        optimal: u32,
        now: Timestamp,
        woken: &mut Wakes,
    ) -> (r: Poll<ControlFlow<StreamOutput, StreamOutput>>)
        requires
            old(state).valid(),
            old(global).valid(),
            old(global).available + old(state).inbound@.borrowed() <= usize::MAX,
        ensures
            final(state).valid(),
            final(self).id == old(self).id,
            final(state).inbound@ == old(state).inbound@.polled(*old(global), optimal, now),
            final(state).outbound@ == old(state).outbound@.polled(old(global).send_budget),
            final(woken)@ == old(woken)@ + old(state).outbound@.woken_by_poll(
                old(global).send_budget,
            ),
            final(global).available + final(state).inbound@.borrowed() == old(global).available
                + old(state).inbound@.borrowed(),
            ({
                let update = old(state).inbound@.update(*old(global), optimal);
                let payload = old(state).outbound@.update(old(global).send_budget);
                let pool = old(state).inbound@.pool_after(*old(global), optimal, now);
                if update is None && payload is None {
                    &&& r is Pending
                    &&& final(self).syn == old(self).syn
                    &&& final(state).updates_poller@ == Some(*waker)
                    &&& *final(global) == (GlobalPool {
                        transit_blocked: old(global).transit_blocked || old(state).outbound@.transit_blocked(old(global).send_budget),
                        ..pool
                    })
                } else {
                    &&& r matches Poll::Ready(flow)
                    &&& !final(self).syn
                    &&& final(state).updates_poller@ == old(state).updates_poller@
                    &&& *final(global) == pool
                    &&& flow is Break <==> final(state)@.fins().sent
                    &&& ({
                        let output = match flow {
                            ControlFlow::Break(output) => output,
                            ControlFlow::Continue(output) => output,
                        };
                        &&& output.first@ == first_frame(old(self).id, old(self).syn, update, payload)
                        &&& optional_view(output.second) == second_frame(
                            old(self).id,
                            update,
                            payload,
                        )
                        &&& output.fin_state == final(state)@.fins()
                    })
                }
            }),
    {
        let window_update = state.inbound.poll_update(global, optimal, now);
        let mut transit_blocked = false;
        let payload = match state.outbound.poll_update(
            global.send_budget,
            &mut transit_blocked,
            woken,
        ) {
            // An empty chunk without a fin is nothing to send.
            Poll::Ready((payload, fin_write)) => if payload.is_empty() && !fin_write {
                Poll::Pending
            } else {
                Poll::Ready((payload, fin_write))
            },
            Poll::Pending => Poll::Pending,
        };
        let id = self.id;
        let syn = self.syn;
        let (first, second) = match (window_update, payload) {
            (Poll::Ready((update, fin_read)), payload) => {
                let first = StreamFrame::WindowUpdate(
                    StreamWindowUpdate {
                        stream_id: id,
                        flags: ControlFlags { syn, fin_read, fin_write: false },
                        update,
                    },
                );
                let second = match payload {
                    Poll::Ready((payload, fin_write)) => Some(
                        StreamFrame::Data(
                            Data {
                                stream_id: id,
                                flags: ControlFlags { syn: false, fin_read: false, fin_write },
                                payload: Payload::ToSend(payload),
                            },
                        ),
                    ),
                    Poll::Pending => None,
                };
                (first, second)
            },
            (Poll::Pending, Poll::Ready((payload, fin_write))) => {
                let first = StreamFrame::Data(
                    Data {
                        stream_id: id,
                        flags: ControlFlags { syn, fin_read: false, fin_write },
                        payload: Payload::ToSend(payload),
                    },
                );
                (first, None)
            },
            (Poll::Pending, Poll::Pending) => {
                global.transit_blocked = global.transit_blocked || transit_blocked;
                state.updates_poller.register(waker);
                return Poll::Pending;
            },
        };
        self.syn = false;
        let fin_state = state.fin_state();
        let output = StreamOutput { first, second, fin_state };
        // If we sent both fins, this stream of updates is done. Otherwise, it
        // should be polled again.
        if fin_state.sent {
            Poll::Ready(ControlFlow::Break(output))
        } else {
            Poll::Ready(ControlFlow::Continue(output))
        }
    }
}

} // verus!
