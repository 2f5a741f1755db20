//! One pass over a connection: how much is read, and what is sent in which
//! order.

use vstd::prelude::*;

use crate::codec::ENCODER_QUEUE_CAPACITY;
use crate::connection::Progress;
use crate::stream::fin::FinState;
use crate::stream::updates::StreamOutput;
use crate::stream_id::StreamId;
use crate::transport::frame::StreamFrame;

verus! {

/// The inbound half of a pass.
///
/// Up to one encoder batch of inbound frames is taken in before anything is
/// sent. In particular, processing multiple `WINDOW_UPDATE`s can make several
/// outbound streams writable, allowing their frames to be coalesced into a
/// vectored write. The work is bounded so that ready reads cannot starve writes.
#[derive(Clone, Copy, Debug, PartialEq, Eq, Structural)]
pub struct InboundPass {
    /// How many more frames may be taken in.
    pub left: usize,
    /// What the frames came to.
    pub progress: Option<Progress>,
}

impl InboundPass {
    /// Whether another frame may be taken in: the batch is not full, and no
    /// stream was started that has to be reported first.
    pub open spec fn accepting(self) -> bool {
        self.left > 0 && !(self.progress is Some && self.progress->Some_0 is Inbound)
    }

    /// A pass with nothing taken in.
    pub fn new() -> (r: Self)
        ensures
            r == (InboundPass { left: ENCODER_QUEUE_CAPACITY, progress: None }),
    {
        InboundPass { left: ENCODER_QUEUE_CAPACITY, progress: None }
    }

    /// Whether another frame may be taken in.
    pub fn wants_more(&self) -> (r: bool)
        ensures
            r == self.accepting(),
    {
        self.left > 0 && !matches!(self.progress, Some(Progress::Inbound(_)))
    }

    /// Takes in a frame, which may have started a stream.
    pub fn on_frame(&mut self, started: Option<StreamId>)
        requires
            old(self).accepting(),
        ensures
            *final(self) == (InboundPass {
                left: (old(self).left - 1) as usize,
                progress: Some(
                    match started {
                        Some(id) => Progress::Inbound(id),
                        None => Progress::Empty,
                    },
                ),
            }),
    {
        self.left = self.left - 1;
        self.progress = Some(
            match started {
                Some(id) => Progress::Inbound(id),
                None => Progress::Empty,
            },
        );
    }
}

/// A frame to send.
pub struct Outgoing {
    /// The frame.
    pub frame: StreamFrame,
    /// State of the stream once the frame is out, unless more of the stream's
    /// output follows.
    pub fin_state: Option<FinState>,
}

/// What is left of a stream's output.
///
/// A window update and the payload that comes with it are written back to back:
/// nothing is sent between the two.
pub struct Outbox {
    second: Option<(StreamFrame, FinState)>,
}

impl View for Outbox {
    type V = Option<(StreamFrame, FinState)>;

    closed spec fn view(&self) -> Option<(StreamFrame, FinState)> {
        self.second
    }
}

impl Outbox {
    /// Nothing is left to send.
    pub fn new() -> (r: Self)
        ensures
            r@ is None,
    {
        Outbox { second: None }
    }

    /// Takes the frame that has to go out before any other stream is asked.
    pub fn next(&mut self) -> (r: Option<Outgoing>)
        ensures
            final(self)@ is None,
            r == match old(self)@ {
                Some((frame, fin_state)) => Some(Outgoing { frame, fin_state: Some(fin_state) }),
                None => None,
            },
    {
        match self.second.take() {
            Some((frame, fin_state)) => Some(Outgoing { frame, fin_state: Some(fin_state) }),
            None => None,
        }
    }

    /// Takes in what a stream wants on the wire, and returns its first frame.
    pub fn accept(&mut self, output: StreamOutput) -> (r: Outgoing)
        requires
            old(self)@ is None,
        ensures
            r.frame == output.first,
            match output.second {
                Some(second) => r.fin_state is None && final(self)@ == Some(
                    (second, output.fin_state),
                ),
                None => r.fin_state == Some(output.fin_state) && final(self)@ is None,
            },
    {
        let StreamOutput { first, second, fin_state } = output;
        match second {
            Some(second) => {
                self.second = Some((second, fin_state));
                Outgoing { frame: first, fin_state: None }
            },
            None => Outgoing { frame: first, fin_state: Some(fin_state) },
        }
    }
}

} // verus!
