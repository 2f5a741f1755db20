//! The connection's side of a stream: what arrives for it.

use std::task::Waker;

use vstd::prelude::*;

use crate::buffer::Data;
use crate::codec::decoder::FrameView;
use crate::error::StreamError;
use crate::stream::fin::FinState;
use crate::stream::inbound::InboundView;
use crate::stream::outbound::OutboundView;
use crate::stream::waker::{registered, Wakes};
use crate::stream::SharedStreamState;
use crate::transport::frame::StreamFrame;

verus! {

/// A [`SharedStreamState`] as a mathematical value.
#[verifier::ext_equal]
pub ghost struct StreamView {
    pub inbound: InboundView,
    pub outbound: OutboundView,
    /// Whoever waits for the stream to have something to send.
    pub poller: Option<Waker>,
}

impl View for SharedStreamState {
    type V = StreamView;

    open spec fn view(&self) -> StreamView {
        StreamView {
            inbound: self.inbound@,
            outbound: self.outbound@,
            poller: self.updates_poller@,
        }
    }
}

impl StreamView {
    /// The fins of the whole stream.
    pub open spec fn fins(self) -> FinState {
        self.inbound.fins().both(self.outbound.fins())
    }

    /// With the peer's fins taken in. Whoever polls the stream is woken where
    /// that gives us a fin to send.
    pub open spec fn finished(self, fin_read: bool, fin_write: bool) -> Self {
        StreamView {
            inbound: if fin_write {
                self.inbound.writing_finished()
            } else {
                self.inbound
            },
            outbound: if fin_read {
                self.outbound.reading_finished()
            } else {
                self.outbound
            },
            poller: if self.fins_stir(fin_read, fin_write) {
                None
            } else {
                self.poller
            },
        }
    }

    /// Whether each fin comes for the first time.
    pub open spec fn fins_are_new(self, fin_read: bool, fin_write: bool) -> bool {
        &&& fin_write ==> !self.inbound.fin_received()
        &&& fin_read ==> !self.outbound.fins().received
    }

    /// Whether taking in the peer's fins gives us a fin to send.
    pub open spec fn fins_stir(self, fin_read: bool, fin_write: bool) -> bool {
        ||| fin_write && self.inbound.fin_stirs()
        ||| fin_read && !(self.outbound is Closed)
    }

    /// With data taken in.
    pub open spec fn with_data(self, data: Seq<u8>) -> Self {
        StreamView { inbound: self.inbound.data_received(data), ..self }
    }

    /// With credit taken in. Whoever polls the stream is woken where data waited
    /// for it.
    pub open spec fn with_update(self, update: u32) -> Self {
        StreamView {
            outbound: self.outbound.with_window(self.outbound.window() + update),
            poller: if self.outbound.credit_stirs(update) {
                None
            } else {
                self.poller
            },
            ..self
        }
    }

    /// Who is woken by credit: whoever polls the stream.
    pub open spec fn woken_by_update(self, update: u32) -> Seq<Waker> {
        if self.outbound.credit_stirs(update) {
            registered(self.poller)
        } else {
            Seq::empty()
        }
    }

    /// Who is woken by the peer's `FIN_READ`, if it is there.
    pub open spec fn woken_by_fin_read(self, fin_read: bool) -> Seq<Waker> {
        if fin_read {
            self.outbound.woken_by_fin(self.poller)
        } else {
            Seq::empty()
        }
    }

    /// Who is woken by the peer's `FIN_WRITE`, if it is there.
    pub open spec fn woken_by_fin_write(self, fin_write: bool) -> Seq<Waker> {
        if fin_write {
            self.inbound.woken_by_fin(self.poller)
        } else {
            Seq::empty()
        }
    }

    /// Who is woken by data with fins, which is taken in up to a fault.
    pub open spec fn woken_by_data(self, data: Seq<u8>, fin_read: bool, fin_write: bool) -> Seq<
        Waker,
    > {
        let with_data = self.with_data(data);
        if !self.accepts_data(data) {
            Seq::empty()
        } else if fin_write && self.inbound.fin_received() {
            self.inbound.woken_by_data(data)
        } else {
            self.inbound.woken_by_data(data) + with_data.woken_by_fin_write(fin_write)
                + with_data.finished(false, fin_write).woken_by_fin_read(fin_read)
        }
    }

    /// Who is woken by credit with fins, which is taken in up to a fault.
    pub open spec fn woken_by_credit(self, update: u32, fin_read: bool, fin_write: bool) -> Seq<
        Waker,
    > {
        let with_update = self.with_update(update);
        if !self.accepts_update(update) {
            Seq::empty()
        } else if fin_read && self.outbound.fins().received {
            self.woken_by_update(update)
        } else {
            self.woken_by_update(update) + with_update.woken_by_fin_read(fin_read)
                + with_update.finished(fin_read, false).woken_by_fin_write(fin_write)
        }
    }

    /// Who is woken by a frame.
    pub open spec fn woken_by(self, frame: FrameView) -> Seq<Waker> {
        match frame {
            FrameView::Data { flags, data, .. } => self.woken_by_data(
                data,
                flags.fin_read,
                flags.fin_write,
            ),
            FrameView::WindowUpdate { flags, update, .. } => self.woken_by_credit(
                update,
                flags.fin_read,
                flags.fin_write,
            ),
            _ => Seq::empty(),
        }
    }

    /// Whether data keeps to the credit that the peer has.
    pub open spec fn accepts_data(self, data: Seq<u8>) -> bool {
        data.len() <= self.inbound.credit()
    }

    /// Whether credit fits the window and comes before the peer's `FIN_READ`.
    pub open spec fn accepts_update(self, update: u32) -> bool {
        update == 0 || !self.outbound.fins().received && self.outbound.window() + update <= u32::MAX
    }

    /// What is wrong with data that is not accepted.
    pub open spec fn data_fault(self) -> Seq<char> {
        if self.inbound.fin_received() {
            "sent data after FIN_WRITE"@
        } else {
            "exceeded available receive window"@
        }
    }

    /// What is wrong with credit that is not accepted.
    pub open spec fn update_fault(self) -> Seq<char> {
        if self.outbound.fins().received {
            "sent window update after FIN_READ"@
        } else {
            "triggered receive window overflow"@
        }
    }

    /// Whether a frame is legal for the stream.
    pub open spec fn accepts(self, frame: FrameView) -> bool {
        match frame {
            FrameView::Data { flags, data, .. } => self.accepts_data(data) && self.fins_are_new(
                flags.fin_read,
                flags.fin_write,
            ),
            FrameView::WindowUpdate { flags, update, .. } => self.accepts_update(update)
                && self.fins_are_new(flags.fin_read, flags.fin_write),
            _ => false,
        }
    }

    /// What is wrong with a frame that is not legal.
    pub open spec fn fault(self, frame: FrameView) -> Seq<char> {
        match frame {
            FrameView::Data { flags, data, .. } => if !self.accepts_data(data) {
                self.data_fault()
            } else if flags.fin_write && self.inbound.fin_received() {
                "sent duplicate FIN_WRITE"@
            } else {
                "sent duplicate FIN_READ"@
            },
            FrameView::WindowUpdate { flags, update, .. } => if !self.accepts_update(update) {
                self.update_fault()
            } else if flags.fin_read && self.outbound.fins().received {
                "sent duplicate FIN_READ"@
            } else {
                "sent duplicate FIN_WRITE"@
            },
            _ => Seq::empty(),
        }
    }

    /// The stream once a frame that is not legal has arrived: it is applied up to
    /// the fault.
    pub open spec fn after_fault(self, frame: FrameView) -> Self {
        match frame {
            FrameView::Data { flags, data, .. } => if !self.accepts_data(data) {
                self
            } else if flags.fin_write && self.inbound.fin_received() {
                self.with_data(data)
            } else {
                self.with_data(data).finished(false, flags.fin_write)
            },
            FrameView::WindowUpdate { flags, update, .. } => if !self.accepts_update(update) {
                self
            } else if flags.fin_read && self.outbound.fins().received {
                self.with_update(update)
            } else {
                self.with_update(update).finished(flags.fin_read, false)
            },
            _ => self,
        }
    }

    /// The stream once a legal frame has arrived.
    pub open spec fn after(self, frame: FrameView) -> Self {
        match frame {
            FrameView::Data { flags, data, .. } => self.with_data(data).finished(
                flags.fin_read,
                flags.fin_write,
            ),
            FrameView::WindowUpdate { flags, update, .. } => self.with_update(update).finished(
                flags.fin_read,
                flags.fin_write,
            ),
            _ => self,
        }
    }
}

impl SharedStreamState {
    /// Updates the state of this stream with a received `DATA` frame.
    ///
    /// Returns the new [`FinState`] of the whole stream.
    pub fn received_data(
        &mut self,
        data: Data,
        fin_read: bool,
        fin_write: bool,
        woken: &mut Wakes,
    ) -> (r: Result<FinState, StreamError>)
        requires
            old(self).valid(),
            data@.len() <= u32::MAX,
        ensures
            final(self).valid(),
            final(self)@.inbound.borrowed() == old(self)@.inbound.borrowed(),
            r is Ok <==> old(self)@.accepts_data(data@) && old(self)@.fins_are_new(
                fin_read,
                fin_write,
            ),
            r matches Ok(fins) ==> {
                &&& final(self)@ == old(self)@.with_data(data@).finished(fin_read, fin_write)
                &&& fins == final(self)@.fins()
            },
            final(woken)@ == old(woken)@ + old(self)@.woken_by_data(data@, fin_read, fin_write),
            // A frame at fault is applied up to the fault.
            r matches Err(e) ==> if !old(self)@.accepts_data(data@) {
                e.0@ == old(self)@.data_fault() && final(self)@ == old(self)@
            } else if fin_write && old(self)@.inbound.fin_received() {
                e.0@ == "sent duplicate FIN_WRITE"@ && final(self)@ == old(self)@.with_data(data@)
            } else {
                e.0@ == "sent duplicate FIN_READ"@ && final(self)@ == old(self)@.with_data(
                    data@,
                ).finished(false, fin_write)
            },
    {
        if let Err(error) = self.inbound.received_data(data, woken) {
            return Err(error);
        }
        if fin_write {
            if let Err(error) = self.inbound.received_fin_write(&mut self.updates_poller, woken) {
                return Err(error);
            }
        }
        if fin_read {
            if let Err(error) = self.outbound.received_fin_read(&mut self.updates_poller, woken) {
                return Err(error);
            }
        }
        Ok(self.fin_state())
    }

    /// Updates the state of this stream with a received `WINDOW_UPDATE` frame.
    ///
    /// Returns the new [`FinState`] of the whole stream.
    pub fn received_window_update(
        &mut self,
        update: u32,
        fin_read: bool,
        fin_write: bool,
        woken: &mut Wakes,
    ) -> (r: Result<FinState, StreamError>)
        requires
            old(self).valid(),
        ensures
            final(self).valid(),
            final(self)@.inbound.borrowed() == old(self)@.inbound.borrowed(),
            r is Ok <==> old(self)@.accepts_update(update) && old(self)@.fins_are_new(
                fin_read,
                fin_write,
            ),
            r matches Ok(fins) ==> {
                &&& final(self)@ == old(self)@.with_update(update).finished(fin_read, fin_write)
                &&& fins == final(self)@.fins()
            },
            final(woken)@ == old(woken)@ + old(self)@.woken_by_credit(update, fin_read, fin_write),
            // A frame at fault is applied up to the fault.
            r matches Err(e) ==> if !old(self)@.accepts_update(update) {
                e.0@ == old(self)@.update_fault() && final(self)@ == old(self)@
            } else if fin_read && old(self)@.outbound.fins().received {
                e.0@ == "sent duplicate FIN_READ"@ && final(self)@ == old(self)@.with_update(update)
            } else {
                e.0@ == "sent duplicate FIN_WRITE"@ && final(self)@ == old(self)@.with_update(
                    update,
                ).finished(fin_read, false)
            },
    {
        if let Err(error) = self.outbound.received_window_update(
            update,
            &mut self.updates_poller,
            woken,
        ) {
            return Err(error);
        }
        if fin_read {
            if let Err(error) = self.outbound.received_fin_read(&mut self.updates_poller, woken) {
                return Err(error);
            }
        }
        if fin_write {
            if let Err(error) = self.inbound.received_fin_write(&mut self.updates_poller, woken) {
                return Err(error);
            }
        }
        Ok(self.fin_state())
    }

    /// Updates the state of this stream with a received frame.
    ///
    /// Returns the new [`FinState`] of the whole stream.
    pub fn received(&mut self, frame: StreamFrame, woken: &mut Wakes) -> (r: Result<
        FinState,
        StreamError,
    >)
        requires
            old(self).valid(),
            frame.payload_len() <= u32::MAX,
        ensures
            final(self).valid(),
            final(self)@.inbound.borrowed() == old(self)@.inbound.borrowed(),
            r is Ok <==> old(self)@.accepts(frame@),
            final(woken)@ == old(woken)@ + old(self)@.woken_by(frame@),
            r matches Ok(fins) ==> final(self)@ == old(self)@.after(frame@) && fins == final(self)@.fins(),
            r matches Err(e) ==> e.0@ == old(self)@.fault(frame@) && final(self)@
                == old(self)@.after_fault(frame@),
    {
        match frame {
            StreamFrame::Data(data) => self.received_data(
                data.payload.into_received(),
                data.flags.fin_read,
                data.flags.fin_write,
                woken,
            ),
            StreamFrame::WindowUpdate(update) => self.received_window_update(
                update.update,
                update.flags.fin_read,
                update.flags.fin_write,
                woken,
            ),
        }
    }

    /// Attempts to abort this stream, as if the peer had finished both
    /// directions.
    ///
    /// This is a noop if the stream is already dead.
    pub fn try_abort(&mut self, woken: &mut Wakes)
        requires
            old(self).valid(),
        ensures
            final(self).valid(),
            final(self)@.inbound.borrowed() == old(self)@.inbound.borrowed(),
            final(self)@ == old(self)@.finished(true, true),
            final(woken)@ == old(woken)@ + old(self)@.woken_by_fin_write(true) + old(self)@.finished(
                false,
                true,
            ).woken_by_fin_read(true),
    {
        let _ = self.inbound.received_fin_write(&mut self.updates_poller, woken);
        let _ = self.outbound.received_fin_read(&mut self.updates_poller, woken);
    }

    /// The fins of the whole stream.
    pub fn fin_state(&self) -> (r: FinState)
        ensures
            r == self@.fins(),
    {
        self.inbound.fin_state().and(self.outbound.fin_state())
    }
}

} // verus!
