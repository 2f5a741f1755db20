//! One direction of a stream from end to end: a writer, a reader, and whatever
//! is on the way between them.

use std::task::Waker;

use vstd::prelude::*;

use crate::buffer::bytes_of;
use crate::config::RammuxConfig;
use crate::global_pool::GlobalPool;
use crate::stream::inbound::{total_of_push, InboundView};
use crate::stream::laws::{framing_keeps_order_and_limits, resizes_are_bounded};
use crate::stream::outbound::OutboundView;
use crate::stream::SharedStreamState;
use crate::time::Timestamp;

verus! {

/// One direction of a stream, and the frames that are on the way.
#[verifier::ext_equal]
pub ghost struct Link {
    /// The writing side.
    pub sender: OutboundView,
    /// The reading side.
    pub receiver: InboundView,
    /// Data on its way to the reading side, with the fin that it carries.
    pub data: Seq<(Seq<u8>, bool)>,
    /// Window updates on their way back, with the fin that they carry.
    pub updates: Seq<(u32, bool)>,
    /// Everything that was written.
    pub written: Seq<u8>,
    /// Everything that was read.
    pub read: Seq<u8>,
    /// Whether the reader left before the end.
    pub left: bool,
}

/// What can happen on a link.
pub ghost enum Event {
    /// The application writes.
    Write(Seq<u8>),
    /// The application closes its writing end.
    Close,
    /// The writing side is polled under a transit budget.
    Frame(Option<u32>),
    /// The oldest data frame arrives.
    Arrive,
    /// The application asks for data.
    Read(Waker),
    /// The application closes its reading end.
    Leave,
    /// The reading side is polled.
    Update(GlobalPool, u32, Timestamp),
    /// The oldest window update arrives.
    Credit,
}

/// The payload of a run of data frames.
pub open spec fn payload_of(frames: Seq<(Seq<u8>, bool)>) -> Seq<u8>
    decreases frames.len(),
{
    if frames.len() == 0 {
        Seq::empty()
    } else {
        frames[0].0 + payload_of(frames.drop_first())
    }
}

/// The credit that a run of window updates returns.
pub open spec fn credit_of(updates: Seq<(u32, bool)>) -> nat
    decreases updates.len(),
{
    if updates.len() == 0 {
        0
    } else {
        updates[0].0 as nat + credit_of(updates.drop_first())
    }
}

/// Whether a fin that was sent is on the way, on the last frame, or has arrived
/// with nothing behind it.
pub open spec fn fin_travels<T>(frames: Seq<(T, bool)>, sent: bool, arrived: bool) -> bool {
    &&& forall|i: int| 0 <= i < frames.len() - 1 ==> !(#[trigger] frames[i]).1
    &&& sent <==> arrived || frames.len() > 0 && frames.last().1
    &&& arrived ==> frames.len() == 0
}

impl Link {
    /// A link between two fresh ends of a stream.
    pub open spec fn between(writer: SharedStreamState, reader: SharedStreamState) -> Self {
        Link {
            sender: writer.outbound@,
            receiver: reader.inbound@,
            data: Seq::empty(),
            updates: Seq::empty(),
            written: Seq::empty(),
            read: Seq::empty(),
            left: false,
        }
    }

    /// The books balance: every byte of the reader's credit is with the writer
    /// or on the way, and until the reader leaves, every byte that was written
    /// is in exactly one place, in order.
    pub open spec fn balanced(self) -> bool {
        &&& self.sender.valid()
        &&& self.receiver.valid()
        &&& fin_travels(self.data, self.sender.fins().sent, self.receiver.fin_received())
        &&& fin_travels(self.updates, self.receiver.fins().sent, self.sender.fins().received)
        &&& payload_of(self.data).len() + self.sender.window() + credit_of(self.updates)
            <= u32::MAX
        &&& !self.receiver.fin_received() ==> payload_of(self.data).len() + self.sender.window()
            + credit_of(self.updates) == self.receiver.credit()
        &&& !self.left && self.receiver is Closed ==> self.receiver.fin_received()
        &&& !self.left ==> self.read + bytes_of(self.receiver.unread()) + payload_of(self.data)
            + self.sender.pending() == self.written
    }

    /// Whether an event can happen.
    pub open spec fn enabled(self, event: Event) -> bool {
        match event {
            Event::Write(_) => self.sender is Open && self.sender.pending().len() == 0,
            Event::Arrive => self.data.len() > 0,
            Event::Update(pool, _, _) => {
                &&& pool.valid()
                &&& pool.available + self.receiver.borrowed() <= usize::MAX
            },
            Event::Credit => self.updates.len() > 0,
            _ => true,
        }
    }

    /// Whether the frame that an event delivers, if any, keeps to the protocol.
    pub open spec fn accepts(self, event: Event) -> bool {
        match event {
            Event::Arrive => {
                let (data, fin) = self.data[0];
                &&& data.len() <= self.receiver.credit()
                &&& fin ==> !self.receiver.data_received(data).fin_received()
            },
            Event::Credit => {
                let (update, fin) = self.updates[0];
                &&& update == 0 || !self.sender.fins().received && self.sender.window() + update
                    <= u32::MAX
                &&& fin ==> !self.sender.with_window(self.sender.window() + update).fins().received
            },
            _ => true,
        }
    }

    /// The link after an event.
    pub open spec fn after(self, event: Event) -> Self {
        match event {
            Event::Write(data) => Link {
                sender: self.sender.with_data(data),
                written: self.written + data,
                ..self
            },
            Event::Close => Link { sender: self.sender.writing_closed(), ..self },
            Event::Frame(budget) => match self.sender.update(budget) {
                Some(frame) => Link {
                    sender: self.sender.polled(budget),
                    data: self.data.push(frame),
                    ..self
                },
                None => self,
            },
            Event::Arrive => {
                let (data, fin) = self.data[0];
                let received = self.receiver.data_received(data);
                Link {
                    receiver: if fin {
                        received.writing_finished()
                    } else {
                        received
                    },
                    data: self.data.drop_first(),
                    ..self
                }
            },
            Event::Read(waker) => Link {
                receiver: self.receiver.read_by(waker),
                read: if self.receiver.unread().len() > 0 {
                    self.read + self.receiver.unread()[0]
                } else {
                    self.read
                },
                ..self
            },
            Event::Leave => Link {
                receiver: self.receiver.reading_closed(),
                left: self.left || !(self.receiver is Closed),
                ..self
            },
            Event::Update(pool, optimal, now) => Link {
                receiver: self.receiver.polled(pool, optimal, now),
                updates: match self.receiver.update(pool, optimal) {
                    Some(update) => self.updates.push(update),
                    None => self.updates,
                },
                ..self
            },
            Event::Credit => {
                let (update, fin) = self.updates[0];
                let credited = self.sender.with_window(self.sender.window() + update);
                Link {
                    sender: if fin {
                        credited.reading_finished()
                    } else {
                        credited
                    },
                    updates: self.updates.drop_first(),
                    ..self
                }
            },
        }
    }
}

/// A frame behind a run of frames adds its payload.
proof fn payload_of_push(frames: Seq<(Seq<u8>, bool)>, frame: (Seq<u8>, bool))
    ensures
        payload_of(frames.push(frame)) == payload_of(frames) + frame.0,
    decreases frames.len(),
{
    reveal_with_fuel(payload_of, 2);
    if frames.len() == 0 {
        assert(frames.push(frame).drop_first() =~= Seq::<(Seq<u8>, bool)>::empty());
        assert(payload_of(frames.push(frame)) =~= payload_of(frames) + frame.0);
    } else {
        payload_of_push(frames.drop_first(), frame);
        assert(frames.push(frame).drop_first() =~= frames.drop_first().push(frame));
        assert(payload_of(frames.push(frame)) =~= payload_of(frames) + frame.0);
    }
}

/// An update behind a run of updates adds its credit.
proof fn credit_of_push(updates: Seq<(u32, bool)>, update: (u32, bool))
    ensures
        credit_of(updates.push(update)) == credit_of(updates) + update.0,
    decreases updates.len(),
{
    reveal_with_fuel(credit_of, 2);
    if updates.len() == 0 {
        assert(updates.push(update).drop_first() =~= Seq::<(u32, bool)>::empty());
    } else {
        credit_of_push(updates.drop_first(), update);
        assert(updates.push(update).drop_first() =~= updates.drop_first().push(update));
    }
}

/// A chunk behind a list of chunks adds its bytes.
proof fn bytes_of_push(chunks: Seq<Seq<u8>>, chunk: Seq<u8>)
    ensures
        bytes_of(chunks.push(chunk)) == bytes_of(chunks) + chunk,
    decreases chunks.len(),
{
    reveal_with_fuel(bytes_of, 2);
    if chunks.len() == 0 {
        assert(chunks.push(chunk).drop_first() =~= Seq::<Seq<u8>>::empty());
        assert(bytes_of(chunks.push(chunk)) =~= bytes_of(chunks) + chunk);
    } else {
        bytes_of_push(chunks.drop_first(), chunk);
        assert(chunks.push(chunk).drop_first() =~= chunks.drop_first().push(chunk));
        assert(bytes_of(chunks.push(chunk)) =~= bytes_of(chunks) + chunk);
    }
}

/// The two ends of a new stream, configured to match, make a link whose books
/// balance.
pub proof fn fresh_links_balance(
    writer: SharedStreamState,
    reader: SharedStreamState,
    writer_config: RammuxConfig,
    reader_config: RammuxConfig,
    started: Timestamp,
    accepted: Timestamp,
)
    requires
        writer_config.valid(),
        reader_config.valid(),
        writer_config.remote_recv_window == reader_config.local_recv_window,
        writer.fresh(writer_config, started),
        reader.fresh(reader_config, accepted),
    ensures
        Link::between(writer, reader).balanced(),
{
    let link = Link::between(writer, reader);
    assert(link.read + bytes_of(link.receiver.unread()) + payload_of(link.data)
        + link.sender.pending() =~= link.written);
}

/// What the writing side does keeps the books balanced.
proof fn writer_keeps_the_books(link: Link, event: Event)
    requires
        link.balanced(),
        link.enabled(event),
        event is Write || event is Close || event is Frame,
    ensures
        link.after(event).balanced(),
{
    let next = link.after(event);
    match event {
        Event::Write(data) => {
            assert(link.sender.pending() =~= Seq::empty());
            if !link.left {
                assert(next.read + bytes_of(next.receiver.unread()) + payload_of(next.data)
                    + next.sender.pending() =~= next.written);
            }
        },
        Event::Frame(budget) => {
            if let Some(frame) = link.sender.update(budget) {
                payload_of_push(link.data, frame);
                if !(link.sender is Closed) {
                    framing_keeps_order_and_limits(link.sender, budget);
                }
                assert(frame.0 + next.sender.pending() =~= link.sender.pending());
                if !link.left {
                    assert(next.read + bytes_of(next.receiver.unread()) + payload_of(next.data)
                        + next.sender.pending() =~= link.read + bytes_of(link.receiver.unread())
                        + payload_of(link.data) + link.sender.pending());
                }
            }
        },
        _ => {},
    }
}

/// What the reading side does keeps the books balanced.
proof fn reader_keeps_the_books(link: Link, event: Event)
    requires
        link.balanced(),
        link.enabled(event),
        event is Read || event is Leave || event is Update,
    ensures
        link.after(event).balanced(),
{
    let next = link.after(event);
    match event {
        Event::Read(_) => {
            if link.receiver.unread().len() > 0 {
                let chunks = link.receiver.unread();
                if link.receiver is HalfClosed && chunks.len() == 1 {
                    assert(chunks.drop_first() =~= Seq::empty());
                }
                assert(next.receiver.unread() =~= chunks.drop_first());
                if !link.left {
                    assert(next.read + bytes_of(next.receiver.unread()) + payload_of(next.data)
                        + next.sender.pending() =~= link.read + bytes_of(chunks) + payload_of(
                        link.data,
                    ) + link.sender.pending());
                }
            }
        },
        Event::Update(pool, optimal, now) => {
            if let InboundView::Open { window, .. } = link.receiver {
                resizes_are_bounded(window, pool, optimal);
            }
            if let Some(update) = link.receiver.update(pool, optimal) {
                credit_of_push(link.updates, update);
            }
        },
        _ => {},
    }
}

/// What arrives is accepted, and keeps the books balanced.
proof fn arrivals_keep_the_books(link: Link, event: Event)
    requires
        link.balanced(),
        link.enabled(event),
        event is Arrive || event is Credit,
    ensures
        link.accepts(event),
        link.after(event).balanced(),
{
    let next = link.after(event);
    match event {
        Event::Arrive => {
            let (data, fin) = link.data[0];
            if let InboundView::Open { ready, .. } = link.receiver {
                total_of_push(ready, data);
                bytes_of_push(ready, data);
            }
            assert(forall|i: int|
                0 <= i < next.data.len() ==> #[trigger] next.data[i] == link.data[i + 1]);
            if !link.left {
                assert(next.read + bytes_of(next.receiver.unread()) + payload_of(next.data)
                    + next.sender.pending() =~= link.read + bytes_of(link.receiver.unread())
                    + payload_of(link.data) + link.sender.pending());
            }
        },
        Event::Credit => {
            let (update, fin) = link.updates[0];
            assert(forall|i: int|
                0 <= i < next.updates.len() ==> #[trigger] next.updates[i] == link.updates[i
                    + 1]);
            if fin && !link.left {
                assert(next.sender.pending() =~= link.sender.pending());
            }
        },
        _ => {},
    }
}

/// Whatever happens on a link, in whatever order, and however long frames are on
/// the way: every frame that arrives keeps to the protocol, and the books stay
/// balanced. So the writer never exceeds what the reader allows, no credit is
/// lost or made up, and each fin comes once, behind everything else.
pub proof fn links_stay_balanced(link: Link, event: Event)
    requires
        link.balanced(),
        link.enabled(event),
    ensures
        link.accepts(event),
        link.after(event).balanced(),
{
    match event {
        Event::Write(_) => writer_keeps_the_books(link, event),
        Event::Close => writer_keeps_the_books(link, event),
        Event::Frame(_) => writer_keeps_the_books(link, event),
        Event::Read(_) => reader_keeps_the_books(link, event),
        Event::Leave => reader_keeps_the_books(link, event),
        Event::Update(_, _, _) => reader_keeps_the_books(link, event),
        Event::Arrive => arrivals_keep_the_books(link, event),
        Event::Credit => arrivals_keep_the_books(link, event),
    }
}

/// A reader that stays reads exactly what was written, in order: a front part of
/// it at any time, and all of it once it is told that the stream has ended.
pub proof fn readers_get_what_was_written(link: Link)
    requires
        link.balanced(),
        !link.left,
    ensures
        link.read.is_prefix_of(link.written),
        link.receiver is Closed ==> link.read == link.written,
{
    if link.receiver is Closed {
        assert(link.sender is Closed);
        assert(link.read =~= link.written);
    }
}

/// A link never stalls: once everything that was sent has been read, the writer
/// either has credit left or is about to be given some.
pub proof fn links_do_not_stall(link: Link, pool: GlobalPool, optimal: u32)
    requires
        link.balanced(),
        pool.valid(),
        link.receiver is Open,
        link.receiver.unread().len() == 0,
        link.data.len() == 0,
        link.updates.len() == 0,
    ensures
        link.sender.window() > 0 || (link.receiver.update(pool, optimal) matches Some((update, _))
            && update > 0),
{
    if let InboundView::Open { window, .. } = link.receiver {
        resizes_are_bounded(window, pool, optimal);
    }
}

} // verus!
