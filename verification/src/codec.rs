//! Framing.

pub mod decoder;
pub mod encoder;
pub mod laws;

use std::collections::VecDeque;

use vstd::prelude::*;

use crate::codec::decoder::Decoder;
use crate::codec::encoder::{joined, EncoderItem};

verus! {

/// How many [`EncoderItem`]s can be stored in a [`RammuxCodec`] before data has
/// to be written into the I/O transport.
pub const ENCODER_QUEUE_CAPACITY: usize = 16;

/// The bytes of queued items, in the order in which they go out.
pub open spec fn queued_bytes(items: Seq<EncoderItem>) -> Seq<u8>
    decreases items.len(),
{
    if items.len() == 0 {
        Seq::empty()
    } else {
        items[0]@ + queued_bytes(items.drop_first())
    }
}

/// An item at the back of the queue comes last.
pub proof fn queued_last(items: Seq<EncoderItem>, item: EncoderItem)
    ensures
        queued_bytes(items.push(item)) == queued_bytes(items) + item@,
    decreases items.len(),
{
    reveal_with_fuel(queued_bytes, 2);
    if items.len() == 0 {
        assert(items.push(item).drop_first() =~= Seq::<EncoderItem>::empty());
        assert(queued_bytes(items.push(item)) =~= item@);
        assert(queued_bytes(items) + item@ =~= item@);
    } else {
        queued_last(items.drop_first(), item);
        assert(items.push(item).drop_first() =~= items.drop_first().push(item));
        assert(queued_bytes(items.push(item)) =~= queued_bytes(items) + item@);
    }
}

/// Slices joined in two parts.
proof fn joined_parts(a: Seq<&[u8]>, b: Seq<&[u8]>)
    ensures
        joined(a + b) == joined(a) + joined(b),
    decreases a.len(),
{
    if a.len() == 0 {
        assert(a + b =~= b);
        assert(joined(a) + joined(b) =~= joined(b));
    } else {
        joined_parts(a.drop_first(), b);
        assert((a + b).drop_first() =~= a.drop_first() + b);
        assert(joined(a + b) =~= joined(a) + joined(b));
    }
}

/// What is left of `items` once the first `n` bytes are out: those that are out
/// completely are gone, and the next has lost its front.
pub open spec fn drained(items: Seq<Seq<u8>>, n: int) -> Seq<Seq<u8>>
    decreases items.len(),
{
    if items.len() == 0 {
        items
    } else if n < items[0].len() {
        items.update(0, items[0].skip(n))
    } else {
        drained(items.drop_first(), n - items[0].len())
    }
}

/// Where nothing goes out, nothing is gone.
proof fn nothing_is_drained(items: Seq<Seq<u8>>)
    requires
        items.len() > 0 ==> items[0].len() > 0,
    ensures
        drained(items, 0) == items,
{
    if items.len() > 0 {
        assert(items[0].skip(0) =~= items[0]);
        assert(items.update(0, items[0]) =~= items);
    }
}

/// Frame codec for one transport.
///
/// # Frame validation
///
/// This codec implements only basic frame validation, as it does not see the
/// state of the whole connection. Yielded [`DecodedFrame`]s can have arbitrary
/// values, except that data is never larger than the configured frame limit.
///
/// # Encoder queue
///
/// This codec queues [`EncoderItem`]s to leverage vectored writes for better
/// performance. At most [`ENCODER_QUEUE_CAPACITY`] items can be queued before
/// data has to be written into the I/O transport.
pub struct RammuxCodec {
    /// Items on their way out, oldest first.
    pub encoder_queue: VecDeque<EncoderItem>,
    /// Reader of inbound frames.
    pub decoder: Decoder,
}

impl RammuxCodec {
    /// The queue holds no more than it has room for, and nothing that is out
    /// completely.
    pub open spec fn valid(&self) -> bool {
        &&& self.encoder_queue@.len() <= ENCODER_QUEUE_CAPACITY
        &&& forall|i: int|
            0 <= i < self.encoder_queue@.len() ==> (#[trigger] self.encoder_queue@[i])@.len() > 0
    }

    /// The queued items, each as the bytes that are left of it.
    pub open spec fn items(&self) -> Seq<Seq<u8>> {
        self.encoder_queue@.map_values(|item: EncoderItem| item@)
    }

    /// The bytes that are queued to be written.
    pub open spec fn output(&self) -> Seq<u8> {
        queued_bytes(self.encoder_queue@)
    }

    /// A codec with nothing queued and nothing read.
    pub fn new(frame_limit: u32) -> (r: Self)
        requires
            frame_limit <= isize::MAX,
        ensures
            r.valid(),
            r.encoder_queue@.len() == 0,
            r.decoder.seen() == Seq::<u8>::empty(),
            r.decoder.limit() == frame_limit,
    {
        RammuxCodec { encoder_queue: VecDeque::new(), decoder: Decoder::new(frame_limit) }
    }

    /// Whether data has to be written before another item can be queued.
    pub fn encoder_queue_full(&self) -> (r: bool)
        ensures
            r == (self.encoder_queue@.len() >= ENCODER_QUEUE_CAPACITY),
    {
        self.encoder_queue.len() >= ENCODER_QUEUE_CAPACITY
    }

    /// Whether nothing is queued.
    pub fn encoder_queue_empty(&self) -> (r: bool)
        ensures
            r == (self.encoder_queue@.len() == 0),
    {
        self.encoder_queue.len() == 0
    }

    /// Queues an item behind those already queued.
    pub fn start_send(&mut self, item: EncoderItem)
        requires
            old(self).valid(),
            old(self).encoder_queue@.len() < ENCODER_QUEUE_CAPACITY,
            item@.len() > 0,
        ensures
            final(self).valid(),
            final(self).encoder_queue@ == old(self).encoder_queue@.push(item),
            final(self).output() == old(self).output() + item@,
            final(self).decoder == old(self).decoder,
    {
        proof {
            queued_last(self.encoder_queue@, item);
        }
        self.encoder_queue.push_back(item);
    }

    /// The queued bytes as slices for one vectored write.
    pub fn chunks_vectored(&self) -> (r: Vec<&[u8]>)
        requires
            self.valid(),
        ensures
            joined(r@) == self.output(),
            r@.len() <= 2 * self.encoder_queue@.len(),
            forall|i: int| 0 <= i < r@.len() ==> (#[trigger] r@[i])@.len() > 0,
    {
        let mut r: Vec<&[u8]> = Vec::new();
        let mut i: usize = 0;
        let ghost items = self.encoder_queue@;
        assert(items.subrange(0, 0) =~= Seq::<EncoderItem>::empty());
        assert(joined(r@) =~= queued_bytes(items.subrange(0, 0)));
        while i < self.encoder_queue.len()
            invariant
                items == self.encoder_queue@,
                i <= items.len(),
                r@.len() <= 2 * i,
                joined(r@) == queued_bytes(items.subrange(0, i as int)),
                forall|j: int| 0 <= j < r@.len() ==> (#[trigger] r@[j])@.len() > 0,
            decreases items.len() - i,
        {
            let mut chunks = self.encoder_queue[i].chunks_vectored(2);
            proof {
                joined_parts(r@, chunks@);
                queued_last(items.subrange(0, i as int), items[i as int]);
                assert(items.subrange(0, i + 1) =~= items.subrange(0, i as int).push(
                    items[i as int],
                ));
            }
            r.append(&mut chunks);
            i += 1;
        }
        assert(items.subrange(0, items.len() as int) =~= items);
        r
    }

    /// Notes that the first `n` queued bytes were written, and lets go of the
    /// items that are out completely.
    pub fn written(&mut self, n: usize)
        requires
            old(self).valid(),
            n <= old(self).output().len(),
        ensures
            final(self).valid(),
            final(self).output() == old(self).output().subrange(
                n as int,
                old(self).output().len() as int,
            ),
            final(self).items() == drained(old(self).items(), n as int),
            n == old(self).output().len() ==> final(self).encoder_queue@.len() == 0,
            final(self).decoder == old(self).decoder,
    {
        let mut left: usize = n;
        let ghost all = self.output();
        assert(all.subrange(0, all.len() as int) =~= all);
        while left > 0
            invariant
                self.valid(),
                drained(self.items(), left as int) == drained(old(self).items(), n as int),
                self.decoder == old(self).decoder,
                left <= n <= all.len(),
                self.output() == all.subrange(n - left, all.len() as int),
                left > 0 ==> self.encoder_queue@.len() > 0,
            decreases left, self.encoder_queue@.len(),
        {
            let ghost items = self.encoder_queue@;
            let ghost before = self.output();
            let ghost before_items = self.items();
            match self.encoder_queue.pop_front() {
                None => {
                    return;
                },
                Some(item) => {
                    let mut item = item;
                    assert(self.encoder_queue@ =~= items.drop_first());
                    assert(self.items() =~= before_items.drop_first());
                    let remaining: usize = item.remaining();
                    if left < remaining {
                        item.advance(left);
                        self.encoder_queue.push_front(item);
                        assert(self.encoder_queue@.drop_first() =~= items.drop_first());
                        assert(self.items() =~= drained(before_items, left as int));
                        assert(self.output() =~= before.subrange(
                            left as int,
                            before.len() as int,
                        ));
                        left = 0;
                        proof {
                            nothing_is_drained(self.items());
                        }
                    } else {
                        assert(self.output() =~= before.subrange(
                            remaining as int,
                            before.len() as int,
                        ));
                        left = left - remaining;
                        if left > 0 && self.encoder_queue.len() == 0 {
                            assert(self.output().len() == 0);
                        }
                    }
                    assert(self.output() =~= all.subrange(n - left, all.len() as int));
                },
            }
        }
        proof {
            nothing_is_drained(self.items());
        }
    }
}

} // verus!
