//! Round robin over the nodes that are ready.

use std::task::{Context, Waker};

use tokio::sync::mpsc::{unbounded_channel, UnboundedReceiver, UnboundedSender};
use vstd::prelude::*;
use vstd::set_lib::{lemma_int_range, lemma_len_subset, set_int_range};

use crate::flow_control::FlowControl;
use crate::poll::Poll;

verus! {

/// Trait for values that can be queued in [`RoundRobinBus`].
pub trait MaybeReady {
    /// Whether the value is ready and should be enqueued.
    spec fn ready(&self) -> bool;

    /// Returns whether the value is ready and should be enqueued.
    fn is_ready(&self) -> (r: bool)
        ensures
            r == self.ready(),
    ;
}

impl MaybeReady for FlowControl {
    /// Ready once a window update is due.
    open spec fn ready(&self) -> bool {
        self.update_due()
    }

    fn is_ready(&self) -> (r: bool) {
        self.has_update()
    }
}

/// `tokio::sync::mpsc::UnboundedSender`: the writing end of a queue.
#[verifier::external_type_specification]
#[verifier::external_body]
#[verifier::reject_recursive_types(T)]
pub struct ExUnboundedSender<T>(tokio::sync::mpsc::UnboundedSender<T>);

/// `tokio::sync::mpsc::UnboundedReceiver`: the reading end of a queue.
#[verifier::external_type_specification]
#[verifier::external_body]
#[verifier::reject_recursive_types(T)]
pub struct ExUnboundedReceiver<T>(tokio::sync::mpsc::UnboundedReceiver<T>);

/// What was sent to a receiver and not received yet, oldest first.
pub uninterp spec fn waiting(rx: tokio::sync::mpsc::UnboundedReceiver<usize>) -> Seq<usize>;

/// Whether two ends are the only ones of one open channel, so that nothing gets
/// into the queue or out of it but through them.
pub uninterp spec fn sole_ends(
    tx: tokio::sync::mpsc::UnboundedSender<usize>,
    rx: tokio::sync::mpsc::UnboundedReceiver<usize>,
) -> bool;

/// `tokio::sync::mpsc::unbounded_channel` makes the two ends of a channel with
/// nothing in it.
#[verifier::external_body]
fn channel() -> (r: (UnboundedSender<usize>, UnboundedReceiver<usize>))
    ensures
        sole_ends(r.0, r.1),
        waiting(r.1) == Seq::<usize>::empty(),
{
    unbounded_channel()
}

/// `UnboundedSender::send` puts a message behind those that wait, and wakes
/// whoever polled for one. It fails on a closed channel only, and gives up the
/// process where more than `isize::MAX` messages would wait.
#[allow(unused_variables)]
#[verifier::external_body]
fn channel_send(
    tx: &UnboundedSender<usize>,
    rx: &mut UnboundedReceiver<usize>,
    message: usize,
)
    requires
        sole_ends(*tx, *old(rx)),
        waiting(*old(rx)).len() < isize::MAX,
    ensures
        sole_ends(*tx, *final(rx)),
        waiting(*final(rx)) == waiting(*old(rx)).push(message),
{
    let _ = tx.send(message);
}

/// `UnboundedReceiver::poll_recv` takes the oldest message. Where it answers that
/// there is none, whoever `waker` wakes is woken for the next; it may answer so
/// while messages wait, where the task has used up what the runtime allots to it.
/// It reports an end on a closed channel only.
#[allow(unused_variables)]
#[verifier::external_body]
fn channel_poll_recv(
    tx: &UnboundedSender<usize>,
    rx: &mut UnboundedReceiver<usize>,
    waker: &Waker,
) -> (r: Poll<Option<usize>>)
    requires
        sole_ends(*tx, *old(rx)),
    ensures
        sole_ends(*tx, *final(rx)),
        match r {
            Poll::Ready(message) => {
                &&& waiting(*old(rx)).len() > 0
                &&& message == Some(waiting(*old(rx))[0])
                &&& waiting(*final(rx)) == waiting(*old(rx)).drop_first()
            },
            Poll::Pending => waiting(*final(rx)) == waiting(*old(rx)),
        },
{
    match rx.poll_recv(&mut Context::from_waker(waker)) {
        std::task::Poll::Ready(message) => Poll::Ready(message),
        std::task::Poll::Pending => Poll::Pending,
    }
}

/// Round robin queue of ready nodes.
///
/// This queue is round robin, because each [`Node`] can only be present in the
/// queue once. The node can only be enqueued again after being dequeued.
/// Enqueuing happens automatically in [`Node::modify`] and
/// [`DequeuedNode::modify`] if the node is ready after the modification.
pub struct RoundRobinBus<T> {
    values: Vec<Option<T>>,
    taken: Vec<bool>,
    tx: UnboundedSender<usize>,
    rx: UnboundedReceiver<usize>,
}

/// Node that can be enqueued to [`RoundRobinBus`].
///
/// At any time it may or may not be enqueued.
#[derive(Clone, Copy, Debug, PartialEq, Eq, Structural)]
pub struct Node {
    idx: usize,
}

/// Node that was dequeued from a [`RoundRobinBus`].
pub struct DequeuedNode {
    idx: usize,
}

/// A [`RoundRobinBus`] as a mathematical value.
#[verifier::ext_equal]
#[verifier::reject_recursive_types(T)]
pub ghost struct BusView<T> {
    /// The value of each node.
    pub values: Seq<T>,
    /// Which nodes are in the queue, or dequeued and not put back yet.
    pub taken: Seq<bool>,
    /// The nodes in the queue, oldest first.
    pub queue: Seq<int>,
}

impl<T> BusView<T> {
    /// No node is in the queue twice, and those that are count as taken.
    pub open spec fn valid(self) -> bool {
        &&& self.taken.len() == self.values.len()
        &&& self.queue.no_duplicates()
        &&& forall|i: int|
            0 <= i < self.queue.len() ==> 0 <= #[trigger] self.queue[i] < self.values.len()
                && self.taken[self.queue[i]]
    }

    /// With the given value for a node.
    pub open spec fn with_value(self, node: int, value: T) -> Self {
        BusView { values: self.values.update(node, value), ..self }
    }

    /// With a node at the back of the queue.
    pub open spec fn enqueued(self, node: int) -> Self {
        BusView {
            taken: self.taken.update(node, true),
            queue: self.queue.push(node),
            ..self
        }
    }

    /// With a dequeued node let go.
    pub open spec fn released(self, node: int) -> Self {
        BusView { taken: self.taken.update(node, false), ..self }
    }
}

/// As long as a node is not in the queue, there are fewer in it than there are.
proof fn queue_is_shorter<T>(bus: BusView<T>, node: int)
    requires
        bus.valid(),
        0 <= node < bus.values.len(),
        !bus.queue.contains(node),
    ensures
        bus.queue.len() < bus.values.len(),
{
    let all = set_int_range(0, bus.values.len() as int);
    let queued = bus.queue.to_set();
    lemma_int_range(0, bus.values.len() as int);
    bus.queue.unique_seq_to_set();
    assert(queued.insert(node).subset_of(all));
    assert(queued.finite()) by {
        lemma_len_subset(queued, all);
    }
    lemma_len_subset(queued.insert(node), all);
}

impl<T> View for RoundRobinBus<T> {
    type V = BusView<T>;

    closed spec fn view(&self) -> BusView<T> {
        BusView {
            values: Seq::new(self.values@.len(), |i: int| self.values@[i]->Some_0),
            taken: self.taken@,
            queue: Seq::new(waiting(self.rx).len(), |i: int| waiting(self.rx)[i] as int),
        }
    }
}

impl Node {
    /// Which node this is.
    pub closed spec fn view(&self) -> int {
        self.idx as int
    }
}

impl DequeuedNode {
    /// Which node this is.
    pub closed spec fn view(&self) -> int {
        self.idx as int
    }
}

impl<T> RoundRobinBus<T> {
    /// Every node has a value, the queue is this bus's own, and it is in order.
    pub closed spec fn wf(&self) -> bool {
        &&& forall|i: int| 0 <= i < self.values@.len() ==> #[trigger] self.values@[i] is Some
        &&& sole_ends(self.tx, self.rx)
        &&& self.values@.len() <= isize::MAX
        &&& self@.valid()
    }

    /// A bus without nodes.
    pub fn new() -> (r: Self)
        ensures
            r.wf(),
            r@ == (BusView::<T> {
                values: Seq::empty(),
                taken: Seq::empty(),
                queue: Seq::empty(),
            }),
    {
        let (tx, rx) = channel();
        let r = RoundRobinBus { values: Vec::new(), taken: Vec::new(), tx, rx };
        assert(r@ =~= (BusView::<T> {
            values: Seq::empty(),
            taken: Seq::empty(),
            queue: Seq::empty(),
        }));
        r
    }

    /// Registers a new node.
    ///
    /// The returned node is not enqueued, even if it is ready.
    pub fn register_node(&mut self, value: T) -> (r: Node)
        requires
            old(self).wf(),
            old(self)@.values.len() < isize::MAX,
        ensures
            final(self).wf(),
            r@ == old(self)@.values.len(),
            final(self)@ == (BusView::<T> {
                values: old(self)@.values.push(value),
                taken: old(self)@.taken.push(false),
                ..old(self)@
            }),
    {
        let idx: usize = self.values.len();
        self.values.push(Some(value));
        self.taken.push(false);
        assert(self@ =~= (BusView::<T> {
            values: old(self)@.values.push(value),
            taken: old(self)@.taken.push(false),
            ..old(self)@
        }));
        Node { idx }
    }

    /// Returns the oldest enqueued node. Where there is none, whoever `waker`
    /// wakes is woken for the next.
    ///
    /// The runtime may have a task that has taken much in one go wait for its next
    /// turn, so the answer may be [`Poll::Pending`] though nodes are enqueued.
    pub fn poll_recv(&mut self, waker: &Waker) -> (r: Poll<DequeuedNode>)
        requires
            old(self).wf(),
        ensures
            final(self).wf(),
            match r {
                Poll::Ready(node) => {
                    &&& old(self)@.queue.len() > 0
                    &&& node@ == old(self)@.queue[0]
                    &&& final(self)@ == (BusView::<T> {
                        queue: old(self)@.queue.drop_first(),
                        ..old(self)@
                    })
                    // The node is out of the queue and cannot get back in but
                    // through `DequeuedNode::modify`.
                    &&& 0 <= node@ < final(self)@.values.len()
                    &&& !final(self)@.queue.contains(node@)
                    &&& final(self)@.taken[node@]
                },
                Poll::Pending => final(self)@ == old(self)@,
            },
    {
        let ghost before = self@.queue;
        match channel_poll_recv(&self.tx, &mut self.rx, waker) {
            Poll::Ready(Some(idx)) => {
                proof {
                    let after = BusView::<T> { queue: before.drop_first(), ..old(self)@ };
                    assert forall|i: int| 0 <= i < after.queue.len() implies after.queue[i]
                        == before[i + 1] by {}
                    assert(!after.queue.contains(before[0]));
                    assert(self@ =~= after);
                }
                Poll::Ready(DequeuedNode { idx })
            },
            _ => {
                assert(self@ =~= old(self)@);
                Poll::Pending
            },
        }
    }
}

impl<T> Default for RoundRobinBus<T> {
    fn default() -> (r: Self)
        ensures
            r.wf(),
            r@ == (BusView::<T> {
                values: Seq::empty(),
                taken: Seq::empty(),
                queue: Seq::empty(),
            }),
    {
        RoundRobinBus::new()
    }
}

impl Node {
    /// Allows for inspecting the value stored in the node.
    ///
    /// Does not ever enqueue the node.
    pub fn inspect<'a, T>(&self, bus: &'a RoundRobinBus<T>) -> (r: &'a T)
        requires
            bus.wf(),
            0 <= self@ < bus@.values.len(),
        ensures
            *r == bus@.values[self@],
    {
        match &bus.values[self.idx] {
            Some(value) => value,
            None => {
                assert(false);
                vstd::pervasive::unreached()
            },
        }
    }

    /// Allows for modifying the value stored in the node.
    ///
    /// If after modification the node is ready and not in the queue, it is
    /// enqueued.
    pub fn modify<T: MaybeReady, R, F: FnOnce(T) -> (T, R)>(
        &self,
        bus: &mut RoundRobinBus<T>,
        with: F,
    ) -> (r: R)
        requires
            old(bus).wf(),
            0 <= self@ < old(bus)@.values.len(),
            call_requires(with, (old(bus)@.values[self@],)),
        ensures
            final(bus).wf(),
            call_ensures(with, (old(bus)@.values[self@],), (final(bus)@.values[self@], r)),
            ({
                let value = final(bus)@.values[self@];
                let modified = old(bus)@.with_value(self@, value);
                final(bus)@ == if value.ready() && !old(bus)@.taken[self@] {
                    modified.enqueued(self@)
                } else {
                    modified
                }
            }),
    {
        let idx: usize = self.idx;
        let ghost before = bus@;
        let mut slot: Option<T> = None;
        std::mem::swap(&mut slot, &mut bus.values[idx]);
        let (value, result) = match slot {
            Some(value) => with(value),
            None => {
                assert(false);
                vstd::pervasive::unreached()
            },
        };
        let ready = value.is_ready();
        let ghost modified = before.with_value(idx as int, value);
        bus.values[idx] = Some(value);
        assert(bus@ =~= modified);
        if ready && !bus.taken[idx] {
            assert(!before.queue.contains(idx as int));
            proof {
                queue_is_shorter(modified, idx as int);
            }
            bus.taken[idx] = true;
            channel_send(&bus.tx, &mut bus.rx, idx);
            assert(bus@ =~= modified.enqueued(idx as int));
        }
        result
    }
}

impl DequeuedNode {
    /// Allows for modifying the value stored in the node.
    ///
    /// If after the modification the node is ready, it is enqueued.
    pub fn modify<T: MaybeReady, R, F: FnOnce(T) -> (T, R)>(
        self,
        bus: &mut RoundRobinBus<T>,
        with: F,
    ) -> (r: R)
        requires
            old(bus).wf(),
            0 <= self@ < old(bus)@.values.len(),
            old(bus)@.taken[self@],
            !old(bus)@.queue.contains(self@),
            call_requires(with, (old(bus)@.values[self@],)),
        ensures
            final(bus).wf(),
            call_ensures(with, (old(bus)@.values[self@],), (final(bus)@.values[self@], r)),
            ({
                let value = final(bus)@.values[self@];
                let modified = old(bus)@.with_value(self@, value);
                final(bus)@ == if value.ready() {
                    modified.enqueued(self@)
                } else {
                    modified.released(self@)
                }
            }),
    {
        let idx: usize = self.idx;
        let ghost before = bus@;
        let mut slot: Option<T> = None;
        std::mem::swap(&mut slot, &mut bus.values[idx]);
        let (value, result) = match slot {
            Some(value) => with(value),
            None => {
                assert(false);
                vstd::pervasive::unreached()
            },
        };
        let ready = value.is_ready();
        let ghost modified = before.with_value(idx as int, value);
        bus.values[idx] = Some(value);
        assert(bus@ =~= modified);
        if ready {
            proof {
                queue_is_shorter(modified, idx as int);
            }
            channel_send(&bus.tx, &mut bus.rx, idx);
            assert(bus@ =~= modified.enqueued(idx as int));
        } else {
            bus.taken[idx] = false;
            assert(bus@ =~= modified.released(idx as int));
            assert forall|i: int| 0 <= i < before.queue.len() implies before.queue[i]
                != idx as int by {
                if before.queue[i] == idx as int {
                    assert(before.queue.contains(idx as int));
                }
            }
        }
        result
    }
}

/// A ready node that is put back goes behind every node that was waiting, so
/// each of them gets its turn first.
pub proof fn waiting_nodes_go_first<T>(bus: BusView<T>, node: int, i: int)
    requires
        bus.valid(),
        0 <= i < bus.queue.len(),
    ensures
        bus.enqueued(node).queue[i] == bus.queue[i],
        bus.enqueued(node).queue[bus.queue.len() as int] == node,
{
}

/// A node is in the queue at most once.
pub proof fn nodes_are_queued_once<T>(bus: BusView<T>, i: int, j: int)
    requires
        bus.valid(),
        0 <= i < j < bus.queue.len(),
    ensures
        bus.queue[i] != bus.queue[j],
{
}

} // verus!
