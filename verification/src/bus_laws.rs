//! Nodes take turns.

use std::task::Waker;

use vstd::prelude::*;

use crate::flow_control::{FlowControl, FlowState};
use crate::poll::Poll;
use crate::rr_bus::{DequeuedNode, MaybeReady, Node, RoundRobinBus};

verus! {

/// A bus starts without nodes. A node that is registered is behind all others, has
/// the value that it was given, and is not queued.
pub proof fn nodes_are_registered_in_order<T>(
    fresh: RoundRobinBus<T>,
    bus: &mut RoundRobinBus<T>,
    value: T,
    node: Node,
)
    requires
        bus.wf(),
        bus@.valid(),
        bus@.values.len() < isize::MAX,
        call_ensures(RoundRobinBus::<T>::new, (), fresh),
        call_ensures(RoundRobinBus::<T>::register_node, (bus, value), node),
    ensures
        fresh@.values.len() == 0 && fresh@.queue.len() == 0,
        node@ == old(bus)@.values.len(),
        final(bus)@.values.len() == old(bus)@.values.len() + 1,
        final(bus)@.values[node@] == value,
        !final(bus)@.taken[node@],
        final(bus)@.queue == old(bus)@.queue,
        forall|i: int|
            0 <= i < old(bus)@.values.len() ==> #[trigger] final(bus)@.values[i]
                == old(bus)@.values[i] && final(bus)@.taken[i] == old(bus)@.taken[i],
{
}

/// Nodes are handed out one by one, the one that has waited longest first, and one
/// that is handed out is in the queue no more.
pub proof fn nodes_are_handed_out_in_order<T>(
    bus: &mut RoundRobinBus<T>,
    waker: &Waker,
    r: Poll<DequeuedNode>,
)
    requires
        bus.wf(),
        call_ensures(RoundRobinBus::<T>::poll_recv, (bus, waker), r),
    ensures
        final(bus)@.values == old(bus)@.values,
        final(bus)@.taken == old(bus)@.taken,
        r is Pending ==> final(bus)@.queue == old(bus)@.queue,
        r matches Poll::Ready(node) ==> {
            &&& seq![node@] + final(bus)@.queue == old(bus)@.queue
            &&& !final(bus)@.queue.contains(node@)
        },
{
    let queue = old(bus)@.queue;
    if queue.len() > 0 {
        assert(seq![queue[0]] + queue.drop_first() =~= queue);
    }
}

/// A node is looked at without being queued, and shows its own value.
pub proof fn nodes_show_their_value<T>(node: &Node, bus: &RoundRobinBus<T>, r: &T)
    requires
        bus.wf(),
        0 <= node@ < bus@.values.len(),
        call_ensures(Node::inspect::<T>, (node, bus), r),
    ensures
        *r == bus@.values[node@],
{
}

/// A node that is modified gets what the modification made of its value; the
/// others keep theirs. It goes to the back of the queue if it is ready, unless it
/// waits there already or is with whoever took it.
pub proof fn ready_nodes_are_queued<T: MaybeReady, R, F: FnOnce(T) -> (T, R)>(
    node: &Node,
    bus: &mut RoundRobinBus<T>,
    with: F,
    r: R,
)
    requires
        bus.wf(),
        bus@.valid(),
        0 <= node@ < bus@.values.len(),
        call_ensures(Node::modify::<T, R, F>, (node, bus, with), r),
    ensures
        ({
            let before = old(bus)@;
            let after = final(bus)@;
            let value = after.values[node@];
            &&& call_ensures(with, (before.values[node@],), (value, r))
            &&& after.values.len() == before.values.len()
            &&& forall|i: int|
                0 <= i < before.values.len() && i != node@ ==> #[trigger] after.values[i]
                    == before.values[i]
            &&& if value.ready() && !before.taken[node@] {
                after.queue == before.queue + seq![node@] && after.taken[node@]
            } else {
                after.queue == before.queue && after.taken == before.taken
            }
        }),
{
    let before = old(bus)@;
    assert(before.queue + seq![node@] =~= before.queue.push(node@));
}

/// A node that was taken goes to the back of the queue if it is ready once it is
/// modified, and is free to be queued again if it is not.
pub proof fn taken_nodes_are_put_back<T: MaybeReady, R, F: FnOnce(T) -> (T, R)>(
    node: DequeuedNode,
    bus: &mut RoundRobinBus<T>,
    with: F,
    r: R,
)
    requires
        bus.wf(),
        bus@.valid(),
        0 <= node@ < bus@.values.len(),
        bus@.taken[node@],
        !bus@.queue.contains(node@),
        call_ensures(DequeuedNode::modify::<T, R, F>, (node, bus, with), r),
    ensures
        ({
            let before = old(bus)@;
            let after = final(bus)@;
            let value = after.values[node@];
            &&& call_ensures(with, (before.values[node@],), (value, r))
            &&& after.values.len() == before.values.len()
            &&& forall|i: int|
                0 <= i < before.values.len() && i != node@ ==> #[trigger] after.values[i]
                    == before.values[i]
            &&& after.taken[node@] == value.ready()
            &&& if value.ready() {
                after.queue == before.queue + seq![node@]
            } else {
                after.queue == before.queue
            }
        }),
{
    let before = old(bus)@;
    assert(before.queue + seq![node@] =~= before.queue.push(node@));
}

/// A flow is ready once it has an update to send.
pub proof fn flows_are_ready_with_an_update(flow: &FlowControl, r: bool)
    requires
        call_ensures(<FlowControl as MaybeReady>::is_ready, (flow,), r),
    ensures
        r <==> (flow.0 matches FlowState::Open { current_window, consumed, .. } && consumed > 0
            && 2 * consumed + 1 >= current_window),
{
}

} // verus!
