//! How receive windows are sized, and what their updates give the peer.

use vstd::prelude::*;

use super::inbound::{growth_is_no_loss, RecvWindow, SizingInputs};
use crate::flow_control::{FlowControl, FlowState, GlobalWindow, GlobalWindowState};
use crate::global_pool::GlobalPool;
use crate::time::{TimeSpan, Timestamp};

verus! {

/// Whether a window of `current` bytes may become one of `size` bytes in one
/// update: no smaller than it started, no smaller than three quarters of what it
/// was, and no larger than `growth` times as large.
pub open spec fn within_one_resize(initial: int, current: int, growth: int, size: int) -> bool {
    &&& initial <= size <= u32::MAX
    &&& current - current / 4 <= size
    &&& size <= growth * current
}

/// Whether `next` is as close to `optimal` as one resize gets, with `available`
/// bytes to borrow: at the optimum if that is within the bounds, else at the bound
/// that it is beyond, and short of either only by what cannot be borrowed.
pub open spec fn as_close_as_possible(
    initial: int,
    current: int,
    growth: int,
    available: int,
    optimal: int,
    next: int,
) -> bool {
    &&& within_one_resize(initial, current, growth, next)
    &&& next - current <= available
    &&& next < optimal ==> !within_one_resize(initial, current, growth, next + 1) || next + 1
        - current > available
    &&& next > optimal ==> !within_one_resize(initial, current, growth, next - 1)
}

/// A window that is the optimum within one resize of its old size is taken there
/// by an update, if the pool holds the difference. In particular a window of the
/// optimal size stays as it is.
pub proof fn windows_settle_at_the_optimum(
    window: &mut RecvWindow,
    pool: &mut GlobalPool,
    optimal: u32,
    now: Timestamp,
    r: u32,
)
    requires
        window.valid(),
        pool.valid(),
        pool.available + (window.current - window.initial) <= usize::MAX,
        call_ensures(RecvWindow::try_update, (window, pool, optimal, now), r),
        window.freed >= window.current / 2,
        pool.dirty_rtt is Some,
        within_one_resize(
            window.initial as int,
            window.current as int,
            pool.growth as int,
            optimal as int,
        ),
        optimal - window.current <= pool.available,
    ensures
        final(window).current == optimal,
        r == old(window).freed + optimal - old(window).current,
        final(pool).available == old(pool).available + old(window).current - optimal,
        optimal == old(window).current ==> r == old(window).freed && *final(pool) == *old(pool),
{
}

/// Wherever the optimum is, an update where a round trip is known takes the window
/// as close to it as possible.
pub proof fn windows_come_as_close_as_possible(
    window: &mut RecvWindow,
    pool: &mut GlobalPool,
    optimal: u32,
    now: Timestamp,
    r: u32,
)
    requires
        window.valid(),
        pool.valid(),
        pool.available + (window.current - window.initial) <= usize::MAX,
        call_ensures(RecvWindow::try_update, (window, pool, optimal, now), r),
        window.freed >= window.current / 2,
        pool.dirty_rtt is Some,
    ensures
        as_close_as_possible(
            old(window).initial as int,
            old(window).current as int,
            old(pool).growth as int,
            old(pool).available as int,
            optimal as int,
            final(window).current as int,
        ),
        final(window).current > old(window).current ==> final(window).current <= optimal
            || final(window).current <= old(window).initial,
        final(window).current < old(window).current ==> optimal <= final(window).current,
{
    growth_is_no_loss(window.current, pool.growth);
}

/// An update comes once half of the window has been read, and not before. It gives
/// the peer what was read and what the window grew by, less what it shrank by; the
/// difference in size is the pool's. Reading starts to count anew.
pub proof fn updates_give_back_what_was_read(
    window: &mut RecvWindow,
    pool: &mut GlobalPool,
    optimal: u32,
    now: Timestamp,
    r: u32,
)
    requires
        window.valid(),
        pool.valid(),
        pool.available + (window.current - window.initial) <= usize::MAX,
        call_ensures(RecvWindow::try_update, (window, pool, optimal, now), r),
    ensures
        old(window).freed < old(window).current / 2 ==> r == 0 && *final(window) == *old(window)
            && *final(pool) == *old(pool),
        old(window).freed >= old(window).current / 2 ==> {
            &&& r == old(window).freed + final(window).current - old(window).current
            &&& final(window).freed == 0
            &&& final(window).consumed == old(window).consumed - old(window).freed
            &&& final(window).last_update == now
            &&& final(window).initial == old(window).initial
            &&& final(pool).available == old(pool).available + old(window).current - final(window).current
            &&& final(pool).growth == old(pool).growth
            &&& final(pool).dirty_rtt == old(pool).dirty_rtt
            &&& final(pool).send_budget == old(pool).send_budget
            &&& final(pool).transit_blocked == old(pool).transit_blocked
            &&& old(pool).dirty_rtt is None ==> final(window).current == old(window).current
        },
{
}

/// Whether an update is due can be asked, and so can what the peer may still send
/// and what the window has borrowed.
pub proof fn windows_tell_what_they_hold(
    window: &RecvWindow,
    due: bool,
    remaining: u32,
    borrowed: u32,
)
    requires
        window.valid(),
        call_ensures(RecvWindow::can_update, (window,), due),
        call_ensures(RecvWindow::remaining, (window,), remaining),
        call_ensures(RecvWindow::borrowed, (window,), borrowed),
    ensures
        due <==> 2 * window.freed + 1 >= window.current,
        remaining + window.consumed == window.current,
        borrowed + window.initial == window.current,
{
}

/// What a stream's flow control does with an update is the same, with a window that
/// at most doubles: a window that is the optimum within one resize becomes it.
pub proof fn flow_settles_at_the_optimum(
    flow: &mut FlowControl,
    global: &mut GlobalWindow,
    optimal: u32,
    now: Timestamp,
    r: u32,
    initial: u32,
    current: u32,
    consumed: u32,
    last_update: Timestamp,
)
    requires
        flow.valid(),
        global.0.available + flow.borrowed() <= usize::MAX,
        call_ensures(FlowControl::get_update, (flow, global, optimal, now), r),
        flow.0 == (FlowState::Open {
            initial_window: initial,
            current_window: current,
            consumed,
            last_update,
        }),
        consumed > 0,
        consumed >= current / 2,
        global.0.rtt is Some,
    ensures
        final(flow).0 matches FlowState::Open {
            initial_window,
            current_window: next,
            consumed: left,
            last_update: updated,
        } && {
            &&& initial_window == initial
            &&& left == 0
            &&& updated == now
            &&& as_close_as_possible(
                initial as int,
                current as int,
                2,
                old(global).0.available as int,
                optimal as int,
                next as int,
            )
            &&& within_one_resize(initial as int, current as int, 2, optimal as int) && optimal
                - current <= old(global).0.available ==> next == optimal
            &&& next > current ==> next <= optimal || next <= initial
            &&& next < current ==> optimal <= next
            &&& r == consumed + next - current
            &&& final(global).0.available == old(global).0.available + current - next
            &&& final(global).0.rtt == old(global).0.rtt
        },
{
}

/// Without a round trip a window keeps its size and gives back what was read;
/// below half of the window, or once the flow has ended, nothing is given back.
pub proof fn flow_without_a_round_trip_keeps_its_size(
    flow: &mut FlowControl,
    global: &mut GlobalWindow,
    optimal: u32,
    now: Timestamp,
    r: u32,
)
    requires
        flow.valid(),
        global.0.available + flow.borrowed() <= usize::MAX,
        call_ensures(FlowControl::get_update, (flow, global, optimal, now), r),
    ensures
        old(flow).0 matches FlowState::Open { current_window, consumed, .. } ==> {
            &&& consumed == 0 || consumed < current_window / 2 ==> r == 0 && *final(flow)
                == *old(flow) && final(global).0 == old(global).0
            &&& consumed > 0 && consumed >= current_window / 2 && old(global).0.rtt is None ==> {
                &&& r == consumed
                &&& final(global).0 == old(global).0
                &&& final(flow).0 matches FlowState::Open {
                    current_window: next,
                    consumed: left,
                    ..
                } && next == current_window && left == 0
            }
        },
        !(old(flow).0 is Open) ==> r == 0 && *final(flow) == *old(flow) && final(global).0 == old(global).0,
{
}

/// What is read of an open flow counts towards its next update. What is read after
/// the writer has ended gives back as much of the borrow, and all of it in the
/// end.
pub proof fn reading_gives_back_the_borrow(
    flow: &mut FlowControl,
    global: &mut GlobalWindow,
    amt: u32,
)
    requires
        flow.valid(),
        flow.0 matches FlowState::Open { current_window, consumed, .. } ==> amt <= current_window
            - consumed,
        global.0.available + flow.borrowed() <= usize::MAX,
        call_ensures(FlowControl::consumed_bytes, (flow, amt, global), ()),
    ensures
        match old(flow).0 {
            FlowState::Open { initial_window, current_window, consumed, last_update } => {
                &&& final(flow).0 == (FlowState::Open {
                    initial_window,
                    current_window,
                    consumed: (consumed + amt) as u32,
                    last_update,
                })
                &&& final(global).0 == old(global).0
            },
            FlowState::HalfOpen { borrowed } => {
                &&& final(flow).0 matches FlowState::HalfOpen { borrowed: left } && if amt
                    <= borrowed {
                    left == borrowed - amt && final(global).0.available == old(global).0.available
                        + amt
                } else {
                    left == 0 && final(global).0.available == old(global).0.available + borrowed
                }
                &&& final(global).0.rtt == old(global).0.rtt
            },
            FlowState::Closed => final(flow).0 is Closed && final(global).0 == old(global).0,
        },
{
}

/// A writer that ends returns the borrow as far as it has been read; a reader that
/// ends returns all of it.
pub proof fn ends_give_back_the_borrow(
    flow: &mut FlowControl,
    global: &mut GlobalWindow,
    other: &mut FlowControl,
    pool: &mut GlobalWindow,
)
    requires
        flow.valid(),
        global.0.available + flow.borrowed() <= usize::MAX,
        *other == *flow,
        *pool == *global,
        call_ensures(FlowControl::writing_closed, (flow, global), ()),
        call_ensures(FlowControl::reading_closed, (other, pool), ()),
    ensures
        final(global).0.rtt == old(global).0.rtt,
        final(pool).0.rtt == old(pool).0.rtt,
        final(other).0 is Closed,
        match old(flow).0 {
            FlowState::Open { initial_window, current_window, consumed, .. } => {
                let borrowed = current_window - initial_window;
                &&& final(pool).0.available == old(pool).0.available + borrowed
                &&& final(flow).0 matches FlowState::HalfOpen { borrowed: left } && if consumed
                    <= borrowed {
                    left == borrowed - consumed && final(global).0.available == old(global).0.available + consumed
                } else {
                    left == 0 && final(global).0.available == old(global).0.available + borrowed
                }
            },
            FlowState::HalfOpen { borrowed } => {
                &&& final(pool).0.available == old(pool).0.available + borrowed
                &&& *final(flow) == *old(flow) && final(global).0 == old(global).0
            },
            FlowState::Closed => {
                &&& final(pool).0 == old(pool).0
                &&& *final(flow) == *old(flow) && final(global).0 == old(global).0
            },
        },
{
}

/// An update is announced exactly where asking for it gives one.
pub proof fn announced_updates_are_given(
    flow: &FlowControl,
    announced: bool,
    asked: &mut FlowControl,
    global: &mut GlobalWindow,
    optimal: u32,
    now: Timestamp,
    r: u32,
)
    requires
        flow.valid(),
        *asked == *flow,
        global.0.available + flow.borrowed() <= usize::MAX,
        call_ensures(FlowControl::has_update, (flow,), announced),
        call_ensures(FlowControl::get_update, (asked, global, optimal, now), r),
    ensures
        announced <==> r > 0,
        announced <==> (flow.0 matches FlowState::Open { current_window, consumed, .. } && consumed
            > 0 && 2 * consumed + 1 >= current_window),
{
    assert(announced == (flow.update_value(old(global).0, optimal) != 0));
}

/// The optimum is calculated from what was read since the last update, the time
/// since then, and the round trip, wherever there are all three.
pub proof fn flow_is_sized_by_what_was_read(
    flow: &FlowControl,
    global: &GlobalWindow,
    now: Timestamp,
    r: Option<SizingInputs>,
)
    requires
        call_ensures(FlowControl::sizing_inputs, (flow, global, now), r),
    ensures
        r is Some <==> flow.update_due() && global.0.rtt is Some,
        r matches Some(inputs) ==> (flow.0 matches FlowState::Open { consumed, last_update, .. } && {
            &&& inputs.freed == consumed
            &&& global.0.rtt == Some(inputs.rtt)
            &&& last_update.nanos <= now.nanos ==> inputs.elapsed.nanos == now.nanos
                - last_update.nanos
            &&& now.nanos < last_update.nanos ==> inputs.elapsed.nanos == 0
        }),
{
}

/// A pool starts with all that it was given and no round trip, takes the round
/// trips that it is told, and hands out windows that have borrowed nothing.
pub proof fn pools_start_full(
    size: usize,
    made: GlobalWindow,
    pool: &mut GlobalWindow,
    rtt: TimeSpan,
    state: GlobalWindowState,
    initial: u32,
    now: Timestamp,
    flow: FlowControl,
)
    requires
        initial > 0,
        call_ensures(GlobalWindow::new, (size,), made),
        call_ensures(GlobalWindow::update_rtt, (pool, rtt), ()),
        call_ensures(GlobalWindow::state, (&made,), state),
        call_ensures(GlobalWindow::flow_control, (&made, initial, now), flow),
    ensures
        made.0.available == size,
        made.0.rtt is None,
        final(pool).0.rtt == Some(rtt),
        final(pool).0.available == old(pool).0.available,
        state == made.0,
        flow.0 == (FlowState::Open {
            initial_window: initial,
            current_window: initial,
            consumed: 0,
            last_update: now,
        }),
{
}

} // verus!
