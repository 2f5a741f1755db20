//! Flow control for inbound traffic against a shared receive window pool.

use vstd::prelude::*;

use crate::stream::inbound::{bounded_size, resized, smaller, SizingInputs};
use crate::time::{span, TimeSpan, Timestamp};

verus! {

/// What all streams of a connection share.
#[derive(Clone, Copy, Debug, PartialEq, Eq, Structural)]
pub struct GlobalWindowState {
    /// Latest round trip time injected with [`GlobalWindow::update_rtt`].
    pub rtt: Option<TimeSpan>,
    /// Bytes available in the global recv window.
    pub available: usize,
}

/// The receive window pool shared by all streams.
pub struct GlobalWindow(pub GlobalWindowState);

impl GlobalWindow {
    /// Creates a new global window of the given size.
    pub fn new(size: usize) -> (r: Self)
        ensures
            r.0 == (GlobalWindowState { rtt: None, available: size }),
    {
        GlobalWindow(GlobalWindowState { rtt: None, available: size })
    }

    /// Updates the round trip time of the connection.
    pub fn update_rtt(&mut self, rtt: TimeSpan)
        ensures
            final(self).0 == (GlobalWindowState { rtt: Some(rtt), ..old(self).0 }),
    {
        self.0.rtt = Some(rtt);
    }

    /// Returns the current state of the global window.
    pub fn state(&self) -> (r: GlobalWindowState)
        ensures
            r == self.0,
    {
        self.0
    }

    /// Obtains a [`FlowControl`] instance with the initial receive window size.
    ///
    /// The returned instance uses this global pool when resizing the window.
    pub fn flow_control(&self, initial_window: u32, now: Timestamp) -> (r: FlowControl)
        requires
            initial_window > 0,
        ensures
            r.0 == (FlowState::Open {
                initial_window,
                current_window: initial_window,
                consumed: 0,
                last_update: now,
            }),
            r.valid(),
            r.borrowed() == 0,
    {
        FlowControl(
            FlowState::Open {
                initial_window,
                current_window: initial_window,
                consumed: 0,
                last_update: now,
            },
        )
    }
}

/// Where the data flow of a stream stands.
#[derive(Clone, Copy, Debug, PartialEq, Eq, Structural)]
pub enum FlowState {
    /// Data flow is open on both sides.
    ///
    /// As the data is read, we need to keep restoring the window in order to
    /// unblock the writer.
    Open {
        /// Initial receive window, guaranteed by the connection config.
        initial_window: u32,
        /// Current receive window (including the already used part).
        ///
        /// This value never drops below `initial_window`.
        current_window: u32,
        /// Bytes of `current_window` consumed by the local reader.
        consumed: u32,
        /// Time of the last window update.
        ///
        /// Start of the stream is treated as the first (implicit) update.
        last_update: Timestamp,
    },
    /// Data flow was closed from the writer side.
    ///
    /// As the data is read, we need to return the borrow to the global pool.
    HalfOpen {
        /// Bytes that we have borrowed from the global window.
        borrowed: u32,
    },
    /// Data flow was closed from the reader side.
    ///
    /// Nothing to do.
    Closed,
}

/// An update is due exactly where an immediate [`FlowControl::get_update`] returns
/// one that is not zero, whatever the pool holds and the optimal size is.
pub proof fn due_updates_are_not_empty(fc: FlowControl, global: GlobalWindowState, optimal: u32)
    requires
        fc.valid(),
    ensures
        fc.update_due() <==> fc.update_value(global, optimal) != 0,
        !(fc.0 is Open) ==> !fc.update_due(),
{
}

/// Manages flow control for inbound traffic within a single stream.
///
/// Thanks to the global receive window pool, this struct can resize the receive
/// window above the initial value (minimum guaranteed for each stream). Such
/// resize happens when the stream experiences a high throughput, and requires a
/// borrow from the global pool. The borrow is returned when the throughput
/// decreases or the reader is gone.
///
/// A borrow is not returned by dropping this struct: whoever lets go of it calls
/// [`FlowControl::reading_closed`] first.
pub struct FlowControl(pub FlowState);

impl FlowControl {
    /// The documented bounds between the fields.
    pub open spec fn valid(&self) -> bool {
        self.0 matches FlowState::Open { initial_window, current_window, consumed, .. } ==> 0
            < initial_window <= current_window && consumed <= current_window
    }

    /// What is borrowed from the pool.
    pub open spec fn borrowed(&self) -> int {
        match self.0 {
            FlowState::Open { initial_window, current_window, .. } => current_window
                - initial_window,
            FlowState::HalfOpen { borrowed } => borrowed as int,
            FlowState::Closed => 0,
        }
    }

    /// Whether an update is due: data was consumed, and at least half of the
    /// current window has been depleted.
    pub open spec fn update_due(&self) -> bool {
        self.0 matches FlowState::Open { current_window, consumed, .. } && consumed > 0 && consumed
            >= current_window / 2
    }

    /// The update that is to be sent to the peer, zero where none is due.
    pub open spec fn update_value(&self, global: GlobalWindowState, optimal: u32) -> int {
        match self.0 {
            FlowState::Open { current_window, consumed, .. } => if self.update_due() {
                consumed + self.next_size(global, optimal) - current_window
            } else {
                0
            },
            _ => 0,
        }
    }

    /// The size of an open window after an update.
    pub open spec fn next_size(&self, global: GlobalWindowState, optimal: u32) -> int {
        match self.0 {
            FlowState::Open { initial_window, current_window, .. } => {
                let wanted = if global.rtt is Some {
                    bounded_size(initial_window, current_window, optimal, 2)
                } else {
                    current_window as int
                };
                resized(current_window, wanted, global.available)
            },
            _ => 0,
        }
    }

    /// Notifies this struct that `amt` bytes were consumed by the local reader,
    /// no more than the window has left.
    pub fn consumed_bytes(&mut self, amt: u32, global: &mut GlobalWindow)
        requires
            old(self).valid(),
            old(self).0 matches FlowState::Open { current_window, consumed, .. } ==> amt
                <= current_window - consumed,
            old(global).0.available + old(self).borrowed() <= usize::MAX,
        ensures
            final(self).valid(),
            final(self).0 == match old(self).0 {
                FlowState::Open { initial_window, current_window, consumed, last_update } => {
                    FlowState::Open {
                        initial_window,
                        current_window,
                        consumed: (consumed + amt) as u32,
                        last_update,
                    }
                },
                FlowState::HalfOpen { borrowed } => FlowState::HalfOpen {
                    borrowed: (borrowed - smaller(amt as int, borrowed as int)) as u32,
                },
                FlowState::Closed => FlowState::Closed,
            },
            final(global).0.rtt == old(global).0.rtt,
            final(global).0.available + final(self).borrowed() == old(global).0.available + old(self).borrowed(),
    {
        match &mut self.0 {
            FlowState::Open { consumed, .. } => {
                *consumed = *consumed + amt;
            },
            FlowState::HalfOpen { borrowed } => {
                let to_return: u32 = if amt < *borrowed {
                    amt
                } else {
                    *borrowed
                };
                global.0.available = global.0.available + crate::safe_cast_usize(to_return);
                *borrowed = *borrowed - to_return;
            },
            FlowState::Closed => {},
        }
    }

    /// Returns whether this struct is ready to return a non-zero window update
    /// from [`FlowControl::get_update`].
    pub fn has_update(&self) -> (r: bool)
        ensures
            r == self.update_due(),
            self.valid() ==> forall|global: GlobalWindowState, optimal: u32|
                r == (#[trigger] self.update_value(global, optimal) != 0),
    {
        proof {
            if self.valid() {
                assert forall|global: GlobalWindowState, optimal: u32|
                    self.update_due() == (#[trigger] self.update_value(global, optimal) != 0) by {
                    due_updates_are_not_empty(*self, global, optimal);
                }
            }
        }
        match self.0 {
            FlowState::Open { current_window, consumed, .. } => consumed > 0 && consumed
                >= current_window / 2,
            _ => false,
        }
    }

    /// What an optimal window size has to be calculated from, if an update is
    /// due and a round trip is known.
    pub fn sizing_inputs(&self, global: &GlobalWindow, now: Timestamp) -> (r: Option<SizingInputs>)
        ensures
            match (self.0, global.0.rtt) {
                (FlowState::Open { consumed, last_update, .. }, Some(rtt)) if self.update_due() => {
                    r == Some(
                        SizingInputs { freed: consumed, elapsed: span(last_update, now), rtt },
                    )
                },
                _ => r is None,
            },
    {
        match (self.0, global.0.rtt) {
            (FlowState::Open { consumed, last_update, .. }, Some(rtt)) => if self.has_update() {
                Some(SizingInputs { freed: consumed, elapsed: now.since(last_update), rtt })
            } else {
                None
            },
            _ => None,
        }
    }

    /// Returns a window update to be sent to the peer.
    ///
    /// # Autotuning
    ///
    /// Where a round trip is known, the size of the receive window is tuned
    /// towards `optimal`, which is to be `1.5` times the bandwidth-delay
    /// product. This includes borrowing from the global pool and returning the
    /// borrow if needed.
    ///
    /// Since the initial window size is a guaranteed minimum available to each
    /// stream, the window is never shrunk below that size.
    ///
    /// Also, to mitigate the impact of sudden throughput spikes, the window is
    /// never:
    /// 1. Shrunk by more than 25%; OR
    /// 2. Extended by more than 100%.
    ///
    /// # Returns
    ///
    /// Value `0` means no update.
    ///
    /// Window updates are suspended until at least half of the current window
    /// has been depleted, and data was consumed at all. This prevents frames with
    /// insignificant window updates.
    pub fn get_update(&mut self, global: &mut GlobalWindow, optimal: u32, now: Timestamp) -> (r: u32)
        requires
            old(self).valid(),
            old(global).0.available + old(self).borrowed() <= usize::MAX,
        ensures
            final(self).valid(),
            final(global).0.rtt == old(global).0.rtt,
            final(global).0.available + final(self).borrowed() == old(global).0.available + old(self).borrowed(),
            r == old(self).update_value(old(global).0, optimal),
            !old(self).update_due() ==> final(self).0 == old(self).0,
            old(self).update_due() ==> {
                let next = old(self).next_size(old(global).0, optimal);
                &&& old(self).0 matches FlowState::Open { initial_window, .. }
                &&& final(self).0 == (FlowState::Open {
                    initial_window,
                    current_window: next as u32,
                    consumed: 0,
                    last_update: now,
                })
            },
    {
        if !self.has_update() {
            return 0;
        }
        match &mut self.0 {
            FlowState::Open { initial_window, current_window, consumed, last_update } => {
                let next: u32 = match global.0.rtt {
                    Some(_) => optimal,
                    None => *current_window,
                };
                let floor: u32 = *current_window - *current_window / 4;
                let next: u32 = if next < *initial_window {
                    *initial_window
                } else {
                    next
                };
                let next: u32 = if next < floor {
                    floor
                } else {
                    next
                };
                let ceiling: u32 = if *current_window > u32::MAX / 2 {
                    u32::MAX
                } else {
                    *current_window * 2
                };
                let next: u32 = if next > ceiling {
                    ceiling
                } else {
                    next
                };
                let update: u32 = if next > *current_window {
                    let wanted: u32 = next - *current_window;
                    let borrow: u32 = if global.0.available < crate::safe_cast_usize(wanted) {
                        global.0.available as u32
                    } else {
                        wanted
                    };
                    global.0.available = global.0.available - crate::safe_cast_usize(borrow);
                    *current_window = *current_window + borrow;
                    *consumed + borrow
                } else {
                    let excess: u32 = *current_window - next;
                    global.0.available = global.0.available + crate::safe_cast_usize(excess);
                    *current_window = next;
                    *consumed - excess
                };
                *last_update = now;
                *consumed = 0;
                update
            },
            _ => 0,
        }
    }

    /// Notifies this struct that the remote writer stopped writing data. What
    /// was already read is returned to the pool.
    pub fn writing_closed(&mut self, global: &mut GlobalWindow)
        requires
            old(self).valid(),
            old(global).0.available + old(self).borrowed() <= usize::MAX,
        ensures
            final(self).valid(),
            final(self).0 == match old(self).0 {
                FlowState::Open { consumed, .. } => FlowState::HalfOpen {
                    borrowed: (old(self).borrowed() - smaller(
                        old(self).borrowed(),
                        consumed as int,
                    )) as u32,
                },
                other => other,
            },
            final(global).0.rtt == old(global).0.rtt,
            final(global).0.available + final(self).borrowed() == old(global).0.available + old(self).borrowed(),
    {
        match self.0 {
            FlowState::Open { initial_window, current_window, consumed, .. } => {
                let borrowed: u32 = current_window - initial_window;
                let to_return: u32 = if consumed < borrowed {
                    consumed
                } else {
                    borrowed
                };
                global.0.available = global.0.available + crate::safe_cast_usize(to_return);
                self.0 = FlowState::HalfOpen { borrowed: borrowed - to_return };
            },
            _ => {},
        }
    }

    /// Notifies this struct that the local reader stopped reading data, or is
    /// gone. The whole borrow is returned to the pool.
    pub fn reading_closed(&mut self, global: &mut GlobalWindow)
        requires
            old(self).valid(),
            old(global).0.available + old(self).borrowed() <= usize::MAX,
        ensures
            final(self).valid(),
            final(self).0 is Closed,
            final(global).0 == (GlobalWindowState {
                available: (old(global).0.available + old(self).borrowed()) as usize,
                ..old(global).0
            }),
    {
        let borrowed: u32 = match self.0 {
            FlowState::Open { initial_window, current_window, .. } => current_window
                - initial_window,
            FlowState::HalfOpen { borrowed } => borrowed,
            FlowState::Closed => 0,
        };
        global.0.available = global.0.available + crate::safe_cast_usize(borrowed);
        self.0 = FlowState::Closed;
    }
}

} // verus!
