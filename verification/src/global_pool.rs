//! State shared by all streams of a single connection.

use vstd::prelude::*;

use crate::time::TimeSpan;

verus! {

/// What every stream of a connection needs to see, and no more.
///
/// It is borrowed mutably while each stream decides what to put on the wire.
/// Everything session-level lives in the
/// [`Transport`](crate::transport::Transport) instead; the two fields the
/// streams need from it are mirrored here once per pass.
#[derive(Clone, Copy, Debug, PartialEq, Eq, Structural)]
pub struct GlobalPool {
    /// Bytes still available in the shared receive window pool.
    ///
    /// Streams that sustain throughput borrow from it to size their own receive
    /// windows, and return what they borrowed when they close.
    pub available: usize,
    /// Latest loaded round trip, mirrored from the transport.
    pub dirty_rtt: Option<TimeSpan>,
    /// The factor by which a stream's receive window can multiply in a single
    /// update round, not zero.
    pub growth: u32,
    /// Most `DATA` payload the transport will accept right now. [`None`] means
    /// the transit window is disabled and payload is capped only by the
    /// stream's own window and the frame limit.
    pub send_budget: Option<u32>,
    /// Set by a stream whose outbound poll was held back solely by an exhausted
    /// transit window.
    ///
    /// Sticky: streams that returned pending on transit credit are not polled
    /// again until a grant wakes them. The connection clears it when credit
    /// arrives and when payload is actually emitted.
    pub transit_blocked: bool,
}

impl GlobalPool {
    /// Windows can at least keep their size.
    pub open spec fn valid(self) -> bool {
        self.growth > 0
    }
}

impl Default for GlobalPool {
    fn default() -> (r: Self)
        ensures
            r == (GlobalPool {
                available: 0,
                dirty_rtt: None,
                growth: 2,
                send_budget: None,
                transit_blocked: false,
            }),
    {
        GlobalPool {
            available: 0,
            dirty_rtt: None,
            growth: 2,
            send_budget: None,
            transit_blocked: false,
        }
    }
}

} // verus!
