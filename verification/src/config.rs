//! Connection configuration.

use vstd::prelude::*;

use crate::time::TimeSpan;

verus! {

/// Which round trip yardstick sizes the credit reserve that decides when a
/// `SESSION_WINDOW_UPDATE` is sent.
///
/// The transit window bounds in-flight bytes, but a grant is only useful if it
/// reaches the peer *before* the peer's credit runs out. Waiting until half the
/// window is consumed costs a full bandwidth-delay product of window: with a
/// trigger at fraction `f` of the window, the credit loop is
/// `RTT + f x W / rate`, so line rate needs `W = BDP / (1 - f)`. Reserving
/// credit instead of counting halves removes that penalty.
#[derive(Debug, Clone, Copy, PartialEq, Eq, Structural)]
pub enum TransitReserve {
    /// Send the grant once half the window has been consumed.
    HalfWindow,
    /// Reserve `rate x clean RTT` of the peer's credit.
    CleanRtt,
    /// Reserve `rate x loaded RTT` of the peer's credit.
    DirtyRtt,
}

/// Role in a connection.
///
/// The only difference between the roles is the pool of
/// [`StreamId`](crate::stream_id::StreamId)s that can be used when starting a
/// new stream.
#[derive(Debug, Clone, Copy, PartialEq, Eq, Structural, PartialOrd, Ord, Hash)]
pub enum RammuxRole {
    /// Can initiate streams with even IDs.
    Client,
    /// Can initiate streams with odd IDs.
    Server,
}

/// Configuration of a connection.
///
/// There is no in-band handshake for these parameters: before running a
/// connection, the application must ensure that both sides use a compatible
/// config. Settings that have to be negotiated beforehand:
/// - [`RammuxConfig::frame_limit`]
/// - [`RammuxConfig::max_outbound_streams`]
/// - [`RammuxConfig::max_inbound_streams`]
/// - [`RammuxConfig::remote_recv_window`]
/// - [`RammuxConfig::local_recv_window`]
#[derive(Debug, Clone, Copy)]
pub struct RammuxConfig {
    /// Limit for the length of data that can be sent in a single `DATA` frame,
    /// not zero.
    ///
    /// Applies to both sides of the connection and must match on both sides.
    pub frame_limit: u32,
    /// How many concurrent inbound (initiated by the remote side) streams we
    /// allow. Must not be smaller than the peer's
    /// [`RammuxConfig::max_outbound_streams`].
    pub max_inbound_streams: u32,
    /// How many concurrent outbound (initiated by the local side) streams we
    /// allow. Must not exceed the peer's
    /// [`RammuxConfig::max_inbound_streams`].
    pub max_outbound_streams: u32,
    /// Initial size of the local receive window for every stream, not zero.
    /// Must match the peer's [`RammuxConfig::remote_recv_window`].
    pub local_recv_window: u32,
    /// Initial size of the remote receive window for every stream. Must match
    /// the peer's [`RammuxConfig::local_recv_window`].
    pub remote_recv_window: u32,
    /// Interval on which the link-clearing probe is meant to run, a local knob.
    /// The connection itself sets no timers: whoever drives it starts the probes.
    pub ping_interval: TimeSpan,
    /// Size of the local receive window pool shared between all streams, a
    /// local knob.
    ///
    /// Streams that are limited by flow control "borrow" window size from the
    /// pool, allowing the remote peer to spend less time waiting on window
    /// updates.
    pub global_recv_window: usize,
    /// Initial size of the session-level transit window we grant to the peer.
    /// `0` disables the transit window in this direction. Must match the peer's
    /// [`RammuxConfig::remote_transit_window`].
    pub local_transit_window: u32,
    /// Initial size of the transit window granted to us by the peer. `0` means
    /// the peer does not limit our in-flight data. Must match the peer's
    /// [`RammuxConfig::local_transit_window`].
    pub remote_transit_window: u32,
    /// Autotune limit for the local transit window, a local knob.
    pub transit_window_max: u32,
    /// Has no effect: stream receive windows are always sized from the loaded
    /// round trip, because a stream's credit loop runs through the queues that the
    /// loaded sample includes.
    pub stream_window_dirty_rtt: bool,
    /// A stream's receive window can at most multiply by this factor in a
    /// single update round, a local knob. Must be >= 1.
    pub stream_window_growth: u32,
    /// When a `SESSION_WINDOW_UPDATE` is sent, a local knob.
    pub transit_update_reserve: TransitReserve,
}

impl RammuxConfig {
    /// Frames can carry data, data can be received, a frame's data can be held in
    /// memory, and receive windows can at least keep their size.
    pub open spec fn valid(self) -> bool {
        &&& 0 < self.frame_limit <= isize::MAX
        &&& 0 < self.local_recv_window
        &&& 0 < self.stream_window_growth
    }

    /// The default values of all settings.
    pub open spec fn defaults() -> Self {
        RammuxConfig {
            frame_limit: 16_384,
            max_inbound_streams: 128,
            max_outbound_streams: 128,
            local_recv_window: 65_536,
            remote_recv_window: 65_536,
            ping_interval: TimeSpan { nanos: 5_000_000_000 },
            global_recv_window: 4_194_304,
            local_transit_window: 0,
            remote_transit_window: 0,
            transit_window_max: 4_194_304,
            stream_window_dirty_rtt: false,
            stream_window_growth: 2,
            transit_update_reserve: TransitReserve::HalfWindow,
        }
    }

    /// Creates a new config.
    ///
    /// The obtained config uses default values for all settings; those that
    /// have to be negotiated with the peer need to be adjusted.
    ///
    /// Default values:
    /// 1. [`Self::frame_limit`] - 16kb
    /// 2. [`Self::max_inbound_streams`] and [`Self::max_outbound_streams`] - 128
    /// 3. [`Self::local_recv_window`] and [`Self::remote_recv_window`] - 64kb
    /// 4. [`Self::ping_interval`] - 5s
    /// 5. [`Self::global_recv_window`] - 4mb
    /// 6. [`Self::local_transit_window`] and [`Self::remote_transit_window`] -
    ///    0 (disabled)
    /// 7. [`Self::transit_window_max`] - 4mb
    pub fn new() -> (r: Self)
        ensures
            r == RammuxConfig::defaults(),
            r.valid(),
    {
        RammuxConfig {
            frame_limit: 16 * 1024,
            max_inbound_streams: 128,
            max_outbound_streams: 128,
            local_recv_window: 64 * 1024,
            remote_recv_window: 64 * 1024,
            ping_interval: TimeSpan { nanos: 5_000_000_000 },
            global_recv_window: 4 * 1024 * 1024,
            local_transit_window: 0,
            remote_transit_window: 0,
            transit_window_max: 4 * 1024 * 1024,
            stream_window_dirty_rtt: false,
            stream_window_growth: 2,
            transit_update_reserve: TransitReserve::HalfWindow,
        }
    }
}

impl Default for RammuxConfig {
    fn default() -> (r: Self)
        ensures
            r == RammuxConfig::defaults(),
            r.valid(),
    {
        RammuxConfig::new()
    }
}

/// What a config holds before anything is set.
pub proof fn configs_start_with_the_defaults(r: RammuxConfig)
    requires
        call_ensures(RammuxConfig::new, (), r),
    ensures
        r.frame_limit == 16 * 1024,
        r.max_inbound_streams == 128,
        r.max_outbound_streams == 128,
        r.local_recv_window == 64 * 1024,
        r.remote_recv_window == 64 * 1024,
        r.ping_interval.nanos == 5_000_000_000,
        r.global_recv_window == 4 * 1024 * 1024,
        r.local_transit_window == 0,
        r.remote_transit_window == 0,
        r.transit_window_max == 4 * 1024 * 1024,
        !r.stream_window_dirty_rtt,
        r.stream_window_growth == 2,
        r.transit_update_reserve is HalfWindow,
{
}

} // verus!
