//! Types for working with virtual streams.

pub mod direction_laws;
pub mod duplex;
pub mod end_laws;
pub mod fin;
pub mod handle;
pub mod inbound;
pub mod laws;
pub mod link;
pub mod outbound;
pub mod sizing_laws;
pub mod updates;
pub mod wake_laws;
pub mod waker;

use vstd::prelude::*;

use crate::config::RammuxConfig;
use crate::stream::duplex::{RammuxDuplex, RammuxSink, RammuxStream};
use crate::stream::inbound::{InboundTraffic, InboundView, RecvWindow};
use crate::stream::outbound::{OutboundTraffic, OutboundView};
use crate::stream::updates::StreamUpdates;
use crate::stream::waker::WakerSlot;
use crate::stream_id::StreamId;
use crate::time::Timestamp;

verus! {

/// State of a virtual stream, shared by everybody who works with the stream.
pub struct SharedStreamState {
    /// State of the inbound traffic direction.
    pub inbound: InboundTraffic,
    /// State of the outbound traffic direction.
    pub outbound: OutboundTraffic,
    /// Waker for the task that polls the stream's updates.
    pub updates_poller: WakerSlot,
}

impl SharedStreamState {
    /// Both directions are in order.
    pub open spec fn valid(&self) -> bool {
        self.inbound@.valid() && self.outbound@.valid()
    }

    /// A stream as it starts.
    pub open spec fn fresh(&self, config: RammuxConfig, now: Timestamp) -> bool {
        &&& self.inbound@ == InboundView::Open {
            ready: Seq::empty(),
            reader: None,
            window: RecvWindow {
                initial: config.local_recv_window,
                current: config.local_recv_window,
                consumed: 0,
                freed: 0,
                last_update: now,
            },
        }
        &&& self.outbound@ == OutboundView::Open {
            ready: Seq::empty(),
            frame_limit: config.frame_limit,
            recv_window: config.remote_recv_window,
            writer: None,
        }
        &&& self.updates_poller@ is None
    }
}

/// Starts a stream: its shared state, its entry among the streams that are
/// polled for updates, and the ends that the application works with.
pub fn new(id: StreamId, is_outbound: bool, config: &RammuxConfig, now: Timestamp) -> (r: (
    SharedStreamState,
    StreamUpdates,
    RammuxDuplex,
))
    requires
        config.valid(),
    ensures
        r.0.fresh(*config, now),
        r.0.valid(),
        r.0.inbound@.borrowed() == 0,
        r.1 == (StreamUpdates { id, syn: is_outbound }),
        r.2 == (RammuxDuplex {
            sink: (RammuxSink { id, open: true }),
            stream: (RammuxStream { id, open: true }),
        }),
{
    let state = SharedStreamState {
        inbound: InboundTraffic::new(config.local_recv_window, now),
        outbound: OutboundTraffic::new(config.frame_limit, config.remote_recv_window),
        updates_poller: WakerSlot::new(),
    };
    (
        state,
        StreamUpdates { id, syn: is_outbound },
        RammuxDuplex {
            sink: RammuxSink { id, open: true },
            stream: RammuxStream { id, open: true },
        },
    )
}

} // verus!
