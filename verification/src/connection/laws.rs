//! What holds of a connection across calls.

use vstd::prelude::*;

use crate::codec::decoder::FrameView;
use crate::config::RammuxRole;
use crate::connection::route_fault;
use crate::connection::streams::StreamsView;
use crate::header::ControlFlags;
use crate::stream::outbound::OutboundView;
use crate::stream_id::{initiator_of, slot_value, StreamId};
use crate::transport::TransportView;

verus! {

/// No two active streams share an ID: outbound streams are told apart by their
/// slots, and an outbound ID is never an inbound one.
pub proof fn active_ids_are_unique(
    streams: StreamsView,
    role: RammuxRole,
    max_outbound: u32,
    max_inbound: u32,
    a: usize,
    b: usize,
)
    requires
        streams.valid(role, max_outbound, max_inbound),
        streams.outbound.contains_key(a),
    ensures
        streams.outbound.contains_key(b) && a != b ==> streams.outbound[a] != streams.outbound[b],
        !streams.inbound.contains(streams.outbound[a]),
{
    assert(initiator_of(streams.outbound[a]) == role);
}

/// The ID of an outbound stream that ended is the next one to be used.
pub proof fn freed_ids_are_reused(streams: StreamsView, role: RammuxRole, id: StreamId)
    requires
        initiator_of(id@) == role,
        streams.contains(id, role),
    ensures
        ({
            let after = streams.without(id, role);
            &&& !after.contains(id, role)
            &&& slot_value(after.next(), role) == id@
        }),
{
}

/// A stream that ended is unknown from there on, and its ID can be used anew:
/// by us where it is ours, and by the peer where it is the peer's.
pub proof fn ended_streams_are_unknown(
    streams: StreamsView,
    role: RammuxRole,
    max_inbound: u32,
    id: StreamId,
)
    requires
        streams.inbound.finite(),
        streams.inbound.len() <= max_inbound,
        streams.contains(id, role),
    ensures
        ({
            let after = streams.without(id, role);
            &&& route_fault(after, role, max_inbound, id, false) == Some(
                "sent a frame for an unknown stream"@,
            )
            &&& initiator_of(id@) != role ==> route_fault(after, role, max_inbound, id, true)
                is None
        }),
{
}

/// What a stream frames under the mirrored budget the session can pay for.
pub proof fn framed_data_is_affordable(
    sender: OutboundView,
    v: TransportView,
    id: StreamId,
    flags: ControlFlags,
)
    requires
        sender.valid(),
    ensures
        sender.update(v.transit_send) matches Some((data, _)) ==> v.affords(
            FrameView::Data { stream_id: id, flags, data },
        ),
{
}

} // verus!
