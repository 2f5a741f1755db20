//! Asynchronous stream multiplexing over a single byte transport.
//!
//! Two peers open many independent virtual byte streams inside one reliable
//! byte stream. This crate holds the protocol itself: framing, per-stream flow
//! control, the session-level transit window, round trip measurement, and the
//! downgrade handshake that gives the transport back. It performs no I/O; a
//! driver feeds it bytes and clock readings and carries its output away.
//!
//! [`transit`] is a protocol of its own: a window over a single byte stream,
//! with no logical streams, that bounds how much is handed to the network at
//! once. [`bench`], [`echo`] and [`harness`] are what it is measured with.

pub mod args;
pub mod bench;
pub mod bench_laws;
pub mod buffer;
pub mod bus_laws;
pub mod bytes_ext;
pub mod codec;
pub mod config;
pub mod connection;
pub mod echo;
pub mod error;
pub mod exchange_laws;
pub mod flow_control;
pub mod global_pool;
pub mod harness;
pub mod header;
pub mod poll;
pub mod privileges;
pub mod probe;
pub mod probe_laws;
pub mod rr_bus;
pub mod socket;
pub mod stream;
pub mod stream_id;
pub mod text;
pub mod text_laws;
pub mod time;
pub mod time_laws;
pub mod transit;
pub mod transport;
pub mod wire_laws;

use vstd::prelude::*;

verus! {

/// Convenience function for casting `u32` to `usize`.
pub fn safe_cast_usize(value: u32) -> (r: usize)
    ensures
        r == value,
{
    value as usize
}

} // verus!
