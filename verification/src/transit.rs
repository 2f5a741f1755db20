//! A transit window over one byte transport: a limit on how much data is in
//! flight, for minimum latency at maximum bandwidth.
//!
//! There are no logical streams here. The one thing this protocol does is bound
//! how much the application has handed to the network at once, and steer that
//! bound from the queuing delay it observes.
//!
//! * [`connection`] - framing, the sender's credit, and what happens between
//!   application calls.
//! * [`window`] - how the granted window is sized, and the credit returned for
//!   it.
//! * [`delay`] - turning arrival timestamps into a one-way queuing delay.
//! * [`probe`] - measuring a round trip no queue can inflate.
//!
//! Two contracts bind a caller. Both ends must speak the protocol, and exactly
//! one end is the [`probe::Role::Initiator`].

pub mod connection;
pub mod delay;
pub mod frame;
pub mod laws;
pub mod probe;
pub mod rate;
pub mod session_laws;
pub mod steering_laws;
pub mod window;
