//! Socket settings a result is unattributable without.
//!
//! The send buffer is a second limiter sitting behind the transit window:
//! smaller than the window, it binds instead and sets the latency floor. The
//! congestion control matters for the same reason.

use vstd::prelude::*;
use vstd::string::*;

use crate::text::{decimal, decimal_chars, labelled};

verus! {

/// What a socket was actually configured with, as opposed to asked for.
#[derive(Debug)]
pub struct SocketInfo {
    /// As reported by the kernel, which doubles what was requested to cover its
    /// own bookkeeping.
    pub send_buffer: usize,
    /// As reported by the kernel.
    pub recv_buffer: usize,
    /// Name of the congestion control.
    pub congestion_control: String,
}

impl SocketInfo {
    /// The settings as one text for a log.
    pub fn to_text(&self) -> (r: String)
        ensures
            r@ == "sndbuf="@ + decimal_chars(self.send_buffer as nat) + " rcvbuf="@
                + decimal_chars(self.recv_buffer as nat) + " cc="@ + self.congestion_control@,
    {
        let mut text = labelled("sndbuf=", self.send_buffer as u64);
        text.append(" rcvbuf=");
        text.append(decimal(self.recv_buffer as u64).as_str());
        text.append(" cc=");
        text.append(self.congestion_control.as_str());
        text
    }
}

} // verus!
