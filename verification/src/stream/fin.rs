//! Which `FIN_*` flags have passed.

use vstd::prelude::*;

verus! {

/// Represents the current `FIN_*` state of a virtual stream or one of its
/// traffic directions.
#[derive(Clone, Copy, Debug, PartialEq, Eq, Structural)]
pub struct FinState {
    /// Our fin was sent.
    pub sent: bool,
    /// The peer's fin was received.
    pub received: bool,
}

/// Nothing sent, nothing received.
pub open spec fn no_fins() -> FinState {
    FinState { sent: false, received: false }
}

impl Default for FinState {
    fn default() -> (r: Self)
        ensures
            r == no_fins(),
    {
        FinState { sent: false, received: false }
    }
}

impl FinState {
    /// Returns whether all fins were sent and received.
    pub fn is_dead(self) -> (r: bool)
        ensures
            r == (self.sent && self.received),
    {
        self.sent && self.received
    }

    /// What has passed in both directions.
    pub open spec fn both(self, other: Self) -> Self {
        FinState {
            sent: self.sent && other.sent,
            received: self.received && other.received,
        }
    }

    /// What has passed in both directions.
    pub fn and(self, other: Self) -> (r: Self)
        ensures
            r == self.both(other),
    {
        FinState {
            sent: self.sent && other.sent,
            received: self.received && other.received,
        }
    }
}

} // verus!
