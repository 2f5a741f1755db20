//! The outcome of an attempt that may have to wait.

use vstd::prelude::*;

verus! {

/// Whether a value is available yet.
#[derive(Debug)]
pub enum Poll<T> {
    /// The value is here.
    Ready(T),
    /// Nothing yet; a registered waker fires when it is worth trying again.
    Pending,
}

} // verus!
