//! Remembering which task to wake.

use std::task::Waker;

use vstd::prelude::*;

verus! {

/// `std::task::Waker`, taken as a name for the task that it wakes: two wakers
/// are equal where waking either wakes the same task.
#[verifier::external_type_specification]
#[verifier::external_body]
pub struct ExWaker(std::task::Waker);

/// `Waker::will_wake` answers `true` only where both wakers wake the same task.
/// It may answer `false` for two wakers of one task.
pub assume_specification[ std::task::Waker::will_wake ](
    waker: &std::task::Waker,
    other: &std::task::Waker,
) -> (r: bool)
    ensures
        r ==> *waker == *other,
;

/// `Waker::clone` gives another waker of the same task.
#[verifier::external_body]
fn clone_waker(waker: &Waker) -> (r: Waker)
    ensures
        r == *waker,
{
    waker.clone()
}

/// The tasks to wake once a call is over, in order.
///
/// Nothing in this library wakes a task by itself: whoever calls it hands in a
/// list, and wakes those that the call has put on it.
pub struct Wakes(Vec<Waker>);

impl View for Wakes {
    type V = Seq<Waker>;

    closed spec fn view(&self) -> Seq<Waker> {
        self.0@
    }
}

impl Default for Wakes {
    fn default() -> (r: Self)
        ensures
            r@ == Seq::<Waker>::empty(),
    {
        Wakes(Vec::new())
    }
}

impl Wakes {
    /// Nobody to wake.
    pub fn new() -> (r: Self)
        ensures
            r@ == Seq::<Waker>::empty(),
    {
        Wakes(Vec::new())
    }

    /// Those to wake, for the caller to do so.
    pub fn into_wakers(self) -> (r: Vec<Waker>)
        ensures
            r@ == self@,
    {
        self.0
    }
}

/// Whoever is registered, as a list.
pub open spec fn registered(waker: Option<Waker>) -> Seq<Waker> {
    match waker {
        Some(waker) => seq![waker],
        None => Seq::empty(),
    }
}

/// Slot for a single [`Waker`].
///
/// Requires mutable access.
pub struct WakerSlot(Option<Waker>);

impl View for WakerSlot {
    type V = Option<Waker>;

    closed spec fn view(&self) -> Option<Waker> {
        self.0
    }
}

impl Default for WakerSlot {
    fn default() -> (r: Self)
        ensures
            r@ is None,
    {
        WakerSlot(None)
    }
}

impl WakerSlot {
    /// An empty slot.
    pub fn new() -> (r: Self)
        ensures
            r@ is None,
    {
        WakerSlot(None)
    }

    /// Registers the given [`Waker`], possibly replacing the previous one, which
    /// is not woken.
    pub fn register(&mut self, waker: &Waker)
        ensures
            final(self)@ == Some(*waker),
    {
        let same = match &self.0 {
            Some(prev) => prev.will_wake(waker),
            None => false,
        };
        if !same {
            self.0 = Some(clone_waker(waker));
        }
    }

    /// Empties this slot and has the latest registered [`Waker`] woken.
    pub fn wake(&mut self, woken: &mut Wakes)
        ensures
            final(self)@ is None,
            final(woken)@ == old(woken)@ + registered(old(self)@),
    {
        if let Some(waker) = self.0.take() {
            woken.0.push(waker);
            assert(woken@ =~= old(woken)@ + seq![waker]);
        } else {
            assert(woken@ =~= old(woken)@ + Seq::<Waker>::empty());
        }
    }

    /// Whether a waker is registered.
    pub fn is_registered(&self) -> (r: bool)
        ensures
            r == self@ is Some,
    {
        self.0.is_some()
    }

    /// Empties the slot without waking anybody, handing its waker over.
    pub fn take(&mut self) -> (r: WakerSlot)
        ensures
            r@ == old(self)@,
            final(self)@ is None,
    {
        WakerSlot(self.0.take())
    }
}

} // verus!
